use neumusic::download::{
    download_args, launch_failure, poll_child, retry_args, ChildState, Download, DownloadAction, DownloadEvent,
    DownloadStage, Poll,
};
use neumusic::selection::DirEntry;

fn strs(v: &[String]) -> Vec<&str> {
    v.iter().map(|s| s.as_str()).collect()
}

#[test]
fn first_attempt_command_line() {
    let a = download_args("/m", "https://x/y", false, Some("/usr/bin"), false);
    assert_eq!(
        strs(&a),
        vec!["-f", "bestaudio/best", "-x", "-o", "/m/%(title)s.%(ext)s", "--ffmpeg-location", "/usr/bin", "--no-playlist", "https://x/y"]
    );
    let p = download_args("/m", "u", true, None, false);
    assert_eq!(strs(&p), vec!["-f", "bestaudio/best", "-x", "-o", "/m/%(title)s.%(ext)s", "u"]);
    let r = retry_args(&p);
    assert_eq!(
        strs(&r),
        vec!["--extractor-args", "soundcloud:formats=*", "-f", "bestaudio/best", "-x", "-o", "/m/%(title)s.%(ext)s", "u"]
    );
}

fn started() -> Download {
    let (d, a) = Download::start(vec!["u".to_owned()]);
    assert!(matches!(a, DownloadAction::Run(ref v) if v == &vec!["u".to_owned()]));
    d
}

#[test]
fn success_on_first_attempt_finds_newest_audio() {
    let mut d = started();
    assert!(matches!(d.step(DownloadEvent::Ran(Ok(true), false)), DownloadAction::ListFiles));
    let es = vec![
        DirEntry { name: "a.mp3".into(), modified: Some(1) },
        DirEntry { name: "b.webm".into(), modified: Some(2) },
        DirEntry { name: "c.txt".into(), modified: Some(3) },
    ];
    match d.step(DownloadEvent::Listed(es)) {
        DownloadAction::Finish(Ok(n)) => assert_eq!(n, "b.webm"),
        _ => panic!("expected the newest audio file"),
    }
    assert_eq!(d.stage, DownloadStage::Over);
}

#[test]
fn failed_first_attempt_retries_then_reports_drm() {
    let mut d = started();
    match d.step(DownloadEvent::Ran(Ok(false), false)) {
        DownloadAction::Run(a) => assert_eq!(strs(&a), vec!["--extractor-args", "soundcloud:formats=*", "u"]),
        _ => panic!("expected a retry"),
    }
    match d.step(DownloadEvent::Ran(Ok(false), false)) {
        DownloadAction::Finish(Err(e)) => assert_eq!(e, "yt-dlp: ошибка загрузки. Возможно, контент защищён DRM."),
        _ => panic!("expected the DRM error"),
    }
}

#[test]
fn cancelled_first_attempt_does_not_retry() {
    let mut d = started();
    match d.step(DownloadEvent::Ran(Ok(false), true)) {
        DownloadAction::Finish(Err(e)) => assert_eq!(e, "Отменено"),
        _ => panic!("expected cancellation"),
    }
}

#[test]
fn run_error_and_missing_file() {
    let mut d = started();
    match d.step(DownloadEvent::Ran(Err("Отменено пользователем".into()), true)) {
        DownloadAction::Finish(Err(e)) => assert_eq!(e, "Отменено пользователем"),
        _ => panic!("expected the error"),
    }
    let mut d = started();
    d.step(DownloadEvent::Ran(Ok(true), false));
    match d.step(DownloadEvent::Listed(vec![DirEntry { name: "x.txt".into(), modified: None }])) {
        DownloadAction::Finish(Err(e)) => assert_eq!(e, "Не найден скачанный аудиофайл"),
        _ => panic!("expected not found"),
    }
}

#[test]
fn polling_the_running_process() {
    assert!(matches!(poll_child(true, ChildState::Running), Poll::Kill(ref t) if t == "Отменено пользователем"));
    assert!(matches!(poll_child(true, ChildState::Exited(true)), Poll::Kill(_)));
    assert!(matches!(poll_child(false, ChildState::Running), Poll::Wait));
    assert!(matches!(poll_child(false, ChildState::Exited(false)), Poll::Finished(false)));
    assert!(matches!(poll_child(false, ChildState::WaitFailed("boom".into())), Poll::Failed(ref t) if t == "Ошибка yt-dlp: boom"));
    assert!(matches!(poll_child(false, ChildState::Missing), Poll::Vanished(ref t) if t == "Процесс yt-dlp был завершён"));
    assert_eq!(launch_failure("not found"), "Не удалось запустить yt-dlp: not found");
}
