use neumusic::app::{LogColor, YtdlpUpdateEvent, YtdlpUpdateState};
use neumusic::ffmpeg::AudioFormat;
use neumusic::lang::{t, Lang};
use neumusic::messages::{notice_text, Notice};
use neumusic::pipeline::{Msg, ProgressMark};
use neumusic::NeuMusicApp;

fn app() -> NeuMusicApp {
    NeuMusicApp::new("/bin/yt-dlp".into(), "/usr/bin/ffmpeg".into(), Some("/music".into()))
}

fn log(a: &NeuMusicApp) -> Vec<(String, LogColor)> {
    a.log.iter().map(|l| (l.text.clone(), l.color)).collect()
}

#[test]
fn window_at_start_up() {
    let a = app();
    assert_eq!(a.output_dir, "/music");
    assert_eq!(a.status, "Ready");
    assert_eq!(log(&a), vec![("Ready".to_owned(), LogColor::White)]);
    assert_eq!(a.silence_ms, "2000");
    assert!(a.convert_192 && !a.busy && !a.playlist);
    assert_eq!(a.lang, Lang::En);
    let b = NeuMusicApp::new("y".into(), "f".into(), None);
    assert_eq!(b.output_dir, "");
    let d = NeuMusicApp::default();
    assert!(d.log.is_empty());
    assert_eq!(d.status, "Ready");
}

#[test]
fn language_change_resets_status_and_log() {
    let mut a = app();
    a.lang = Lang::Ko;
    a.on_lang_changed();
    assert_eq!(a.status, "준비 완료");
    assert_eq!(log(&a), vec![("준비 완료".to_owned(), LogColor::White)]);
    assert_eq!(Lang::Ja.label(), "日本語");
    assert_eq!(t(&Lang::Pt, "ru", "en", "es", "ja", "ko", "zh", "pt"), "pt");
}

#[test]
fn start_needs_a_source_and_a_folder() {
    let mut a = app();
    a.url = "   ".into();
    assert!(a.start_processing().is_none());
    assert_eq!(a.status, "Enter URL or select a local file.");
    assert!(!a.busy);
    a.url = " https://x ".into();
    a.output_dir = String::new();
    assert!(a.start_processing().is_none());
    assert_eq!(a.status, "Select an output folder.");
    assert!(!a.can_start());
}

#[test]
fn start_describes_the_run() {
    let mut a = app();
    a.url = " https://x/y \n".into();
    a.silence_ms = "abc".into();
    a.output_format = AudioFormat::Ogg;
    a.debloat_bitrate = 96;
    assert!(a.can_start());
    let r = a.start_processing().expect("run");
    assert_eq!(r.url, "https://x/y");
    assert_eq!(r.dir, "/music");
    assert_eq!(r.silence_ms, 2000);
    assert_eq!(r.format, AudioFormat::Ogg);
    assert_eq!(r.debloat_kbps, 96);
    assert!(a.busy);
    assert_eq!(a.status, "Downloading...");
    assert_eq!(log(&a), vec![("Downloading...".to_owned(), LogColor::White)]);
    assert!(!a.can_start());
    a.silence_ms = "+750".into();
    a.busy = false;
    assert_eq!(a.start_processing().unwrap().silence_ms, 750);
}

#[test]
fn messages_of_a_run_update_the_window() {
    let mut a = app();
    a.busy = true;
    let ended = a.handle_messages(vec![
        Msg::Progress(ProgressMark::Started),
        Msg::Status("▶ Downloading...".into()),
        Msg::Warning("⚠ w".into()),
    ]);
    assert!(!ended && a.busy);
    assert_eq!(a.status, "▶ Downloading...");
    assert_eq!(a.progress, ProgressMark::Started);
    assert!(a.progress_shown() && !a.progress_complete());
    let ended = a.handle_messages(vec![Msg::Error("boom".into())]);
    assert!(ended && !a.busy);
    assert_eq!(a.status, "Error: boom");
    assert_eq!(
        log(&a)[1..],
        vec![
            ("▶ Downloading...".to_owned(), LogColor::White),
            ("⚠ w".to_owned(), LogColor::Yellow),
            ("Error: boom".to_owned(), LogColor::Red)
        ][..]
    );
    a.busy = true;
    assert!(a.handle_messages(vec![Msg::Progress(ProgressMark::Complete), Msg::Done]));
    assert!(!a.busy && a.progress_complete());
}

#[test]
fn error_prefix_in_every_language() {
    assert_eq!(notice_text(Lang::Ru, &Notice::Failed("x".to_owned())), "Ошибка: x");
    assert_eq!(notice_text(Lang::Zh, &Notice::Failed("x".to_owned())), "错误: x");
    assert_eq!(notice_text(Lang::Es, &Notice::Converting(AudioFormat::Ogg)), "▶ Convirtiendo a 208 kbps (OGG)...");
    assert_eq!(notice_text(Lang::Ja, &Notice::Converting(AudioFormat::Mp3)), "▶ 192 kbps (MP3) に変換中...");
    assert_eq!(notice_text(Lang::Zh, &Notice::Debloated(64)), "  ✓ 去膨胀完成（64 kbps）");
    assert_eq!(notice_text(Lang::Pt, &Notice::Converted(Some(180))), "  ✓ Convertido (média 180 kbps)");
}

#[test]
fn start_button_label() {
    let mut a = app();
    assert_eq!(a.start_label(), "Download");
    a.lang = Lang::Es;
    assert_eq!(a.start_label(), "MATUSABOMBER");
    a.set_local_file("/home/u/a.flac".into());
    assert_eq!(a.start_label(), "Convertir");
    assert!(a.can_start());
    a.clear_local_file();
    assert!(!a.can_start());
}

#[test]
fn yt_dlp_updater_events() {
    let mut a = app();
    assert!(!a.on_ytdlp_event(YtdlpUpdateEvent::Checking));
    assert!(matches!(a.ytdlp_update_state, YtdlpUpdateState::Checking));
    a.on_ytdlp_event(YtdlpUpdateEvent::Version("2025.01.01".into()));
    assert_eq!(a.ytdlp_display, "yt-dlp v2025.01.01");
    a.on_ytdlp_event(YtdlpUpdateEvent::Available("2025.06.30".into()));
    a.on_ytdlp_event(YtdlpUpdateEvent::Downloaded);
    assert_eq!(a.ytdlp_display, "yt-dlp v2025.06.30");
    assert!(matches!(a.ytdlp_update_state, YtdlpUpdateState::Downloaded));
    a.on_ytdlp_event(YtdlpUpdateEvent::Error("HTTP: x".into()));
    assert!(matches!(a.ytdlp_update_state, YtdlpUpdateState::Error(ref e) if e == "HTTP: x"));
    assert!(a.on_ytdlp_event(YtdlpUpdateEvent::Done));
}

#[test]
fn paste_and_saved_directory() {
    let mut a = app();
    a.paste_from_button(None);
    assert_eq!(a.status, "Clipboard: install xclip, xsel or wl-clipboard");
    a.paste_from_button(Some("https://a".into()));
    assert_eq!(a.url, "https://a");
    a.paste_from_keys(None);
    assert_eq!(a.url, "https://a");
    assert_eq!(a.saved_output_dir(), Some("/music".to_owned()));
    a.set_output_dir(String::new());
    assert_eq!(a.saved_output_dir(), None);
}
