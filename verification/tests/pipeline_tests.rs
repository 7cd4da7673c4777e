use neumusic::ffmpeg::AudioFormat;
use neumusic::lang::Lang;
use neumusic::pipeline::{Action, Event, LocalSource, Msg, Output, Pipeline, PipelineConfig, ProgressMark, Stage};
use neumusic::selection::DirEntry;

fn config(lang: Lang) -> PipelineConfig {
    PipelineConfig {
        convert: true,
        format: AudioFormat::Mp3,
        silence: false,
        silence_ms: 2000,
        playlist: false,
        debloat: false,
        debloat_kbps: 0,
        lang,
        local: None,
    }
}

#[derive(Debug, PartialEq)]
enum Act {
    ListNames,
    CopyLocal(String),
    Download,
    ListAudio,
    Measure(String),
    Convert(String),
    AddSilence(String, u64),
    Debloat(String, u64),
    Cleanup(String),
    Rename(String, String),
    Stop,
}

fn act(a: &Action<String>) -> Act {
    match a {
        Action::ListNames => Act::ListNames,
        Action::CopyLocal(s) => Act::CopyLocal(s.clone()),
        Action::Download => Act::Download,
        Action::ListAudio => Act::ListAudio,
        Action::Measure(s) => Act::Measure(s.clone()),
        Action::Convert(s) => Act::Convert(s.clone()),
        Action::AddSilence(s, ms) => Act::AddSilence(s.clone(), *ms),
        Action::Debloat(s, k) => Act::Debloat(s.clone(), *k),
        Action::Cleanup(s) => Act::Cleanup(s.clone()),
        Action::Rename(a, b) => Act::Rename(a.clone(), b.clone()),
        Action::Stop => Act::Stop,
    }
}

fn msg_text(m: &Msg<String>) -> String {
    match m {
        Msg::Status(s) => format!("S:{s}"),
        Msg::Warning(s) => format!("W:{s}"),
        Msg::Error(s) => format!("E:{s}"),
        Msg::Progress(p) => format!("P:{p:?}"),
        Msg::Done => "Done".to_owned(),
    }
}

/// Runs a pipeline, answering each action with `answer`, and returns every action
/// and every message in order.
fn run(cfg: PipelineConfig, mut answer: impl FnMut(&Act) -> Event) -> (Vec<Act>, Vec<String>) {
    let mut p = Pipeline::new(cfg);
    let mut acts = Vec::new();
    let mut msgs = Vec::new();
    let mut out: Output = p.start();
    loop {
        msgs.extend(out.messages.iter().map(msg_text));
        let a = act(&out.action);
        if a == Act::Stop {
            acts.push(a);
            assert_eq!(p.stage, Stage::Stopped);
            break;
        }
        let ev = answer(&a);
        assert!(p.accepts(&ev));
        acts.push(a);
        out = p.step(ev);
    }
    (acts, msgs)
}

fn produced_name(a: &Act) -> String {
    match a {
        Act::Convert(s) => s.replace(".webm", ".mp3"),
        Act::AddSilence(s, _) => s.clone(),
        Act::Debloat(s, _) => s.clone(),
        _ => unreachable!(),
    }
}

#[test]
fn single_download_with_every_step() {
    let mut cfg = config(Lang::En);
    cfg.silence = true;
    cfg.silence_ms = 1500;
    cfg.debloat = true;
    cfg.debloat_kbps = 128;
    let mut measures = vec![Some(160_000u64), Some(190_500), Some(128_900)].into_iter();
    let (acts, msgs) = run(cfg, |a| match a {
        Act::Download => Event::Downloaded(Ok("track.webm".to_owned())),
        Act::Measure(_) => Event::Bitrate(measures.next().unwrap()),
        Act::Convert(_) | Act::AddSilence(..) | Act::Debloat(..) => Event::Produced(Ok(produced_name(a))),
        Act::Cleanup(_) => Event::CleanedUp,
        other => panic!("unexpected {other:?}"),
    });
    assert_eq!(
        acts,
        vec![
            Act::Download,
            Act::Measure("track.webm".into()),
            Act::Convert("track.webm".into()),
            Act::Measure("track.mp3".into()),
            Act::AddSilence("track.mp3".into(), 1500),
            Act::Debloat("track.mp3".into(), 128),
            Act::Measure("track.mp3".into()),
            Act::Cleanup("track.mp3".into()),
            Act::Stop,
        ]
    );
    assert_eq!(
        msgs,
        vec![
            "P:Started",
            "S:▶ Downloading...",
            "P:Downloaded",
            "S:  ✓ Downloaded",
            "P:Step { done: 0, total: 1 }",
            "S:▶ Converting to 192 kbps (MP3)...",
            "S:  ✓ Converted (190 kbps avg)",
            "S:▶ Adding silence...",
            "S:  ✓ Silence added",
            "S:▶ Debloat: cap 128 kbps...",
            "S:  ✓ Debloat done (128 kbps)",
            "S:  ✓ Final bitrate: 128 kbps",
            "P:Step { done: 1, total: 1 }",
            "P:Complete",
            "S:  ✓ Done",
            "Done",
        ]
    );
}

#[test]
fn bloat_warning_when_bitrate_rises_without_debloat() {
    let mut measures = vec![Some(128_000u64), None, Some(189_999)].into_iter();
    let (_, msgs) = run(config(Lang::En), |a| match a {
        Act::Download => Event::Downloaded(Ok("t.webm".to_owned())),
        Act::Measure(_) => Event::Bitrate(measures.next().unwrap()),
        Act::Convert(_) => Event::Produced(Ok("t.mp3".to_owned())),
        Act::Cleanup(_) => Event::CleanedUp,
        other => panic!("unexpected {other:?}"),
    });
    assert!(msgs.contains(&"S:  ✓ Converted".to_owned()));
    assert!(msgs.contains(
        &"W:⚠ Audio possibly bloated: 128 → 189 kbps. Manual spectrogram check required.".to_owned()
    ));
}

#[test]
fn no_bloat_warning_for_sources_at_the_cap_or_unknown() {
    for (src, out) in [(Some(200_000u64), Some(250_000u64)), (None, Some(190_000)), (Some(150_000), Some(150_999))] {
        let mut measures = vec![src, Some(0), out].into_iter();
        let (_, msgs) = run(config(Lang::En), |a| match a {
            Act::Download => Event::Downloaded(Ok("t.webm".to_owned())),
            Act::Measure(_) => Event::Bitrate(measures.next().unwrap()),
            Act::Convert(_) => Event::Produced(Ok("t.mp3".to_owned())),
            Act::Cleanup(_) => Event::CleanedUp,
            other => panic!("unexpected {other:?}"),
        });
        assert!(!msgs.iter().any(|m| m.starts_with("W:")), "{src:?} {out:?}");
    }
}

#[test]
fn local_file_inside_output_dir_is_processed_as_copy_and_renamed_back() {
    let mut cfg = config(Lang::Ru);
    cfg.local = Some(LocalSource { name: "song.flac".to_owned(), in_place: true });
    let (acts, msgs) = run(cfg, |a| match a {
        Act::CopyLocal(_) => Event::Copied(Ok(())),
        Act::Measure(_) => Event::Bitrate(Some(900_000)),
        Act::Convert(_) => Event::Produced(Ok("_work_song.mp3".to_owned())),
        Act::Cleanup(_) => Event::CleanedUp,
        Act::Rename(..) => Event::Renamed(Ok(())),
        other => panic!("unexpected {other:?}"),
    });
    assert_eq!(acts[0], Act::CopyLocal("_work_song.flac".into()));
    assert_eq!(acts[1], Act::Measure("_work_song.flac".into()));
    assert_eq!(acts[acts.len() - 2], Act::Rename("_work_song.mp3".into(), "song.mp3".into()));
    assert_eq!(msgs[0], "S:▶ Файл: song.flac");
    assert_eq!(msgs[msgs.len() - 2], "S:  ✓ Готово");
}

#[test]
fn local_file_elsewhere_is_copied_under_its_name() {
    let mut cfg = config(Lang::En);
    cfg.convert = false;
    cfg.local = Some(LocalSource { name: "a.ogg".to_owned(), in_place: false });
    let (acts, msgs) = run(cfg, |a| match a {
        Act::CopyLocal(_) => Event::Copied(Ok(())),
        Act::Measure(_) => Event::Bitrate(Some(0)),
        Act::Cleanup(_) => Event::CleanedUp,
        other => panic!("unexpected {other:?}"),
    });
    assert_eq!(
        acts,
        vec![
            Act::CopyLocal("a.ogg".into()),
            Act::Measure("a.ogg".into()),
            Act::Measure("a.ogg".into()),
            Act::Cleanup("a.ogg".into()),
            Act::Stop
        ]
    );
    assert!(!msgs.iter().any(|m| m.starts_with("S:  ✓ Final bitrate")));
}

#[test]
fn playlist_processes_new_audio_files_oldest_first() {
    let mut cfg = config(Lang::En);
    cfg.playlist = true;
    cfg.convert = false;
    let (acts, msgs) = run(cfg, |a| match a {
        Act::ListNames => Event::Names(vec!["old.mp3".to_owned(), "notes.txt".to_owned()]),
        Act::Download => Event::Downloaded(Ok("b.webm".to_owned())),
        Act::ListAudio => Event::Entries(vec![
            DirEntry { name: "old.mp3".to_owned(), modified: Some(1) },
            DirEntry { name: "b.webm".to_owned(), modified: Some(30) },
            DirEntry { name: "a.opus".to_owned(), modified: Some(20) },
            DirEntry { name: "notes.txt".to_owned(), modified: Some(40) },
        ]),
        Act::Measure(_) => Event::Bitrate(None),
        Act::Cleanup(_) => Event::CleanedUp,
        other => panic!("unexpected {other:?}"),
    });
    let measured: Vec<&Act> = acts.iter().filter(|a| matches!(a, Act::Cleanup(_))).collect();
    assert_eq!(measured, vec![&Act::Cleanup("a.opus".into()), &Act::Cleanup("b.webm".into())]);
    let progress: Vec<&String> = msgs.iter().filter(|m| m.starts_with("P:")).collect();
    assert_eq!(
        progress,
        vec![
            "P:Started",
            "P:Downloaded",
            "P:Step { done: 1, total: 2 }",
            "P:Step { done: 2, total: 2 }",
            "P:Complete"
        ]
    );
}

#[test]
fn playlist_with_nothing_new_finishes_at_once() {
    let mut cfg = config(Lang::En);
    cfg.playlist = true;
    let (acts, msgs) = run(cfg, |a| match a {
        Act::ListNames => Event::Names(vec!["x.mp3".to_owned()]),
        Act::Download => Event::Downloaded(Ok("x.mp3".to_owned())),
        Act::ListAudio => Event::Entries(vec![DirEntry { name: "x.mp3".to_owned(), modified: Some(1) }]),
        other => panic!("unexpected {other:?}"),
    });
    assert_eq!(acts, vec![Act::ListNames, Act::Download, Act::ListAudio, Act::Stop]);
    assert_eq!(msgs.last().unwrap(), "Done");
}

#[test]
fn a_failed_step_ends_the_run_with_its_error() {
    let (acts, msgs) = run(config(Lang::En), |a| match a {
        Act::Download => Event::Downloaded(Ok("t.webm".to_owned())),
        Act::Measure(_) => Event::Bitrate(None),
        Act::Convert(_) => Event::Produced(Err("ffmpeg: ошибка конвертации".to_owned())),
        other => panic!("unexpected {other:?}"),
    });
    assert_eq!(acts.last().unwrap(), &Act::Stop);
    assert_eq!(msgs.last().unwrap(), "E:ffmpeg: ошибка конвертации");
    assert!(!msgs.contains(&"Done".to_owned()));
}

#[test]
fn a_failed_download_ends_the_run() {
    let (acts, msgs) = run(config(Lang::Ja), |a| match a {
        Act::Download => Event::Downloaded(Err("yt-dlp: ошибка загрузки. Возможно, контент защищён DRM.".to_owned())),
        other => panic!("unexpected {other:?}"),
    });
    assert_eq!(acts, vec![Act::Download, Act::Stop]);
    assert_eq!(
        msgs,
        vec!["P:Started", "S:▶ ダウンロード中...", "E:yt-dlp: ошибка загрузки. Возможно, контент защищён DRM."]
    );
}

#[test]
fn progress_marks_rise() {
    let mut measures = vec![Some(1u64), Some(2), Some(3)].into_iter();
    let mut p = Pipeline::new(config(Lang::En));
    let mut last = p.progress;
    let mut out = p.start();
    let rank = |m: ProgressMark| -> f64 {
        match m {
            ProgressMark::Zero => 0.0,
            ProgressMark::Started => 0.05,
            ProgressMark::Downloaded => 0.30,
            ProgressMark::Step { done, total } => 0.30 + done as f64 / total as f64 * 0.65,
            ProgressMark::Complete => 1.0,
        }
    };
    loop {
        for m in &out.messages {
            if let Msg::Progress(q) = m {
                assert!(rank(last) <= rank(*q));
                last = *q;
            }
        }
        let ev = match &out.action {
            Action::Download => Event::Downloaded(Ok("a.webm".to_owned())),
            Action::Measure(_) => Event::Bitrate(measures.next().unwrap()),
            Action::Convert(_) => Event::Produced(Ok("a.mp3".to_owned())),
            Action::Cleanup(_) => Event::CleanedUp,
            Action::Stop => break,
            _ => panic!("unexpected action"),
        };
        out = p.step(ev);
    }
    assert_eq!(last, ProgressMark::Complete);
}

#[test]
fn source_is_measured_first_even_without_conversion() {
    let mut cfg = config(Lang::En);
    cfg.convert = false;
    cfg.silence = true;
    cfg.silence_ms = 500;
    let (acts, _) = run(cfg, |a| match a {
        Act::Download => Event::Downloaded(Ok("raw.opus".to_owned())),
        Act::Measure(_) => Event::Bitrate(Some(96_000)),
        Act::AddSilence(s, _) => Event::Produced(Ok(s.replace(".opus", ".mp3"))),
        Act::Cleanup(_) => Event::CleanedUp,
        other => panic!("unexpected {other:?}"),
    });
    assert_eq!(
        acts,
        vec![
            Act::Download,
            Act::Measure("raw.opus".into()),
            Act::AddSilence("raw.opus".into(), 500),
            Act::Measure("raw.mp3".into()),
            Act::Cleanup("raw.mp3".into()),
            Act::Stop,
        ]
    );
}
