use neumusic::ffmpeg::{
    add_silence, convert_audio, convert_target, debloat, format_named, get_sample_rate, probe_args,
    probe_text, AudioFormat,
};

fn strs(v: &[String]) -> Vec<&str> {
    v.iter().map(|s| s.as_str()).collect()
}

#[test]
fn formats_by_name() {
    assert_eq!(format_named("mp3"), Ok(AudioFormat::Mp3));
    assert_eq!(format_named("ogg"), Ok(AudioFormat::Ogg));
    assert_eq!(format_named("flac"), Err("Unknown format: flac".to_owned()));
    assert_eq!(format_named("MP3"), Err("Unknown format: MP3".to_owned()));
    assert_eq!(AudioFormat::Mp3.target_kbps(), 192);
    assert_eq!(AudioFormat::Ogg.target_kbps(), 208);
    assert_eq!(AudioFormat::Ogg.codec_label(), "OGG");
    assert_eq!(AudioFormat::Mp3.ext(), "mp3");
}

#[test]
fn probe_command_line() {
    let args = probe_args("stream=sample_rate", "/m/a.webm");
    assert_eq!(
        strs(&args),
        vec!["-v", "error", "-show_entries", "stream=sample_rate", "-of", "default=noprint_wrappers=1:nokey=1", "/m/a.webm"]
    );
    assert_eq!(probe_text(" 212.4\n"), "212.4");
}

#[test]
fn sample_rate_from_probe_output() {
    assert_eq!(get_sample_rate("48000\n"), Ok(48000));
    assert_eq!(get_sample_rate("  96000  "), Ok(96000));
    assert_eq!(get_sample_rate("+44100"), Ok(44100));
    assert_eq!(
        get_sample_rate(""),
        Err("Не удалось прочитать sample rate: cannot parse integer from empty string".to_owned())
    );
    assert_eq!(
        get_sample_rate("N/A"),
        Err("Не удалось прочитать sample rate: invalid digit found in string".to_owned())
    );
    assert_eq!(
        get_sample_rate("44100\n48000\n"),
        Err("Не удалось прочитать sample rate: invalid digit found in string".to_owned())
    );
    assert_eq!(
        get_sample_rate("99999999999x"),
        Err("Не удалось прочитать sample rate: number too large to fit in target type".to_owned())
    );
    assert_eq!(
        get_sample_rate("+"),
        Err("Не удалось прочитать sample rate: invalid digit found in string".to_owned())
    );
}

#[test]
fn conversion_target() {
    assert_eq!(convert_target("song.webm", "mp3"), Ok(Some("song.mp3".to_owned())));
    assert_eq!(convert_target("song.mp3", "mp3"), Ok(None));
    assert_eq!(convert_target("song.opus", "ogg"), Ok(Some("song.ogg".to_owned())));
    assert_eq!(convert_target("song.opus", "wav"), Err("Unknown format: wav".to_owned()));
}

#[test]
fn convert_mp3_command_line() {
    let job = convert_audio("/m", "song.webm", "song.mp3", AudioFormat::Mp3, 44100, false);
    assert_eq!(
        strs(&job.args),
        vec!["-y", "-i", "/m/song.webm", "-b:a", "192k", "-maxrate", "192k", "-bufsize", "192k", "/m/song.mp3"]
    );
    assert_eq!(job.output, "song.mp3");
    assert!(!job.renames());
    assert_eq!(job.failure, "ffmpeg: ошибка конвертации");
}

#[test]
fn convert_ogg_resamples_above_48k() {
    let job = convert_audio("/m", "song.webm", "song.ogg", AudioFormat::Ogg, 96000, false);
    assert_eq!(
        strs(&job.args),
        vec![
            "-y", "-i", "/m/song.webm", "-b:a", "208k", "-maxrate", "208k", "-bufsize", "208k", "-c:a",
            "libvorbis", "-ar", "48000", "/m/song.ogg"
        ]
    );
    let at_limit = convert_audio("/m", "song.webm", "song.ogg", AudioFormat::Ogg, 48000, false);
    assert!(!at_limit.args.iter().any(|a| a == "-ar"));
}

#[test]
fn silence_command_line() {
    let job = add_silence("/m", "song.mp3", 2000, AudioFormat::Mp3, 0, false);
    assert_eq!(job.written, "song.silence.mp3");
    assert_eq!(job.output, "song.mp3");
    assert!(job.renames());
    assert_eq!(
        strs(&job.args),
        vec![
            "-y", "-i", "/m/song.mp3", "-b:a", "192k", "-maxrate", "192k", "-bufsize", "192k", "-af",
            "adelay=2000|2000", "/m/song.silence.mp3"
        ]
    );
    assert_eq!(job.failure, "ffmpeg: ошибка добавления тишины");
}

#[test]
fn debloat_command_line() {
    assert!(matches!(debloat("/m", "song.mp3", "mp3", 0, false), Ok(None)));
    assert!(matches!(debloat("/m", "song.mp3", "wav", 0, false), Ok(None)));
    match debloat("/m", "song.mp3", "wav", 128, false) {
        Err(e) => assert_eq!(e, "Unknown format: wav"),
        Ok(_) => panic!("unknown format accepted"),
    }
    let job = debloat("/m", "song.ogg", "ogg", 96, false).unwrap().unwrap();
    assert_eq!(job.written, "song.debloat.ogg");
    assert_eq!(job.output, "song.ogg");
    assert_eq!(
        strs(&job.args),
        vec!["-y", "-i", "/m/song.ogg", "-b:a", "96k", "-c:a", "libvorbis", "/m/song.debloat.ogg"]
    );
    assert_eq!(job.failure, "ffmpeg: ошибка деблоатинга");
}
