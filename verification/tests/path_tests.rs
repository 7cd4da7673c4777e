use neumusic::ffmpeg::ffprobe_cmd;
use neumusic::path::{components, extension, extension_text, file_name, file_stem, join, parent, same_place, with_extension};
use neumusic::pipeline::local_source;
use std::path::Path;

#[test]
fn stem_and_extension_follow_std() {
    for name in ["song.mp3", "a.b.c", ".bashrc", "foo", "foo.", "..", ".", "..x", "x..", "_work_track.webm"] {
        let p = Path::new(name);
        assert_eq!(extension(name), p.extension().map(|e| e.to_str().unwrap().to_owned()), "{name}");
        if let Some(stem) = p.file_stem() {
            assert_eq!(file_stem(name), stem.to_str().unwrap(), "{name}");
        }
    }
    assert_eq!(file_stem("song.webm"), "song");
    assert_eq!(extension(".bashrc"), None);
    assert_eq!(extension("foo."), Some(String::new()));
    assert_eq!(extension_text("foo"), "");
}

#[test]
fn with_extension_follows_std() {
    for (name, ext) in [
        ("song.webm", "mp3"),
        ("song.mp3", "mp3"),
        ("song.mp3", "silence.mp3"),
        ("song", "ogg"),
        ("song.mp3", ""),
        (".bashrc", "txt"),
        ("yt-dlp", ".tmp"),
        ("yt-dlp.exe", ".tmp"),
        ("a.b.c", "d"),
    ] {
        let expected = Path::new(name).with_extension(ext);
        assert_eq!(with_extension(name, ext), expected.to_str().unwrap(), "{name} {ext}");
    }
    assert_eq!(with_extension("song.mp3", "silence.mp3"), "song.silence.mp3");
    assert_eq!(with_extension("yt-dlp", ".tmp"), "yt-dlp..tmp");
    assert_eq!(with_extension("..", "mp3"), "..");
    assert_eq!(with_extension("", "mp3"), "");
}

#[test]
fn join_puts_one_separator_between() {
    assert_eq!(join("/music", "a.mp3", false), "/music/a.mp3");
    assert_eq!(join("/music/", "a.mp3", false), "/music/a.mp3");
    assert_eq!(join("", "a.mp3", false), "a.mp3");
    assert_eq!(join("/music", "/abs", false), "/abs");
    assert_eq!(join("C:\\Music", "a.mp3", true), "C:\\Music\\a.mp3");
    assert_eq!(join("C:\\Music\\", "a.mp3", true), "C:\\Music\\a.mp3");
}

#[test]
fn parent_follows_std() {
    for p in [
        "/usr/bin/ffmpeg", "ffmpeg", "/ffmpeg", "/", "", "a/b/", "a//b", "a/./b", "a/b/.", "./a", ".", "./",
        "..", "a/..", "./.", "//a", "/./a", "a/././", ".//b", "./a/./b/",
    ] {
        assert_eq!(
            parent(p, false),
            Path::new(p).parent().map(|d| d.to_str().unwrap().to_owned()),
            "{p}"
        );
    }
}

#[test]
fn ffprobe_lies_beside_ffmpeg() {
    assert_eq!(ffprobe_cmd("/usr/bin/ffmpeg", false), "/usr/bin/ffprobe");
    assert_eq!(ffprobe_cmd("ffmpeg", false), "ffprobe");
    assert_eq!(ffprobe_cmd("C:\\Temp\\neumusic-ffmpeg\\ffmpeg.exe", true), "C:\\Temp\\neumusic-ffmpeg\\ffprobe.exe");
}

#[test]
fn file_name_and_components_follow_std() {
    for p in ["/usr/bin/ffmpeg", "a/b/", "a/./b/.", "./x.mp3", ".", "..", "a/..", "/", "", "//a//b//", "song.flac"] {
        assert_eq!(
            file_name(p, false),
            Path::new(p).file_name().map(|n| n.to_str().unwrap().to_owned()),
            "{p}"
        );
        let std_comps: Vec<String> = Path::new(p)
            .components()
            .filter_map(|c| match c {
                std::path::Component::Normal(n) => Some(n.to_str().unwrap().to_owned()),
                std::path::Component::ParentDir => Some("..".to_owned()),
                _ => None,
            })
            .collect();
        assert_eq!(components(p, false), std_comps, "{p}");
    }
}

#[test]
fn same_place_follows_path_equality() {
    let pairs = [
        ("/music/a.mp3", "/music//a.mp3"),
        ("/music/a.mp3", "/music/./a.mp3"),
        ("/music/a.mp3", "music/a.mp3"),
        ("/music/a.mp3", "/music/b.mp3"),
        ("./a", "a"),
        ("a/b/", "a/b"),
        ("a/../b", "b"),
    ];
    for (a, b) in pairs {
        assert_eq!(same_place(a, b, false), Path::new(a) == Path::new(b), "{a} {b}");
    }
}

#[test]
fn local_file_in_the_output_directory_is_found() {
    let inside = local_source("/music", "/music/./song.flac", false);
    assert_eq!(inside.name, "song.flac");
    assert!(inside.in_place);
    let outside = local_source("/music", "/downloads/song.flac", false);
    assert_eq!(outside.name, "song.flac");
    assert!(!outside.in_place);
    let nameless = local_source("/music", "/", false);
    assert_eq!(nameless.name, "file");
    assert!(!nameless.in_place);
}

#[test]
fn windows_drives_follow_std() {
    assert_eq!(join("C:", "x", true), "C:x");
    assert_eq!(join("C:\\a", "\\b", true), "C:\\b");
    assert_eq!(join("C:\\a", "D:y", true), "D:y");
    assert_eq!(join("a", "\\b", true), "\\b");
    assert_eq!(join("C:\\music", "a.mp3", true), "C:\\music\\a.mp3");
    assert_eq!(parent("C:\\", true), None);
    assert_eq!(parent("C:", true), None);
    assert_eq!(parent("C:.", true), None);
    assert_eq!(parent("C:a", true), Some("C:".to_owned()));
    assert_eq!(parent("C:\\a", true), Some("C:\\".to_owned()));
    assert_eq!(parent("C:./a", true), Some("C:.".to_owned()));
    assert_eq!(parent("C:\\Temp\\ffmpeg.exe", true), Some("C:\\Temp".to_owned()));
    assert!(same_place("c:\\music\\a.mp3", "C:\\music\\a.mp3", true));
    assert!(same_place("C:./a", "C:a", true));
    assert!(!same_place("C:a", "C:\\a", true));
    assert!(!same_place("C:\\a", "D:\\a", true));
    assert_eq!(file_name("C:", true), None);
    assert_eq!(file_name("C:\\x\\song.flac", true), Some("song.flac".to_owned()));
    let inside = local_source("c:\\music", "C:\\music\\song.flac", true);
    assert_eq!(inside.name, "song.flac");
    assert!(inside.in_place);
    // on Unix a colon is an ordinary character
    assert_eq!(join("C:", "x", false), "C:/x");
}
