use neumusic::icon::{load_error_text, load_icon, load_spectrogram};
use neumusic::setup::{clipboard_next, clipboard_start, ClipboardStep, 
    binary_name, clipboard_text, download_tmp_name, extract_yt_dlp, extracted_name, needs_seeding, printed_value,
    yt_dlp_cache_dir, Os,
};

#[test]
fn cache_directory_per_system() {
    assert_eq!(yt_dlp_cache_dir(Os::Linux, Some("/x/data"), Some("/home/u"), None, "/tmp"), "/x/data/neumusic");
    assert_eq!(yt_dlp_cache_dir(Os::Linux, None, Some("/home/u"), None, "/tmp"), "/home/u/.local/share/neumusic");
    assert_eq!(yt_dlp_cache_dir(Os::Linux, None, None, None, "/t"), "/tmp/.local/share/neumusic");
    assert_eq!(
        yt_dlp_cache_dir(Os::MacOs, None, Some("/Users/u"), None, "/t"),
        "/Users/u/Library/Application Support/neumusic"
    );
    assert_eq!(
        yt_dlp_cache_dir(Os::Windows, None, None, Some("C:\\Users\\u\\AppData\\Roaming"), "C:\\t"),
        "C:\\Users\\u\\AppData\\Roaming\\neumusic"
    );
    assert_eq!(yt_dlp_cache_dir(Os::Windows, None, None, None, "C:\\t"), "C:\\temp\\neumusic");
    assert_eq!(yt_dlp_cache_dir(Os::Other, None, None, None, "/var/tmp"), "/var/tmp/neumusic");
}

#[test]
fn binaries_and_temporary_names() {
    assert_eq!(binary_name(true), "yt-dlp.exe");
    assert_eq!(binary_name(false), "yt-dlp");
    assert_eq!(extract_yt_dlp(false), "yt-dlp");
    assert_eq!(extracted_name("yt-dlp"), "neumusic-yt-dlp");
    assert_eq!(download_tmp_name("yt-dlp"), "yt-dlp..tmp");
    assert_eq!(download_tmp_name("yt-dlp.exe"), "yt-dlp..tmp");
}

#[test]
fn helper_program_output() {
    assert_eq!(printed_value(true, "2025.06.30\n"), Some("2025.06.30".to_owned()));
    assert_eq!(printed_value(true, " \n"), None);
    assert_eq!(printed_value(false, "2025.06.30"), None);
    assert_eq!(clipboard_text(true, "  https://x \n"), Some("https://x".to_owned()));
    assert_eq!(clipboard_text(true, ""), Some(String::new()));
    assert_eq!(clipboard_text(false, "x"), None);
    assert!(needs_seeding(false, &Some("1".into())));
    assert!(needs_seeding(true, &None));
    assert!(!needs_seeding(true, &Some("1".into())));
}

#[test]
fn icon_decodes_png() {
    // a 1x1 opaque red PNG
    let png: [u8; 69] = [
        0x89, 0x50, 0x4e, 0x47, 0x0d, 0x0a, 0x1a, 0x0a, 0x00, 0x00, 0x00, 0x0d, 0x49, 0x48, 0x44, 0x52, 0x00, 0x00,
        0x00, 0x01, 0x00, 0x00, 0x00, 0x01, 0x08, 0x02, 0x00, 0x00, 0x00, 0x90, 0x77, 0x53, 0xde, 0x00, 0x00, 0x00,
        0x0c, 0x49, 0x44, 0x41, 0x54, 0x78, 0x9c, 0x63, 0xf8, 0xcf, 0xc0, 0x00, 0x00, 0x03, 0x01, 0x01, 0x00, 0xc9,
        0xfe, 0x92, 0xef, 0x00, 0x00, 0x00, 0x00, 0x49, 0x45, 0x4e, 0x44, 0xae, 0x42, 0x60, 0x82,
    ];
    let img = load_icon(&png).expect("decodes");
    assert_eq!((img.width, img.height), (1, 1));
    assert_eq!(img.pixels, vec![255, 0, 0, 255]);
    assert!(load_icon(&[1, 2, 3]).is_none());
    let pic = load_spectrogram(&png).expect("decodes");
    assert_eq!((pic.width, pic.height, pic.pixels), (1, 1, vec![255, 0, 0, 255]));
    let err = load_spectrogram(&[1, 2, 3]).err().expect("garbage does not decode");
    let reason = image::load_from_memory(&[1, 2, 3]).err().unwrap().to_string();
    assert_eq!(err, format!("Ошибка загрузки PNG: {reason}"));
    assert_eq!(load_error_text("x"), "Ошибка загрузки PNG: x");
}

fn command(step: &ClipboardStep) -> Option<(String, Vec<String>)> {
    match step {
        ClipboardStep::Run(c) => Some((c.program.clone(), c.args.clone())),
        ClipboardStep::Done(_) => None,
    }
}

#[test]
fn clipboard_programs_are_tried_in_order_until_one_succeeds() {
    let first = clipboard_start(false);
    assert_eq!(command(&first), Some(("xclip".into(), vec!["-o".into(), "-selection".into(), "clipboard".into()])));
    let second = clipboard_next(false, 0, None);
    assert_eq!(command(&second), Some(("xsel".into(), vec!["-b".into(), "-o".into()])));
    let third = clipboard_next(false, 1, Some((false, "ignored".into())));
    assert_eq!(command(&third), Some(("wl-paste".into(), vec![])));
    assert!(matches!(clipboard_next(false, 2, None), ClipboardStep::Done(None)));
    match clipboard_next(false, 1, Some((true, "  https://x\n".into()))) {
        ClipboardStep::Done(Some(t)) => assert_eq!(t, "https://x"),
        _ => panic!("a successful program ends the search"),
    }
    let win = clipboard_start(true);
    assert_eq!(command(&win), Some(("powershell".into(), vec!["-command".into(), "Get-Clipboard".into()])));
    assert!(matches!(clipboard_next(true, 0, Some((false, String::new()))), ClipboardStep::Done(None)));
}
