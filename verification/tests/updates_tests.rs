use neumusic::updates::{release_decision, tag_name, update_state, FetchError, ReleaseDecision, UpdateState};

#[test]
fn tag_from_github_answer() {
    let body = r#"{"url":"x","tag_name":"2025.06.30","name":"yt-dlp 2025.06.30","tag_name":"other"}"#;
    assert_eq!(tag_name(body), Some("2025.06.30".to_owned()));
    assert_eq!(tag_name(r#"{"name":"x"}"#), None);
    assert_eq!(tag_name(r#""tag_name":"open"#), Some("open".to_owned()));
    assert_eq!(tag_name(r#""tag_name":""#), Some(String::new()));
    assert_eq!(tag_name(""), None);
}

#[test]
fn tag_matches_split_reading() {
    for body in [r#"a"tag_name":"v1.0.1"b"#, r#""tag_name":"x"tag_name":"y""#, "nothing", r#""tag_name":"#] {
        let expected = body.split("\"tag_name\":\"").nth(1).and_then(|s| s.split('"').next()).map(|s| s.to_owned());
        assert_eq!(tag_name(body), expected, "{body}");
    }
}

#[test]
fn application_update_state() {
    let ok = |b: &str| Ok::<String, FetchError>(b.to_owned());
    assert!(matches!(update_state(ok(r#""tag_name":"v1.0.1""#), "1.0.1"), UpdateState::Current));
    assert!(matches!(update_state(ok(r#""tag_name":"vv1.0.2""#), "1.0.1"), UpdateState::Available(ref v) if v == "v1.0.2"));
    assert!(matches!(update_state(ok(r#""tag_name":"v""#), "1.0.1"), UpdateState::Error(ref e) if e == "Parse error"));
    assert!(matches!(update_state(ok("{}"), "1.0.1"), UpdateState::Error(ref e) if e == "Parse error"));
    assert!(matches!(update_state(Err(FetchError::Http("timeout".into())), "1.0.1"), UpdateState::Error(ref e) if e == "HTTP: timeout"));
    assert!(matches!(update_state(Err(FetchError::Read("eof".into())), "1.0.1"), UpdateState::Error(ref e) if e == "Read: eof"));
}

#[test]
fn yt_dlp_release_decision() {
    let body = Ok::<String, FetchError>(r#""tag_name":"2025.06.30""#.to_owned());
    match release_decision(body, "2025.01.01", false) {
        ReleaseDecision::Fetch(v, u) => {
            assert_eq!(v, "2025.06.30");
            assert_eq!(u, "https://github.com/yt-dlp/yt-dlp/releases/download/2025.06.30/yt-dlp");
        }
        _ => panic!("expected a download"),
    }
    let body = Ok::<String, FetchError>(r#""tag_name":"2025.06.30""#.to_owned());
    match release_decision(body, "2025.01.01", true) {
        ReleaseDecision::Fetch(_, u) => assert!(u.ends_with("/yt-dlp.exe")),
        _ => panic!("expected a download"),
    }
    let body = Ok::<String, FetchError>(r#""tag_name":"2025.06.30""#.to_owned());
    assert!(matches!(release_decision(body, "2025.06.30", false), ReleaseDecision::UpToDate));
    assert!(matches!(release_decision(Ok("{}".to_owned()), "x", false), ReleaseDecision::Failed(ref e) if e == "Parse error"));
    assert!(matches!(release_decision(Err(FetchError::Http("404".into())), "x", false), ReleaseDecision::Failed(ref e) if e == "HTTP: 404"));
}
