use neumusic::selection::{cleanup, find_all_audio, find_newest_audio, DirEntry};

fn entry(name: &str, t: Option<i128>) -> DirEntry {
    DirEntry { name: name.to_owned(), modified: t }
}

#[test]
fn newest_audio_is_the_latest_and_last_of_equals() {
    let es = vec![
        entry("a.mp3", Some(5)),
        entry("notes.txt", Some(100)),
        entry("b.webm", Some(9)),
        entry("c.opus", Some(9)),
        entry("d.flac", None),
    ];
    assert_eq!(find_newest_audio(&es), Some(3));
    assert_eq!(find_newest_audio(&vec![entry("x.txt", Some(1)), entry("mp3", Some(2))]), None);
    assert_eq!(find_newest_audio(&vec![]), None);
    assert_eq!(find_newest_audio(&vec![entry("a.mp3", None), entry("b.mp3", None)]), Some(1));
}

#[test]
fn all_audio_oldest_first_and_stable() {
    let es = vec![
        entry("late.mp3", Some(30)),
        entry("cover.jpg", Some(1)),
        entry("first.ogg", Some(10)),
        entry("unknown.m4a", None),
        entry("tie_a.webm", Some(20)),
        entry("tie_b.wav", Some(20)),
        entry("x.aac", Some(-5)),
    ];
    assert_eq!(find_all_audio(&es), vec![3, 6, 2, 4, 5, 0]);
    assert_eq!(find_all_audio(&vec![]), Vec::<usize>::new());
}

#[test]
fn cleanup_takes_leftovers_of_the_same_stem_only() {
    let names: Vec<String> = [
        "song.mp3",
        "song.webm",
        "song.silence.mp3",
        "song.debloat.mp3",
        "song.part",
        "other.webm",
        "songbook.opus",
        "song.mp3.jpg",
        "song2.m4a",
        "song",
    ]
    .iter()
    .map(|s| s.to_string())
    .collect();
    assert_eq!(cleanup(&names, "song.mp3", "mp3"), vec![1, 2, 3]);
    assert_eq!(cleanup(&names, "other.webm", "mp3"), Vec::<usize>::new());
}
