use audio_spectrum::media::{ends_with, is_song_file, limit_text};

#[test]
fn song_extensions_are_recognised() {
    for name in ["a.mp3", "b.wav", "c.ogg", "d.flac", "e.aac", ".mp3", "dir/x y.flac"] {
        assert!(is_song_file(name), "{}", name);
    }
}

#[test]
fn other_names_are_not_songs() {
    for name in ["", "mp3", "a.mp4", "a.MP3", "a.mp3.txt", "flac", "a.wa"] {
        assert!(!is_song_file(name), "{}", name);
    }
}

#[test]
fn ends_with_compares_characters() {
    assert!(ends_with("héllo", "llo"));
    assert!(ends_with("abc", ""));
    assert!(!ends_with("bc", "abc"));
    assert!(!ends_with("abd", "bc"));
}

#[test]
fn short_text_is_kept() {
    let mut d = String::from("old");
    limit_text(&mut d, "hello", 5);
    assert_eq!(d, "hello");
    limit_text(&mut d, "", 0);
    assert_eq!(d, "");
}

#[test]
fn long_text_is_cut_with_dots() {
    let mut d = String::new();
    limit_text(&mut d, "abcdefghij", 6);
    assert_eq!(d, "abc...");
    limit_text(&mut d, "abcd", 3);
    assert_eq!(d, "...");
}

#[test]
fn multi_byte_text_is_cut_by_bytes() {
    let mut d = String::new();
    limit_text(&mut d, "ééé", 5);
    assert_eq!(d, "é...");
    limit_text(&mut d, "ééé", 3);
    assert_eq!(d, "...");
    limit_text(&mut d, "ééé", 6);
    assert_eq!(d, "ééé");
    limit_text(&mut d, "aéé", 5);
    assert_eq!(d, "aéé");
    limit_text(&mut d, "aéé", 4);
    assert_eq!(d, "a...");
}
