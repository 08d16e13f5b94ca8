use doppler::dlib::lyrics::LyricInfo;

fn synced(timings: &[u32], lines: &[&str]) -> LyricInfo {
    let mut l = LyricInfo::new_synced();
    l.timings = Some(timings.to_vec());
    l.lyrics = lines.iter().map(|s| s.to_string()).collect();
    l
}

#[test]
fn lyrics_new_and_new_synced() {
    let l = LyricInfo::new();
    assert!(!l.is_synced);
    assert!(l.timings.is_none());
    assert!(l.lyrics.is_empty());
    assert_eq!(l.song_id, None);
    let s = LyricInfo::new_synced();
    assert!(s.is_synced);
    assert_eq!(s.timings, Some(vec![]));
    assert!(s.lyrics.is_empty());
}

#[test]
fn unsynced_lyrics_have_no_current_line() {
    let mut l = LyricInfo::new();
    l.lyrics = vec!["a".to_string()];
    assert_eq!(l.get_lyric_at_time(10), None);
    assert_eq!(l.get_lyrics_around_time(10, 1, 3), None);
}

#[test]
fn lyric_at_time_takes_first_timing_not_later_than_a_second_before() {
    let l = synced(&[15, 10, 5], &["c", "b", "a"]);
    assert_eq!(l.get_lyric_at_time(12), Some("b".to_string()));
    assert_eq!(l.get_lyric_at_time(11), Some("b".to_string()));
    assert_eq!(l.get_lyric_at_time(10), Some("a".to_string()));
    assert_eq!(l.get_lyric_at_time(5), None);
    assert_eq!(l.get_lyric_at_time(0), None);
    assert_eq!(l.get_lyric_at_time(100), Some("c".to_string()));
}

#[test]
fn lyric_at_time_with_missing_line() {
    let l = synced(&[9, 0], &["x"]);
    assert_eq!(l.get_lyric_at_time(3), None);
    assert_eq!(l.get_lyric_at_time(0), None);
    let l2 = synced(&[0, 9], &["x", "y"]);
    assert_eq!(l2.get_lyric_at_time(0), Some("x".to_string()));
}

#[test]
fn lyrics_around_time_window() {
    let l = synced(&[30, 20, 10, 0], &["a", "b", "c", "d"]);
    assert_eq!(l.get_lyrics_around_time(21, 1, 3), Some(vec!["a".to_string(), "b".to_string(), "c".to_string()]));
    assert_eq!(l.get_lyrics_around_time(21, 0, 10), Some(vec!["b".to_string(), "c".to_string(), "d".to_string()]));
    assert_eq!(l.get_lyrics_around_time(21, 5, 2), Some(vec!["a".to_string(), "b".to_string()]));
    assert_eq!(l.get_lyrics_around_time(21, 1, 0), Some(vec![]));
    let none = synced(&[30], &["a"]);
    assert_eq!(none.get_lyrics_around_time(3, 1, 3), None);
    let short = synced(&[0, 0, 0], &["a"]);
    assert_eq!(short.get_lyrics_around_time(5, 0, 3), Some(vec!["a".to_string()]));
}

#[test]
fn current_line_heads_the_window() {
    let l = synced(&[30, 20, 10, 0], &["a", "b", "c", "d"]);
    for t in [0u32, 5, 11, 21, 40] {
        let line = l.get_lyric_at_time(t);
        let window = l.get_lyrics_around_time(t, 0, 1);
        assert_eq!(line.map(|s| vec![s]), window);
    }
}
