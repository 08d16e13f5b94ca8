use doppler::dlib::playlist::PlaylistInfo;
use doppler::dlib::song::SongInfo;
use doppler::tui::tables::{IntoTableRow, QueueEntry, TableData};

fn song(id: Option<u32>, name: &str, duration: u32) -> SongInfo {
    SongInfo {
        name: name.to_string(),
        artist: "Artist".to_string(),
        album: "Album".to_string(),
        duration,
        filename: None,
        id,
        file_entry_up_to_date: true,
    }
}

#[test]
fn song_row_cells() {
    let s = song(Some(3), "Song", 125);
    assert_eq!(s.row_id(), Some(3));
    assert_eq!(s.into_row(), vec!["2:05", "Song", "Album", "Artist"]);
    let long = song(Some(4), &"x".repeat(60), 3700);
    let cells = long.into_row();
    assert_eq!(cells[0], "1:01:40");
    assert_eq!(cells[1], format!("{}...", "x".repeat(47)));
}

#[test]
fn playlist_and_queue_row_cells() {
    let mut p = PlaylistInfo::new();
    p.name = "Road".to_string();
    p.songs = vec![1, 2, 3];
    assert_eq!(p.row_id(), None);
    assert_eq!(p.into_row(), vec!["Road", "3 Songs"]);
    let e = QueueEntry { position: 12, song_id: 7, song_name: "Tune".to_string(), duration: 61 };
    assert_eq!(e.row_id(), Some(7));
    assert_eq!(e.into_row(), vec!["12.", "1:01", "Tune"]);
}

#[test]
fn table_rebuild_skips_rows_without_id() {
    let mut t = TableData::new();
    assert!(t.rows.is_empty());
    t.rebuild(&[song(Some(1), "a", 1), song(None, "b", 1), song(Some(5), "c", 1)]);
    let ids: Vec<u32> = t.rows.iter().map(|(id, _)| *id).collect();
    assert_eq!(ids, vec![1, 5]);
    assert_eq!(t.rows[1].1[1], "c");
    t.selected = Some(1);
    assert_eq!(t.selected_id(), Some(5));
    t.selected = Some(2);
    assert_eq!(t.selected_id(), None);
    assert_eq!(t.selected_index(), Some(2));
    t.selected = None;
    assert_eq!(t.selected_id(), None);
    t.select_first();
    assert_eq!(t.selected, Some(0));
    t.select_previous();
    assert_eq!(t.selected, Some(0));
    t.select_next();
    assert_eq!(t.selected, Some(1));
}
