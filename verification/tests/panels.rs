use doppler::tui::panels::Panes;
use doppler::dlib::doppler_info::DopplerInfo;
use doppler::dlib::lyrics::LyricInfo;
use doppler::dlib::playlist::PlaylistInfo;
use doppler::dlib::song::SongInfo;
use doppler::tui::app::{App, CurrentMenu, Selection, TextInputDestination};
use doppler::tui::panels::{
    entries_total, lyric_panel_lines, lyrics_for_song, now_playing_lines, pause_marker,
    queue_title, songs_title,
};
use doppler::tui::tables::QueueEntry;

fn song(id: u32, name: &str, duration: u32) -> SongInfo {
    SongInfo {
        name: name.to_string(),
        artist: "Artist".to_string(),
        album: "Album".to_string(),
        duration,
        filename: None,
        id: Some(id),
        file_entry_up_to_date: true,
    }
}

fn app() -> App {
    let mut p = PlaylistInfo::new();
    p.name = "Mix".to_string();
    p.id = Some(1);
    p.songs = vec![1, 2];
    App::new(DopplerInfo::new(
        vec![song(1, "one", 61), song(2, "two", 3600)],
        vec![p],
    ))
}

const BASE: &str = "<ctrl-c> quit | ↑/↓ nav | <V/v>ol up/down | [tab] next pane | <ctrl-w> write | <ctrl-u> reload | <p>ause | s<k>ip";

#[test]
fn help_line_follows_the_pane() {
    let mut a = app();
    assert_eq!(
        a.help_line(),
        format!("{BASE} | <shft-q> open queue | < / > search | [space] play | en<q>ueue | <u>pdate")
    );
    a.current_menu = CurrentMenu::Playlists;
    a.queue_open = true;
    assert_eq!(
        a.help_line(),
        format!("{BASE} | <shft-q> close queue | [space] play | <r> shuffle play | <u>pdate")
    );
    a.editing_playlist = true;
    a.current_menu = CurrentMenu::PlaylistEditor;
    assert_eq!(a.help_line(), format!("{BASE} | <r>emove selected"));
    a.current_menu = CurrentMenu::Songs;
    assert_eq!(a.help_line(), format!("{BASE} | [space] append | <i>nsert at selectd idx"));
    a.text_input_queue.push(TextInputDestination::Search);
    assert_eq!(a.help_line(), "");
    assert_eq!(
        a.typing_hint(),
        "(Typing, <Esc> to leave, <Enter> to submit, <Ctrl-c> to clear)"
    );
    a.text_input_queue.clear();
    assert_eq!(a.typing_hint(), " ");
}

#[test]
fn table_titles_and_footers() {
    let mut a = app();
    assert_eq!(songs_title(""), "Songs ");
    assert_eq!(songs_title("ab"), "Songs <search:ab>");
    a.text_inputs.search_query = "x".to_string();
    assert_eq!(a.songs_table_title(), "Songs <search:x>");
    assert_eq!(a.songs_footer(), "");
    a.text_inputs.song_album = "Blue".to_string();
    a.text_input_queue = vec![TextInputDestination::SongAlbum, TextInputDestination::SongArtist];
    assert_eq!(a.songs_footer(), "Song album: Blue");
    assert_eq!(a.playlists_footer(), "");
    a.text_inputs.playlist_name = "New".to_string();
    a.text_input_queue = vec![TextInputDestination::PlaylistNameAdd];
    assert_eq!(a.playlists_footer(), "Playlist name: New");
    assert_eq!(a.songs_footer(), "");
}

#[test]
fn editor_title_marks_unsaved_playlists() {
    let mut a = app();
    let none = Selection { song: None, playlist: None, editor_index: None };
    let one = Selection { song: None, playlist: Some(1), editor_index: None };
    let missing = Selection { song: None, playlist: Some(9), editor_index: None };
    assert_eq!(a.editor_title(none), "No playlist selected");
    assert_eq!(a.editor_title(missing), "No playlist selected");
    assert_eq!(a.editor_title(one), "Editing Mix");
    a.dinfo.playlists[0].file_entry_up_to_date = false;
    assert_eq!(a.editor_title(one), "Editing *Mix");
}

#[test]
fn queue_title_counts_and_sums() {
    let mut a = app();
    assert_eq!(a.queue_pane_title(), Some("(0, 0:00) Queue".to_string()));
    a.dinfo.enqueue_song(1).unwrap();
    a.dinfo.enqueue_song(2).unwrap();
    assert_eq!(a.queue_pane_title(), Some("(2, 1:01:01) Queue".to_string()));
    assert_eq!(queue_title(3, 59), "(3, 0:59) Queue");
    let big = vec![
        QueueEntry { position: 1, song_id: 1, song_name: "a".to_string(), duration: u32::MAX },
        QueueEntry { position: 2, song_id: 2, song_name: "b".to_string(), duration: 1 },
    ];
    assert_eq!(entries_total(&big), None);
    let one = vec![QueueEntry { position: 1, song_id: 1, song_name: "a".to_string(), duration: u32::MAX }];
    assert_eq!(entries_total(&one), Some(u32::MAX));
}

#[test]
fn now_playing_shows_the_song_or_nothing() {
    let mut a = app();
    assert!(a.playing().is_none());
    assert_eq!(
        now_playing_lines(&a.playing(), 20, 0),
        vec!["Nothing", "on Nothing", "Nobody", "0:00/0:00"]
    );
    a.dinfo.currently_playing = Some(2);
    let lines = now_playing_lines(&a.playing(), 7, 75);
    assert_eq!(lines, vec!["two", "on A...", "Artist", "1:15/1:60:00"]);
    assert_eq!(pause_marker(true), "|> ");
    assert_eq!(pause_marker(false), "|| ");
}

#[test]
fn lyrics_pane_lines() {
    let mut synced = LyricInfo::new_synced();
    synced.song_id = Some(2);
    synced.timings = Some(vec![30, 20, 10, 0]);
    synced.lyrics = vec!["d".to_string(), "c".to_string(), "b".to_string(), "a".to_string()];
    let mut plain = LyricInfo::new();
    plain.song_id = Some(1);
    plain.lyrics = vec!["x".to_string(), "y".to_string()];
    let all = vec![plain, synced];
    assert!(lyrics_for_song(&all, 3).is_none());
    let l = lyrics_for_song(&all, 2).unwrap();
    assert_eq!(l.song_id, Some(2));
    assert_eq!(lyric_panel_lines(Some(l), 16, 2), (vec!["c".to_string(), "b".to_string()], true));
    assert_eq!(
        lyric_panel_lines(lyrics_for_song(&all, 1), 16, 2),
        (vec!["x".to_string(), "y".to_string()], false)
    );
    assert_eq!(
        lyric_panel_lines(None, 0, 3),
        (vec!["No lyrics associated".to_string()], false)
    );
    let mut late = LyricInfo::new_synced();
    late.timings = Some(vec![50]);
    late.lyrics = vec!["z".to_string()];
    assert_eq!(
        lyric_panel_lines(Some(&late), 10, 3),
        (vec!["Failed to get lyrics".to_string()], true)
    );
}

#[test]
fn panes_follow_the_flags() {
    let mut a = app();
    assert_eq!(a.panes(), Panes { queue: false, playlist_editor: false, lyrics: false, log: false });
    a.editing_playlist = true;
    a.lyrics_open = true;
    assert_eq!(a.panes(), Panes { queue: false, playlist_editor: true, lyrics: true, log: false });
    a.queue_open = true;
    a.emit_message("hi".to_string());
    assert_eq!(a.panes(), Panes { queue: true, playlist_editor: false, lyrics: true, log: true });
}
