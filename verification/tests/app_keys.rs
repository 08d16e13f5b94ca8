use doppler::dlib::doppler_info::DopplerInfo;
use doppler::dlib::playlist::PlaylistInfo;
use doppler::dlib::song::SongInfo;
use doppler::tui::app::{App, CurrentMenu, Key, KeyAction, KeyInput, Selection, TextInputDestination};

fn song(id: u32, name: &str) -> SongInfo {
    SongInfo {
        name: name.to_string(),
        artist: "Ar".to_string(),
        album: "Al".to_string(),
        duration: 42,
        filename: None,
        id: Some(id),
        file_entry_up_to_date: true,
    }
}

fn app() -> App {
    let mut p = PlaylistInfo::new();
    p.name = "List".to_string();
    p.id = Some(1);
    p.songs = vec![1];
    App::new(DopplerInfo::new(vec![song(1, "one"), song(2, "two")], vec![p]))
}

fn press(code: Key) -> KeyInput {
    KeyInput { code, ctrl: false, no_modifiers: true, is_press: true }
}

fn ctrl(c: char) -> KeyInput {
    KeyInput { code: Key::Char(c), ctrl: true, no_modifiers: false, is_press: true }
}

/// Puts rows in the song and playlist tables and selects them so that the
/// tables' selection is `s`, then hands the key to the app.
fn hk(a: &mut App, k: KeyInput, s: Selection) -> KeyAction {
    a.songs_table.rows = match s.song {
        Some(id) => vec![(id, vec![])],
        None => vec![],
    };
    a.songs_table.selected = Some(0);
    a.playlists_table.rows = match s.playlist {
        Some(id) => vec![(id, vec![])],
        None => vec![],
    };
    a.playlists_table.selected = Some(0);
    a.editor_table.selected = s.editor_index;
    a.handle_key(k)
}

fn none() -> Selection {
    Selection { song: None, playlist: None, editor_index: None }
}

fn sel(song: Option<u32>, playlist: Option<u32>, editor_index: Option<usize>) -> Selection {
    Selection { song, playlist, editor_index }
}

#[test]
fn tab_cycles_panes() {
    let mut a = app();
    assert_eq!(a.current_menu, CurrentMenu::Songs);
    hk(&mut a, press(Key::Tab), none());
    assert_eq!(a.current_menu, CurrentMenu::Playlists);
    hk(&mut a, press(Key::Tab), none());
    assert_eq!(a.current_menu, CurrentMenu::Songs);
    hk(&mut a, press(Key::Char('Q')), none());
    assert!(a.queue_open);
    hk(&mut a, press(Key::Tab), none());
    assert_eq!(a.current_menu, CurrentMenu::Queue);
    hk(&mut a, press(Key::Char('Q')), none());
    assert!(!a.queue_open);
    assert_eq!(a.current_menu, CurrentMenu::Songs);
}

#[test]
fn released_keys_do_nothing() {
    let mut a = app();
    let mut k = press(Key::Tab);
    k.is_press = false;
    assert_eq!(hk(&mut a, k, none()), KeyAction::Nothing);
    assert_eq!(a.current_menu, CurrentMenu::Songs);
}

#[test]
fn song_pane_actions() {
    let mut a = app();
    assert_eq!(hk(&mut a, press(Key::Char(' ')), sel(Some(2), None, None)), KeyAction::PlaySong(2));
    assert_eq!(hk(&mut a, press(Key::Char(' ')), none()), KeyAction::Nothing);
    assert_eq!(hk(&mut a, press(Key::Char('q')), sel(Some(1), None, None)), KeyAction::EnqueueSong(1));
    assert_eq!(hk(&mut a, press(Key::Char('k')), none()), KeyAction::SkipSong);
    assert_eq!(hk(&mut a, press(Key::Char('p')), none()), KeyAction::TogglePause);
    assert_eq!(hk(&mut a, press(Key::Char('V')), none()), KeyAction::VolumeUp);
    assert_eq!(hk(&mut a, press(Key::Char('v')), none()), KeyAction::VolumeDown);
    assert_eq!(hk(&mut a, press(Key::Up), none()), KeyAction::Nothing);
    assert_eq!(a.songs_table.selected, Some(0));
    assert_eq!(a.handle_key(press(Key::Down)), KeyAction::Nothing);
    assert_eq!(a.songs_table.selected, Some(1));
    assert_eq!(hk(&mut a, ctrl('w'), none()), KeyAction::WriteFiles);
    a.need_rebuild = false;
    assert_eq!(hk(&mut a, ctrl('u'), none()), KeyAction::ReloadFiles);
    assert!(a.need_rebuild);
    assert_eq!(hk(&mut a, ctrl('c'), none()), KeyAction::Nothing);
    assert!(a.should_exit);
}

#[test]
fn search_typing() {
    let mut a = app();
    hk(&mut a, press(Key::Char('/')), none());
    assert_eq!(a.text_input_queue, vec![TextInputDestination::Search]);
    a.need_rebuild = false;
    a.songs_table.selected = Some(3);
    assert_eq!(a.handle_key(press(Key::Char('t'))), KeyAction::Nothing);
    assert_eq!(a.songs_table.selected, Some(0));
    assert_eq!(hk(&mut a, press(Key::Char('w')), none()), KeyAction::Nothing);
    assert_eq!(a.text_inputs.search_query, "tw");
    assert!(a.need_rebuild);
    hk(&mut a, press(Key::Backspace), none());
    assert_eq!(a.text_inputs.search_query, "t");
    hk(&mut a, ctrl('c'), none());
    assert_eq!(a.text_inputs.search_query, "");
    assert!(!a.should_exit);
    hk(&mut a, press(Key::Enter), none());
    assert!(a.text_input_queue.is_empty());
    a.text_inputs.search_query = "x".to_string();
    hk(&mut a, press(Key::Esc), none());
    assert_eq!(a.text_inputs.search_query, "");
}

#[test]
fn edit_song_through_keys() {
    let mut a = app();
    hk(&mut a, press(Key::Char('u')), sel(Some(2), None, None));
    assert_eq!(a.text_inputs.song_name, "two");
    assert_eq!(a.text_inputs.song_duration.0, "42");
    assert_eq!(a.text_input_queue.len(), 4);
    hk(&mut a, press(Key::Char('!')), sel(Some(2), None, None));
    hk(&mut a, press(Key::Enter), sel(Some(2), None, None));
    hk(&mut a, press(Key::Enter), sel(Some(2), None, None));
    hk(&mut a, press(Key::Enter), sel(Some(2), None, None));
    hk(&mut a, press(Key::Char('0')), sel(Some(2), None, None));
    hk(&mut a, press(Key::Enter), sel(Some(2), None, None));
    assert!(a.text_input_queue.is_empty());
    let s = a.dinfo.get_song_by_id(2).unwrap();
    assert_eq!(s.name, "two!");
    assert_eq!(s.duration, 420);
    assert_eq!(a.messages.last().unwrap().0, "Successfully updated song");
    assert_eq!(a.messages.last().unwrap().1, 100);
}

#[test]
fn bad_duration_keeps_field_open() {
    let mut a = app();
    hk(&mut a, press(Key::Char('u')), sel(Some(1), None, None));
    for _ in 0..3 {
        hk(&mut a, press(Key::Enter), sel(Some(1), None, None));
    }
    hk(&mut a, press(Key::Char('x')), sel(Some(1), None, None));
    hk(&mut a, press(Key::Enter), sel(Some(1), None, None));
    assert_eq!(a.text_input_queue, vec![TextInputDestination::SongDuration]);
    assert_eq!(a.messages.last().unwrap().0, "Err handling input (invalid digit found in string)");
    hk(&mut a, press(Key::Esc), none());
    assert!(a.text_input_queue.is_empty());
}

#[test]
fn edit_song_without_selection_logs() {
    let mut a = app();
    hk(&mut a, press(Key::Char('u')), none());
    assert_eq!(a.messages.last().unwrap().0, "Failed to edit song");
    assert!(a.text_input_queue.is_empty());
}

#[test]
fn playlist_pane_add_and_rename() {
    let mut a = app();
    hk(&mut a, press(Key::Tab), none());
    assert_eq!(hk(&mut a, press(Key::Char(' ')), sel(None, Some(1), None)), KeyAction::PlayPlaylist(1));
    assert_eq!(hk(&mut a, press(Key::Char('r')), sel(None, Some(1), None)), KeyAction::ShufflePlayPlaylist(1));
    hk(&mut a, press(Key::Char('a')), none());
    hk(&mut a, press(Key::Enter), none());
    let msgs: Vec<String> = a.messages.iter().map(|m| m.0.clone()).collect();
    assert_eq!(msgs, vec!["Can't add playlist with no name".to_string(), "Added playlist".to_string()]);
    assert_eq!(a.dinfo.get_playlist_by_id(2).map(|p| p.name.clone()), Some(String::new()));
    hk(&mut a, press(Key::Char('u')), sel(None, Some(2), None));
    hk(&mut a, press(Key::Char('N')), sel(None, Some(2), None));
    hk(&mut a, press(Key::Enter), sel(None, Some(2), None));
    assert_eq!(a.dinfo.get_playlist_by_id(2).map(|p| p.name.clone()), Some("N".to_string()));
}

#[test]
fn playlist_editor_keys() {
    let mut a = app();
    assert_eq!(hk(&mut a, press(Key::Char('f')), sel(None, Some(1), Some(4))), KeyAction::Nothing);
    assert!(a.editing_playlist);
    assert_eq!(a.editor_table.selected, Some(0));
    let editor_ids: Vec<u32> = a.editor_table.rows.iter().map(|r| r.0).collect();
    assert_eq!(editor_ids, vec![1]);
    hk(&mut a, press(Key::Char(' ')), sel(Some(2), Some(1), None));
    assert_eq!(a.dinfo.get_playlist_by_id(1).unwrap().songs, vec![1, 2]);
    hk(&mut a, press(Key::Char('i')), sel(Some(2), Some(1), Some(0)));
    assert_eq!(a.dinfo.get_playlist_by_id(1).unwrap().songs, vec![2, 1, 2]);
    hk(&mut a, press(Key::Tab), none());
    assert_eq!(a.current_menu, CurrentMenu::PlaylistEditor);
    hk(&mut a, press(Key::Char('r')), sel(None, Some(1), Some(1)));
    assert_eq!(a.dinfo.get_playlist_by_id(1).unwrap().songs, vec![2, 2]);
    assert_eq!(hk(&mut a, press(Key::Char('f')), none()), KeyAction::Nothing);
    assert!(!a.editing_playlist);
    assert_eq!(a.current_menu, CurrentMenu::Songs);
}

#[test]
fn messages_age_out() {
    let mut a = app();
    a.emit_message("hi".to_string());
    for _ in 0..99 {
        a.age_messages();
    }
    assert_eq!(a.messages.len(), 1);
    assert_eq!(a.messages[0].1, 1);
    a.age_messages();
    assert!(a.messages.is_empty());
}

#[test]
fn enter_on_a_new_playlist_name_adds_a_playlist() {
    let mut a = app();
    let enter = press(Key::Enter);
    assert!(!a.key_adds_playlist(enter));
    a.text_input_queue.push(TextInputDestination::PlaylistNameAdd);
    assert!(a.key_adds_playlist(enter));
    assert!(!a.key_adds_playlist(press(Key::Esc)));
    let released = KeyInput { code: Key::Enter, ctrl: false, no_modifiers: true, is_press: false };
    assert!(!a.key_adds_playlist(released));
}

#[test]
fn a_message_lives_a_hundred_frames() {
    let mut a = app();
    a.emit_message("first".to_string());
    for _ in 0..50 {
        a.age_messages();
    }
    a.emit_message("second".to_string());
    for _ in 0..49 {
        a.age_messages();
    }
    assert_eq!(a.messages, vec![("first".to_string(), 1), ("second".to_string(), 51)]);
    a.age_messages();
    assert_eq!(a.messages, vec![("second".to_string(), 50)]);
    for _ in 0..49 {
        a.age_messages();
    }
    assert_eq!(a.messages, vec![("second".to_string(), 1)]);
    a.age_messages();
    assert!(a.messages.is_empty());
}

#[test]
fn tables_start_on_their_first_row() {
    let a = app();
    for t in [&a.songs_table, &a.playlists_table, &a.editor_table, &a.queue_table] {
        assert!(t.rows.is_empty());
        assert_eq!(t.selected, Some(0));
    }
}

#[test]
fn arrows_move_the_focused_table() {
    let mut a = app();
    a.handle_key(press(Key::Tab));
    assert_eq!(a.current_menu, CurrentMenu::Playlists);
    a.handle_key(press(Key::Down));
    a.handle_key(press(Key::Down));
    assert_eq!(a.playlists_table.selected, Some(2));
    assert_eq!(a.songs_table.selected, Some(0));
    a.handle_key(press(Key::Up));
    assert_eq!(a.playlists_table.selected, Some(1));
    a.playlists_table.selected = None;
    a.handle_key(press(Key::Up));
    assert_eq!(a.playlists_table.selected, Some(usize::MAX));
    a.handle_key(press(Key::Down));
    assert_eq!(a.playlists_table.selected, Some(usize::MAX));
    a.playlists_table.selected = None;
    a.handle_key(press(Key::Down));
    assert_eq!(a.playlists_table.selected, Some(0));
}

#[test]
fn selection_comes_from_the_tables() {
    let mut a = app();
    let songs = a.dinfo.songs.clone();
    a.songs_table.rebuild(&songs);
    a.songs_table.selected = Some(1);
    a.playlists_table.rebuild(&a.dinfo.playlists.iter().map(|p| p.clone()).collect::<Vec<_>>());
    a.editor_table.selected = Some(3);
    let s = a.selection();
    assert_eq!((s.song, s.playlist, s.editor_index), (Some(2), Some(1), Some(3)));
    assert_eq!(a.handle_key(press(Key::Char(' '))), KeyAction::PlaySong(2));
    a.songs_table.selected = Some(9);
    assert_eq!(a.selection().song, None);
}
