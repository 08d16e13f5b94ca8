//! The decisions of the terminal interface: what each key does to the
//! interface's state and the library, and what the caller must carry out
//! (playing audio, writing files, moving a table's selection).
use vstd::prelude::*;
use crate::dlib::doppler_info::{
    DopplerInfo, DopplerView, song_by_id, playlist_by_id, playlist_index, playlist_replaced,
    update_song_outcome, update_playlist_outcome, add_playlist_outcome, id_or_zero,
};
use crate::dlib::playlist::{PlaylistInfo, PlaylistView};
use crate::dlib::song::SongInfo;
use crate::dlib::doppler_info::{found_songs, first_with, is_first_with};
use crate::tui::tables::{TableData, TableDataView, selected_row_id, next_row, previous_row, rows_of};
use crate::error::message_text;
use crate::text::{string_from, decimal, push_decimal, parse_decimal, parse_unsigned, parse_error_text};

verus! {

/// The pane that has the focus.
#[derive(Debug, Clone, Copy, PartialEq, Eq, Structural)]
pub enum CurrentMenu {
    Songs,
    Playlists,
    PlaylistEditor,
    Queue,
}

/// The text field that typed characters go to.
#[derive(Debug, Clone, Copy, PartialEq, Eq, Structural)]
pub enum TextInputDestination {
    Search,
    SongName,
    SongAlbum,
    SongArtist,
    SongDuration,
    PlaylistNameUpdate,
    PlaylistNameAdd,
}

/// The texts being typed, and the duration read from its field.
#[derive(Debug)]
pub struct AppTextInputs {
    pub search_query: String,
    pub song_name: String,
    pub song_album: String,
    pub song_artist: String,
    pub song_duration: (String, Option<u32>),
    pub playlist_name: String,
}

/// A key of the keyboard, as far as the interface tells keys apart.
#[derive(Debug, Clone, Copy, PartialEq, Eq, Structural)]
pub enum Key {
    Char(char),
    Esc,
    Enter,
    Backspace,
    Tab,
    Up,
    Down,
    Other,
}

/// A key event: the key, whether Control was held, whether no modifier was
/// held at all, and whether the key went down (rather than up or repeating).
#[derive(Debug, Clone, Copy)]
pub struct KeyInput {
    pub code: Key,
    pub ctrl: bool,
    pub no_modifiers: bool,
    pub is_press: bool,
}

/// What the tables have selected: the song and playlist ids, and the
/// position in the playlist editor.
#[derive(Debug, Clone, Copy)]
pub struct Selection {
    pub song: Option<u32>,
    pub playlist: Option<u32>,
    pub editor_index: Option<usize>,
}

/// What the caller must carry out after a key.
#[derive(Debug, Clone, Copy, PartialEq, Eq, Structural)]
pub enum KeyAction {
    Nothing,
    PlaySong(u32),
    EnqueueSong(u32),
    PlayPlaylist(u32),
    ShufflePlayPlaylist(u32),
    WriteFiles,
    ReloadFiles,
    VolumeUp,
    VolumeDown,
    SkipSong,
    TogglePause,
}

/// The state of the interface, with the library it shows.
#[derive(Debug)]
pub struct App {
    pub dinfo: DopplerInfo,
    pub should_exit: bool,
    pub queue_open: bool,
    pub lyrics_open: bool,
    pub editing_playlist: bool,
    pub current_menu: CurrentMenu,
    pub text_input_queue: Vec<TextInputDestination>,
    pub text_inputs: AppTextInputs,
    /// Messages shown in the log, each with the number of frames it has left.
    pub messages: Vec<(String, u32)>,
    /// Whether the song and playlist tables must be built again.
    pub need_rebuild: bool,
    pub songs_table: TableData,
    pub playlists_table: TableData,
    pub editor_table: TableData,
    pub queue_table: TableData,
}

/// The typed texts as plain values.
pub struct InputsView {
    pub search_query: Seq<char>,
    pub song_name: Seq<char>,
    pub song_album: Seq<char>,
    pub song_artist: Seq<char>,
    pub duration_text: Seq<char>,
    pub duration: Option<u32>,
    pub playlist_name: Seq<char>,
}

/// The interface's state as plain values.
pub struct AppView {
    pub dinfo: DopplerView,
    pub should_exit: bool,
    pub queue_open: bool,
    pub lyrics_open: bool,
    pub editing_playlist: bool,
    pub current_menu: CurrentMenu,
    pub text_input_queue: Seq<TextInputDestination>,
    pub inputs: InputsView,
    pub messages: Seq<(Seq<char>, u32)>,
    pub need_rebuild: bool,
    pub songs_table: TableDataView,
    pub playlists_table: TableDataView,
    pub editor_table: TableDataView,
    pub queue_table: TableDataView,
}

impl View for App {
    type V = AppView;

    open spec fn view(&self) -> AppView {
        AppView {
            dinfo: self.dinfo@,
            should_exit: self.should_exit,
            queue_open: self.queue_open,
            lyrics_open: self.lyrics_open,
            editing_playlist: self.editing_playlist,
            current_menu: self.current_menu,
            text_input_queue: self.text_input_queue@,
            inputs: InputsView {
                search_query: self.text_inputs.search_query@,
                song_name: self.text_inputs.song_name@,
                song_album: self.text_inputs.song_album@,
                song_artist: self.text_inputs.song_artist@,
                duration_text: self.text_inputs.song_duration.0@,
                duration: self.text_inputs.song_duration.1,
                playlist_name: self.text_inputs.playlist_name@,
            },
            messages: self.messages@.map_values(|m: (String, u32)| (m.0@, m.1)),
            need_rebuild: self.need_rebuild,
            songs_table: self.songs_table@,
            playlists_table: self.playlists_table@,
            editor_table: self.editor_table@,
            queue_table: self.queue_table@,
        }
    }
}

/// The number of frames a new message stays in the log.
pub const MESSAGE_LIFE: u32 = 100;

/// `a` with the message `text` added to the log.
pub open spec fn with_message(a: AppView, text: Seq<char>) -> AppView {
    AppView { messages: a.messages.push((text, MESSAGE_LIFE)), ..a }
}

/// The text of the field that `dest` names.
pub open spec fn field_of(i: InputsView, dest: TextInputDestination) -> Seq<char> {
    match dest {
        TextInputDestination::Search => i.search_query,
        TextInputDestination::SongName => i.song_name,
        TextInputDestination::SongAlbum => i.song_album,
        TextInputDestination::SongArtist => i.song_artist,
        TextInputDestination::SongDuration => i.duration_text,
        TextInputDestination::PlaylistNameUpdate => i.playlist_name,
        TextInputDestination::PlaylistNameAdd => i.playlist_name,
    }
}

/// `i` with the field that `dest` names set to `t`.
pub open spec fn with_field(i: InputsView, dest: TextInputDestination, t: Seq<char>) -> InputsView {
    match dest {
        TextInputDestination::Search => InputsView { search_query: t, ..i },
        TextInputDestination::SongName => InputsView { song_name: t, ..i },
        TextInputDestination::SongAlbum => InputsView { song_album: t, ..i },
        TextInputDestination::SongArtist => InputsView { song_artist: t, ..i },
        TextInputDestination::SongDuration => InputsView { duration_text: t, ..i },
        TextInputDestination::PlaylistNameUpdate => InputsView { playlist_name: t, ..i },
        TextInputDestination::PlaylistNameAdd => InputsView { playlist_name: t, ..i },
    }
}

/// The message for the outcome of an update, as `"Update failed (<reason>)"`
/// on failure.
pub open spec fn update_message(r: Result<(), crate::error::DopplerError>, success: Seq<char>) -> Seq<char> {
    match r {
        Ok(_) => success,
        Err(e) => "Update failed ("@ + message_text(e) + ")"@,
    }
}

/// After `start_edit_song`: the selected song's fields fill the text inputs
/// and the four song fields are queued for typing; without a song, a message.
pub open spec fn start_edit_song_spec(a: AppView, sel: Selection) -> AppView {
    match sel.song {
        Some(id) => match song_by_id(a.dinfo, id) {
            Some(s) => AppView {
                inputs: InputsView {
                    song_name: s.name@,
                    song_album: s.album@,
                    song_artist: s.artist@,
                    duration_text: decimal(s.duration as nat),
                    ..a.inputs
                },
                text_input_queue: seq![
                    TextInputDestination::SongName,
                    TextInputDestination::SongAlbum,
                    TextInputDestination::SongArtist,
                    TextInputDestination::SongDuration,
                ],
                ..a
            },
            None => with_message(a, "Failed to edit song"@),
        },
        None => with_message(a, "Failed to edit song"@),
    }
}

/// After `start_edit_playlist`: the selected playlist's name fills its input
/// and is queued for typing; without a playlist, a message.
pub open spec fn start_edit_playlist_spec(a: AppView, sel: Selection) -> AppView {
    match sel.playlist {
        Some(id) => match playlist_by_id(a.dinfo, id) {
            Some(p) => AppView {
                inputs: InputsView { playlist_name: p.name@, ..a.inputs },
                text_input_queue: seq![TextInputDestination::PlaylistNameUpdate],
                ..a
            },
            None => with_message(a, "Failed to edit playlist"@),
        },
        None => with_message(a, "Failed to edit playlist"@),
    }
}

/// After `start_add_playlist`: an empty name is queued for typing.
pub open spec fn start_add_playlist_spec(a: AppView) -> AppView {
    AppView {
        inputs: InputsView { playlist_name: Seq::empty(), ..a.inputs },
        text_input_queue: seq![TextInputDestination::PlaylistNameAdd],
        ..a
    }
}

/// `finish_edit_song` took `a` to `b`: the selected song is updated with the
/// typed name, album, artist and duration (keeping its file and id), and the
/// outcome goes to the log.
pub open spec fn finish_edit_song_rel(a: AppView, sel: Selection, b: AppView) -> bool {
    match sel.song {
        Some(id) => match song_by_id(a.dinfo, id) {
            Some(song) => match a.inputs.duration {
                None => b == with_message(a, "Update failed (bad duration)"@),
                Some(d) => exists|ns: SongInfo|
                    #![trigger update_song_outcome(a.dinfo, ns)]
                    {
                        &&& ns.name@ == a.inputs.song_name
                        &&& ns.artist@ == a.inputs.song_artist
                        &&& ns.album@ == a.inputs.song_album
                        &&& ns.duration == d
                        &&& ns.filename == song.filename
                        &&& ns.id == song.id
                        &&& !ns.file_entry_up_to_date
                        &&& b == AppView {
                            dinfo: update_song_outcome(a.dinfo, ns).0,
                            messages: a.messages.push(
                                (update_message(update_song_outcome(a.dinfo, ns).1, "Successfully updated song"@), MESSAGE_LIFE),
                            ),
                            need_rebuild: true,
                            ..a
                        }
                    },
            },
            None => b == a,
        },
        None => b == a,
    }
}

/// `finish_edit_playlist` took `a` to `b`: the selected playlist gets the
/// typed name, and the outcome goes to the log.
pub open spec fn finish_edit_playlist_rel(a: AppView, sel: Selection, b: AppView) -> bool {
    match sel.playlist {
        Some(id) => match playlist_by_id(a.dinfo, id) {
            Some(p) => exists|np: PlaylistInfo|
                #![trigger update_playlist_outcome(a.dinfo, np)]
                {
                    &&& np@ == (PlaylistView { name: a.inputs.playlist_name, ..p@ })
                    &&& b == AppView {
                        dinfo: update_playlist_outcome(a.dinfo, np).0,
                        messages: a.messages.push(
                            (update_message(update_playlist_outcome(a.dinfo, np).1, "Successfully updated playlist"@), MESSAGE_LIFE),
                        ),
                        need_rebuild: true,
                        ..a
                    }
                },
            None => b == a,
        },
        None => b == a,
    }
}

/// `finish_add_playlist` took `a` to `b`: a playlist with the typed name and
/// no songs is added (an empty name draws a warning first), and the outcome
/// goes to the log.
pub open spec fn finish_add_playlist_rel(a: AppView, b: AppView) -> bool {
    let a1 = if a.inputs.playlist_name.len() == 0 {
        with_message(a, "Can't add playlist with no name"@)
    } else {
        a
    };
    exists|np: PlaylistInfo|
        #![trigger add_playlist_outcome(a.dinfo, np)]
        {
            &&& np@ == (PlaylistView {
                name: a.inputs.playlist_name,
                songs: Seq::empty(),
                id: None,
                file_entry_up_to_date: false,
            })
            &&& b == AppView {
                dinfo: add_playlist_outcome(a.dinfo, np).0,
                messages: a1.messages.push(
                    (match add_playlist_outcome(a.dinfo, np).1 {
                        Ok(_) => "Added playlist"@,
                        Err(e) => "Failed to add playlist ("@ + message_text(e) + ")"@,
                    }, MESSAGE_LIFE),
                ),
                need_rebuild: true,
                ..a1
            }
        }
}

/// `add_playlist_song` took `a` to `b`: the selected song is appended to the
/// selected playlist.
pub open spec fn add_playlist_song_rel(a: AppView, sel: Selection, b: AppView) -> bool {
    if sel.playlist is Some && playlist_index(a.dinfo, sel.playlist->0) is Some && sel.song is Some {
        let idx = playlist_index(a.dinfo, sel.playlist->0)->0;
        let p = a.dinfo.playlists[idx]@;
        &&& playlist_replaced(a.dinfo, b.dinfo, idx, PlaylistView {
            songs: p.songs.push(sel.song->0),
            file_entry_up_to_date: false,
            ..p
        })
        &&& b == AppView { dinfo: b.dinfo, need_rebuild: true, ..a }
    } else {
        b == a
    }
}

/// `insert_playlist_song` took `a` to `b`: the selected song goes into the
/// selected playlist at the editor's selected position (when it lies inside).
pub open spec fn insert_playlist_song_rel(a: AppView, sel: Selection, b: AppView) -> bool {
    if sel.playlist is Some && sel.editor_index is Some && playlist_index(a.dinfo, sel.playlist->0) is Some
        && sel.song is Some {
        let idx = playlist_index(a.dinfo, sel.playlist->0)->0;
        let p = a.dinfo.playlists[idx]@;
        let at = sel.editor_index->0;
        &&& playlist_replaced(a.dinfo, b.dinfo, idx, if at <= p.songs.len() {
            PlaylistView { songs: p.songs.insert(at as int, sel.song->0), file_entry_up_to_date: false, ..p }
        } else {
            p
        })
        &&& b == AppView { dinfo: b.dinfo, need_rebuild: true, ..a }
    } else {
        b == a
    }
}

/// `remove_playlist_song` took `a` to `b`: the song at the editor's selected
/// position leaves the selected playlist (when the position lies inside).
pub open spec fn remove_playlist_song_rel(a: AppView, sel: Selection, b: AppView) -> bool {
    if sel.playlist is Some && playlist_index(a.dinfo, sel.playlist->0) is Some && sel.editor_index is Some {
        let idx = playlist_index(a.dinfo, sel.playlist->0)->0;
        let p = a.dinfo.playlists[idx]@;
        let at = sel.editor_index->0;
        &&& playlist_replaced(a.dinfo, b.dinfo, idx, if at < p.songs.len() {
            PlaylistView { songs: p.songs.remove(at as int), file_entry_up_to_date: false, ..p }
        } else {
            p
        })
        &&& b == AppView { dinfo: b.dinfo, need_rebuild: true, ..a }
    } else {
        b == a
    }
}

/// The pane that Tab moves the focus to.
pub open spec fn next_menu(a: AppView) -> CurrentMenu {
    match a.current_menu {
        CurrentMenu::Songs => if a.queue_open {
            CurrentMenu::Queue
        } else if a.editing_playlist {
            CurrentMenu::PlaylistEditor
        } else {
            CurrentMenu::Playlists
        },
        CurrentMenu::Playlists => CurrentMenu::Songs,
        CurrentMenu::Queue => CurrentMenu::Playlists,
        CurrentMenu::PlaylistEditor => CurrentMenu::Playlists,
    }
}

/// After toggling the queue pane: closing it moves the focus from it to the
/// songs; opening it closes the playlist editor.
pub open spec fn toggle_queue_spec(a: AppView) -> AppView {
    if a.queue_open {
        AppView {
            queue_open: false,
            current_menu: if a.current_menu == CurrentMenu::Queue { CurrentMenu::Songs } else { a.current_menu },
            ..a
        }
    } else {
        AppView { queue_open: true, editing_playlist: false, ..a }
    }
}

/// What the tables have selected: the ids of the selected song and playlist
/// rows, and the position selected in the playlist editor.
pub open spec fn selection_of(a: AppView) -> Selection {
    Selection {
        song: selected_row_id(a.songs_table),
        playlist: selected_row_id(a.playlists_table),
        editor_index: a.editor_table.selected,
    }
}

/// The rows of the playlist editor: the songs of the selected playlist that
/// the index finds, when there is such a playlist; otherwise the rows it had.
pub open spec fn editor_rows(a: AppView) -> Seq<(u32, Seq<Seq<char>>)> {
    match selection_of(a).playlist {
        Some(id) => match playlist_by_id(a.dinfo, id) {
            Some(p) => rows_of(found_songs(a.dinfo, p.songs@)),
            None => a.editor_table.rows,
        },
        None => a.editor_table.rows,
    }
}

/// A selection moved one row up or down.
pub open spec fn moved(sel: Option<usize>, up: bool) -> Option<usize> {
    if up {
        previous_row(sel)
    } else {
        next_row(sel)
    }
}

/// `a` with the selection of the focused table moved one row up or down.
pub open spec fn scrolled(a: AppView, up: bool) -> AppView {
    match a.current_menu {
        CurrentMenu::Songs => AppView {
            songs_table: TableDataView { selected: moved(a.songs_table.selected, up), ..a.songs_table },
            ..a
        },
        CurrentMenu::Playlists => AppView {
            playlists_table: TableDataView { selected: moved(a.playlists_table.selected, up), ..a.playlists_table },
            ..a
        },
        CurrentMenu::PlaylistEditor => AppView {
            editor_table: TableDataView { selected: moved(a.editor_table.selected, up), ..a.editor_table },
            ..a
        },
        CurrentMenu::Queue => AppView {
            queue_table: TableDataView { selected: moved(a.queue_table.selected, up), ..a.queue_table },
            ..a
        },
    }
}

/// After toggling the playlist editor: closing it moves the focus from it to
/// the songs; opening it fills it with the selected playlist's songs, selects
/// its first row and closes the queue pane.
pub open spec fn toggle_playlist_edit_spec(a: AppView) -> AppView {
    if a.editing_playlist {
        AppView {
            editing_playlist: false,
            current_menu: if a.current_menu == CurrentMenu::PlaylistEditor {
                CurrentMenu::Songs
            } else {
                a.current_menu
            },
            ..a
        }
    } else {
        AppView {
            editing_playlist: true,
            queue_open: false,
            editor_table: TableDataView { rows: editor_rows(a), selected: Some(0usize) },
            ..a
        }
    }
}

/// What the keys that work in every pane do.
pub open spec fn general_step(a: AppView, key: KeyInput) -> (AppView, KeyAction) {
    match key.code {
        Key::Char(c) => if c == 'c' && key.ctrl {
            (AppView { should_exit: true, ..a }, KeyAction::Nothing)
        } else if c == 'w' && key.ctrl {
            (a, KeyAction::WriteFiles)
        } else if c == 'u' && key.ctrl {
            (AppView { need_rebuild: true, ..a }, KeyAction::ReloadFiles)
        } else if c == 'V' {
            (a, KeyAction::VolumeUp)
        } else if c == 'v' {
            (a, KeyAction::VolumeDown)
        } else if c == 'k' {
            (a, KeyAction::SkipSong)
        } else if c == 'p' {
            (a, KeyAction::TogglePause)
        } else if c == 'Q' {
            (toggle_queue_spec(a), KeyAction::Nothing)
        } else if c == 'L' {
            (AppView { lyrics_open: !a.lyrics_open, ..a }, KeyAction::Nothing)
        } else if c == 'f' {
            (toggle_playlist_edit_spec(a), KeyAction::Nothing)
        } else {
            (a, KeyAction::Nothing)
        },
        Key::Tab => (AppView { current_menu: next_menu(a), ..a }, KeyAction::Nothing),
        Key::Up => (scrolled(a, true), KeyAction::Nothing),
        Key::Down => (scrolled(a, false), KeyAction::Nothing),
        _ => (a, KeyAction::Nothing),
    }
}

/// A key with no text being typed took `a` to `b` with action `act`: first
/// what the focused pane does with it, then the keys of every pane.
pub open spec fn pane_key_rel(a: AppView, key: KeyInput, sel: Selection, b: AppView, act: KeyAction) -> bool {
    let code = key.code;
    let general = general_step(a, key);
    match a.current_menu {
        CurrentMenu::Songs => if code == Key::Char(' ') && a.editing_playlist {
            add_playlist_song_rel(a, sel, b) && act == KeyAction::Nothing
        } else if code == Key::Char('i') && a.editing_playlist {
            insert_playlist_song_rel(a, sel, b) && act == KeyAction::Nothing
        } else if code == Key::Char(' ') {
            b == a && act == match sel.song {
                Some(id) => KeyAction::PlaySong(id),
                None => KeyAction::Nothing,
            }
        } else if code == Key::Char('q') {
            b == a && act == match sel.song {
                Some(id) => KeyAction::EnqueueSong(id),
                None => KeyAction::Nothing,
            }
        } else if code == Key::Char('/') {
            b == AppView { text_input_queue: a.text_input_queue.push(TextInputDestination::Search), ..a }
                && act == KeyAction::Nothing
        } else if code == Key::Char('u') && key.no_modifiers {
            b == start_edit_song_spec(a, sel) && act == KeyAction::Nothing
        } else if code == Key::Esc {
            b == AppView {
                inputs: InputsView { search_query: Seq::empty(), ..a.inputs },
                need_rebuild: true,
                ..a
            } && act == KeyAction::Nothing
        } else {
            (b, act) == general
        },
        CurrentMenu::Playlists => if code == Key::Char(' ') {
            b == a && act == match sel.playlist {
                Some(id) => KeyAction::PlayPlaylist(id),
                None => KeyAction::Nothing,
            }
        } else if code == Key::Char('u') && key.no_modifiers {
            b == start_edit_playlist_spec(a, sel) && act == KeyAction::Nothing
        } else if code == Key::Char('r') {
            b == a && act == match sel.playlist {
                Some(id) => KeyAction::ShufflePlayPlaylist(id),
                None => KeyAction::Nothing,
            }
        } else if code == Key::Char('a') {
            b == start_add_playlist_spec(a) && act == KeyAction::Nothing
        } else {
            (b, act) == general
        },
        CurrentMenu::PlaylistEditor => if code == Key::Char('r') && a.editing_playlist {
            remove_playlist_song_rel(a, sel, b) && act == KeyAction::Nothing
        } else {
            (b, act) == general
        },
        CurrentMenu::Queue => (b, act) == general,
    }
}

/// `a` after a typed character reached the field `dest`: the search field
/// also asks for the tables to be rebuilt.
pub open spec fn typed_char(a: AppView, dest: TextInputDestination, c: char) -> AppView {
    AppView {
        inputs: with_field(a.inputs, dest, field_of(a.inputs, dest).push(c)),
        need_rebuild: if dest == TextInputDestination::Search { true } else { a.need_rebuild },
        songs_table: if dest == TextInputDestination::Search {
            TableDataView { selected: Some(0usize), ..a.songs_table }
        } else {
            a.songs_table
        },
        ..a
    }
}

/// Enter on the field `dest`, the first of `a`'s queue, took `a` to `b`: a
/// typed duration or playlist name is applied, and the field leaves the
/// queue; a duration that does not parse only draws a message.
pub open spec fn submit_rel(a: AppView, dest: TextInputDestination, sel: Selection, b: AppView) -> bool {
    let rest = a.text_input_queue.drop_first();
    match dest {
        TextInputDestination::SongDuration => match parse_unsigned(a.inputs.duration_text, u32::MAX as nat) {
            Ok(i) => {
                let a2 = AppView { inputs: InputsView { duration: Some(i as u32), ..a.inputs }, ..a };
                b.text_input_queue == rest && finish_edit_song_rel(
                    a2,
                    sel,
                    AppView { text_input_queue: a2.text_input_queue, ..b },
                )
            },
            Err(e) => b == with_message(a, "Err handling input ("@ + parse_error_text(e) + ")"@),
        },
        TextInputDestination::PlaylistNameUpdate => b.text_input_queue == rest && finish_edit_playlist_rel(
            a,
            sel,
            AppView { text_input_queue: a.text_input_queue, ..b },
        ),
        TextInputDestination::PlaylistNameAdd => b.text_input_queue == rest && finish_add_playlist_rel(
            a,
            AppView { text_input_queue: a.text_input_queue, ..b },
        ),
        _ => b == AppView { text_input_queue: rest, ..a },
    }
}

/// A key while text is being typed took `a` to `b` with action `act`.
pub open spec fn text_key_rel(a: AppView, key: KeyInput, sel: Selection, b: AppView, act: KeyAction) -> bool {
    let dest = a.text_input_queue[0];
    let a1 = match key.code {
        Key::Char(c) => typed_char(a, dest, c),
        _ => a,
    };
    &&& act == KeyAction::Nothing
    &&& match key.code {
        Key::Esc => b == AppView { text_input_queue: Seq::empty(), ..a1 },
        Key::Char(c) => if c == 'c' && key.ctrl {
            b == AppView { inputs: with_field(a1.inputs, dest, Seq::empty()), ..a1 }
        } else {
            b == a1
        },
        Key::Enter => submit_rel(a1, dest, sel, b),
        Key::Backspace => b == AppView {
            inputs: with_field(a1.inputs, dest, if field_of(a1.inputs, dest).len() > 0 {
                field_of(a1.inputs, dest).drop_last()
            } else {
                field_of(a1.inputs, dest)
            }),
            need_rebuild: true,
            ..a1
        },
        _ => b == a1,
    }
}

/// A key event took `a` to `b` with action `act`.
pub open spec fn key_rel(a: AppView, key: KeyInput, sel: Selection, b: AppView, act: KeyAction) -> bool {
    if !key.is_press {
        b == a && act == KeyAction::Nothing
    } else if a.text_input_queue.len() > 0 {
        text_key_rel(a, key, sel, b, act)
    } else {
        pane_key_rel(a, key, sel, b, act)
    }
}

/// The messages after one frame: each has one frame less, and those with
/// none left are gone.
pub open spec fn aged(m: Seq<(Seq<char>, u32)>) -> Seq<(Seq<char>, u32)>
    decreases m.len(),
{
    if m.len() == 0 {
        Seq::empty()
    } else {
        let prev = aged(m.drop_last());
        let (t, life) = m.last();
        if life > 1 {
            prev.push((t, (life - 1) as u32))
        } else {
            prev
        }
    }
}

/// The messages after `k` frames.
pub open spec fn aged_times(m: Seq<(Seq<char>, u32)>, k: nat) -> Seq<(Seq<char>, u32)>
    decreases k,
{
    if k == 0 {
        m
    } else {
        aged(aged_times(m, (k - 1) as nat))
    }
}

/// Law: a message added to the log stays there, last, for `MESSAGE_LIFE`
/// frames with one frame less after each, whatever else the log holds; after
/// that many frames it is gone and the log is what it would have been
/// without it.
pub proof fn law_message_lives_its_frames(m: Seq<(Seq<char>, u32)>, text: Seq<char>, k: nat)
    requires
        k <= MESSAGE_LIFE,
    ensures
        k < MESSAGE_LIFE ==> aged_times(m.push((text, MESSAGE_LIFE)), k) == aged_times(m, k).push(
            (text, (MESSAGE_LIFE - k) as u32),
        ),
        k == MESSAGE_LIFE ==> aged_times(m.push((text, MESSAGE_LIFE)), k) == aged_times(m, k),
    decreases k,
{
    if k > 0 {
        law_message_lives_its_frames(m, text, (k - 1) as nat);
        let before = aged_times(m, (k - 1) as nat);
        let with = before.push((text, (MESSAGE_LIFE - (k - 1)) as u32));
        assert(with.drop_last() =~= before);
    }
}

/// When no two songs share a key, the song at `p` is the first with its key.
proof fn lemma_unique_key_is_first(keys: Seq<u32>, p: int)
    requires
        0 <= p < keys.len(),
        forall|j: int, k: int| 0 <= j < k < keys.len() ==> keys[j] != keys[k],
    ensures
        first_with(keys, keys[p]) == Some(p),
{
    assert(is_first_with(keys, keys[p], p));
    let k = choose|k: int| is_first_with(keys, keys[p], k);
    if k < p {
        assert(keys[k] != keys[p]);
    } else if k > p {
        assert(keys[p] != keys[p]);
    }
}

/// Law: editing a song through the interface changes only its name, album,
/// artist and duration. When no two songs share an id (a missing id counting
/// as zero), the list keeps its length and every stored song keeps its file
/// and its id; the song the selection names takes the typed texts and the
/// typed duration.
pub proof fn law_edit_song_keeps_file_and_id(a: AppView, sel: Selection, b: AppView)
    requires
        finish_edit_song_rel(a, sel, b),
        forall|j: int, k: int|
            0 <= j < k < a.dinfo.songs.len() ==> id_or_zero(a.dinfo.songs[j].id) != id_or_zero(a.dinfo.songs[k].id),
    ensures
        b.dinfo.songs.len() == a.dinfo.songs.len(),
        forall|k: int|
            0 <= k < a.dinfo.songs.len() ==> (#[trigger] b.dinfo.songs[k]).filename == a.dinfo.songs[k].filename
                && b.dinfo.songs[k].id == a.dinfo.songs[k].id,
        sel.song is Some && song_by_id(a.dinfo, sel.song->0) is Some && song_by_id(a.dinfo, sel.song->0)->0.id is Some
            && a.inputs.duration is Some ==> {
            let p = a.dinfo.song_indices[sel.song->0] as int;
            &&& b.dinfo.songs[p].name@ == a.inputs.song_name
            &&& b.dinfo.songs[p].album@ == a.inputs.song_album
            &&& b.dinfo.songs[p].artist@ == a.inputs.song_artist
            &&& b.dinfo.songs[p].duration == a.inputs.duration->0
        },
{
    if sel.song is Some && song_by_id(a.dinfo, sel.song->0) is Some && a.inputs.duration is Some {
        let id = sel.song->0;
        let song = song_by_id(a.dinfo, id)->0;
        let d = a.inputs.duration->0;
        let p = a.dinfo.song_indices[id] as int;
        let ns = choose|ns: SongInfo|
            #![trigger update_song_outcome(a.dinfo, ns)]
            {
                &&& ns.name@ == a.inputs.song_name
                &&& ns.artist@ == a.inputs.song_artist
                &&& ns.album@ == a.inputs.song_album
                &&& ns.duration == d
                &&& ns.filename == song.filename
                &&& ns.id == song.id
                &&& !ns.file_entry_up_to_date
                &&& b == AppView {
                    dinfo: update_song_outcome(a.dinfo, ns).0,
                    messages: a.messages.push(
                        (update_message(update_song_outcome(a.dinfo, ns).1, "Successfully updated song"@), MESSAGE_LIFE),
                    ),
                    need_rebuild: true,
                    ..a
                }
            };
        if song.id is Some {
            let keys = crate::dlib::doppler_info::song_keys(a.dinfo.songs);
            assert forall|j: int, k: int| 0 <= j < k < keys.len() implies keys[j] != keys[k] by {
                assert(keys[j] == id_or_zero(a.dinfo.songs[j].id));
                assert(keys[k] == id_or_zero(a.dinfo.songs[k].id));
            }
            assert(keys[p] == id_or_zero(song.id));
            lemma_unique_key_is_first(keys, p);
        }
    }
}

/// Law: renaming a playlist through the interface changes only its name.
/// When no two playlists share an id (a missing id counting as zero), the
/// list keeps its length and every stored playlist keeps its songs and its
/// id; the playlist the selection names takes the typed name.
pub proof fn law_rename_playlist_keeps_songs(a: AppView, sel: Selection, b: AppView)
    requires
        finish_edit_playlist_rel(a, sel, b),
        forall|j: int, k: int|
            0 <= j < k < a.dinfo.playlists.len() ==> id_or_zero(a.dinfo.playlists[j].id) != id_or_zero(
                a.dinfo.playlists[k].id,
            ),
    ensures
        b.dinfo.playlists.len() == a.dinfo.playlists.len(),
        forall|k: int|
            0 <= k < a.dinfo.playlists.len() ==> (#[trigger] b.dinfo.playlists[k])@.songs == a.dinfo.playlists[k]@.songs
                && b.dinfo.playlists[k].id == a.dinfo.playlists[k].id,
        sel.playlist is Some && playlist_by_id(a.dinfo, sel.playlist->0) is Some && playlist_by_id(
            a.dinfo,
            sel.playlist->0,
        )->0.id is Some ==> b.dinfo.playlists[a.dinfo.playlist_indices[sel.playlist->0] as int]@.name
            == a.inputs.playlist_name,
{
    if sel.playlist is Some && playlist_by_id(a.dinfo, sel.playlist->0) is Some {
        let id = sel.playlist->0;
        let pl = playlist_by_id(a.dinfo, id)->0;
        let p = a.dinfo.playlist_indices[id] as int;
        let np = choose|np: PlaylistInfo|
            #![trigger update_playlist_outcome(a.dinfo, np)]
            {
                &&& np@ == (PlaylistView { name: a.inputs.playlist_name, ..pl@ })
                &&& b == AppView {
                    dinfo: update_playlist_outcome(a.dinfo, np).0,
                    messages: a.messages.push(
                        (update_message(update_playlist_outcome(a.dinfo, np).1, "Successfully updated playlist"@), MESSAGE_LIFE),
                    ),
                    need_rebuild: true,
                    ..a
                }
            };
        if pl.id is Some {
            let keys = crate::dlib::doppler_info::playlist_keys(a.dinfo.playlists);
            assert forall|j: int, k: int| 0 <= j < k < keys.len() implies keys[j] != keys[k] by {
                assert(keys[j] == id_or_zero(a.dinfo.playlists[j].id));
                assert(keys[k] == id_or_zero(a.dinfo.playlists[k].id));
            }
            assert(keys[p] == id_or_zero(pl.id));
            lemma_unique_key_is_first(keys, p);
        }
    }
}

/// A key event would add a playlist without an id: Enter while the name of a
/// new playlist is being typed.
pub open spec fn key_adds_playlist(a: AppView, key: KeyInput) -> bool {
    &&& key.is_press
    &&& a.text_input_queue.len() > 0
    &&& a.text_input_queue[0] == TextInputDestination::PlaylistNameAdd
    &&& key.code == Key::Enter
}

impl App {
    /// The interface as it starts: the song pane has the focus, no pane or
    /// text field is open, the log is empty, and the tables are to be built.
    pub fn new(dinfo: DopplerInfo) -> (app: Self)
        ensures
            app@.dinfo == dinfo@,
            !app@.should_exit,
            !app@.queue_open,
            !app@.lyrics_open,
            !app@.editing_playlist,
            app@.current_menu == CurrentMenu::Songs,
            app@.text_input_queue == Seq::<TextInputDestination>::empty(),
            app@.inputs.search_query == Seq::<char>::empty(),
            app@.inputs.song_name == Seq::<char>::empty(),
            app@.inputs.song_album == Seq::<char>::empty(),
            app@.inputs.song_artist == Seq::<char>::empty(),
            app@.inputs.duration_text == Seq::<char>::empty(),
            app@.inputs.duration is None,
            app@.inputs.playlist_name == Seq::<char>::empty(),
            app@.messages == Seq::<(Seq<char>, u32)>::empty(),
            app@.need_rebuild,
            app@.songs_table.rows == Seq::<(u32, Seq<Seq<char>>)>::empty(),
            app@.songs_table.selected == Some(0usize),
            app@.playlists_table.rows == Seq::<(u32, Seq<Seq<char>>)>::empty(),
            app@.playlists_table.selected == Some(0usize),
            app@.editor_table.rows == Seq::<(u32, Seq<Seq<char>>)>::empty(),
            app@.editor_table.selected == Some(0usize),
            app@.queue_table.rows == Seq::<(u32, Seq<Seq<char>>)>::empty(),
            app@.queue_table.selected == Some(0usize),
    {
        let app = App {
            dinfo,
            should_exit: false,
            queue_open: false,
            lyrics_open: false,
            editing_playlist: false,
            current_menu: CurrentMenu::Songs,
            text_input_queue: Vec::new(),
            text_inputs: AppTextInputs {
                search_query: String::new(),
                song_name: String::new(),
                song_album: String::new(),
                song_artist: String::new(),
                song_duration: (String::new(), None),
                playlist_name: String::new(),
            },
            messages: Vec::new(),
            need_rebuild: true,
            songs_table: TableData::new(),
            playlists_table: TableData::new(),
            editor_table: TableData::new(),
            queue_table: TableData::new(),
        };
        assert(app@.messages =~= Seq::<(Seq<char>, u32)>::empty());
        app
    }

    /// Adds a message to the log.
    pub fn emit_message(&mut self, msg: String)
        ensures
            final(self)@ == with_message(old(self)@, msg@),
    {
        self.messages.push((msg, MESSAGE_LIFE));
        assert(self@.messages =~= old(self)@.messages.push((msg@, MESSAGE_LIFE)));
    }

    /// One frame passes for the messages of the log.
    pub fn age_messages(&mut self)
        ensures
            final(self)@ == (AppView { messages: aged(old(self)@.messages), ..old(self)@ }),
    {
        let mut old_messages: Vec<(String, u32)> = Vec::new();
        std::mem::swap(&mut old_messages, &mut self.messages);
        let ghost orig = old_messages@.map_values(|m: (String, u32)| (m.0@, m.1));
        let ghost raw = old_messages@;
        let len0 = old_messages.len();
        let mut kept: Vec<(String, u32)> = Vec::new();
        let mut i: usize = 0;
        while old_messages.len() > 0
            invariant
                old_messages@ == raw.skip(i as int),
                i + old_messages@.len() == len0,
                raw.len() == len0,
                orig == raw.map_values(|m: (String, u32)| (m.0@, m.1)),
                kept@.map_values(|m: (String, u32)| (m.0@, m.1)) == aged(orig.take(i as int)),
            decreases old_messages@.len(),
        {
            let (text, life) = old_messages.remove(0);
            proof {
                assert(raw.skip(i as int).remove(0) =~= raw.skip(i + 1));
                assert(orig.take(i + 1).drop_last() =~= orig.take(i as int));
                assert(orig.take(i + 1).last() == (text@, life));
            }
            let ghost before = kept@;
            let life = if life >= 1 { life - 1 } else { 0 };
            if life > 0 {
                kept.push((text, life));
                assert(kept@.map_values(|m: (String, u32)| (m.0@, m.1)) =~= before.map_values(
                    |m: (String, u32)| (m.0@, m.1),
                ).push((text@, life)));
            }
            i = i + 1;
        }
        assert(orig.take(i as int) =~= orig);
        self.messages = kept;
    }

    /// Takes the text of the field `dest` out, leaving it empty.
    fn take_field(&mut self, dest: TextInputDestination) -> (t: String)
        ensures
            t@ == field_of(old(self)@.inputs, dest),
            final(self)@ == (AppView { inputs: with_field(old(self)@.inputs, dest, Seq::empty()), ..old(self)@ }),
    {
        let mut t = String::new();
        match dest {
            TextInputDestination::Search => std::mem::swap(&mut t, &mut self.text_inputs.search_query),
            TextInputDestination::SongName => std::mem::swap(&mut t, &mut self.text_inputs.song_name),
            TextInputDestination::SongAlbum => std::mem::swap(&mut t, &mut self.text_inputs.song_album),
            TextInputDestination::SongArtist => std::mem::swap(&mut t, &mut self.text_inputs.song_artist),
            TextInputDestination::SongDuration => std::mem::swap(&mut t, &mut self.text_inputs.song_duration.0),
            TextInputDestination::PlaylistNameUpdate => std::mem::swap(&mut t, &mut self.text_inputs.playlist_name),
            TextInputDestination::PlaylistNameAdd => std::mem::swap(&mut t, &mut self.text_inputs.playlist_name),
        }
        t
    }

    /// Puts `t` in the field `dest`.
    fn put_field(&mut self, dest: TextInputDestination, t: String)
        ensures
            final(self)@ == (AppView { inputs: with_field(old(self)@.inputs, dest, t@), ..old(self)@ }),
    {
        match dest {
            TextInputDestination::Search => self.text_inputs.search_query = t,
            TextInputDestination::SongName => self.text_inputs.song_name = t,
            TextInputDestination::SongAlbum => self.text_inputs.song_album = t,
            TextInputDestination::SongArtist => self.text_inputs.song_artist = t,
            TextInputDestination::SongDuration => self.text_inputs.song_duration.0 = t,
            TextInputDestination::PlaylistNameUpdate => self.text_inputs.playlist_name = t,
            TextInputDestination::PlaylistNameAdd => self.text_inputs.playlist_name = t,
        }
    }

    /// Starts editing the selected song.
    fn start_edit_song(&mut self, sel: Selection)
        ensures
            final(self)@ == start_edit_song_spec(old(self)@, sel),
    {
        let found = match sel.song {
            Some(id) => self.dinfo.get_song_by_id(id),
            None => None,
        };
        match found {
            Some(song) => {
                self.text_inputs.song_name = song.name;
                self.text_inputs.song_album = song.album;
                self.text_inputs.song_artist = song.artist;
                let mut d = String::new();
                push_decimal(&mut d, song.duration as u64);
                self.text_inputs.song_duration.0 = d;
                let mut q: Vec<TextInputDestination> = Vec::new();
                q.push(TextInputDestination::SongName);
                q.push(TextInputDestination::SongAlbum);
                q.push(TextInputDestination::SongArtist);
                q.push(TextInputDestination::SongDuration);
                self.text_input_queue = q;
                assert(self.text_input_queue@ =~= seq![
                    TextInputDestination::SongName,
                    TextInputDestination::SongAlbum,
                    TextInputDestination::SongArtist,
                    TextInputDestination::SongDuration,
                ]);
                assert(self@ == start_edit_song_spec(old(self)@, sel));
            },
            None => {
                self.emit_message(string_from("Failed to edit song"));
            },
        }
    }

    /// Starts editing the selected playlist's name.
    fn start_edit_playlist(&mut self, sel: Selection)
        ensures
            final(self)@ == start_edit_playlist_spec(old(self)@, sel),
    {
        let name = match sel.playlist {
            Some(id) => match self.dinfo.get_playlist_by_id(id) {
                Some(p) => Some(p.name.clone()),
                None => None,
            },
            None => None,
        };
        match name {
            Some(n) => {
                self.text_inputs.playlist_name = n;
                let mut q: Vec<TextInputDestination> = Vec::new();
                q.push(TextInputDestination::PlaylistNameUpdate);
                self.text_input_queue = q;
                assert(self@ == start_edit_playlist_spec(old(self)@, sel));
            },
            None => {
                self.emit_message(string_from("Failed to edit playlist"));
            },
        }
    }

    /// Starts typing the name of a new playlist.
    fn start_add_playlist(&mut self)
        ensures
            final(self)@ == start_add_playlist_spec(old(self)@),
    {
        self.text_inputs.playlist_name.clear();
        let mut q: Vec<TextInputDestination> = Vec::new();
        q.push(TextInputDestination::PlaylistNameAdd);
        self.text_input_queue = q;
        assert(self@ == start_add_playlist_spec(old(self)@));
    }
}

impl App {
    /// Adds to the log `prefix`, the message of `e`, and `")"`.
    fn emit_failure(&mut self, prefix: &str, e: crate::error::DopplerError)
        ensures
            final(self)@ == with_message(old(self)@, prefix@ + message_text(e) + ")"@),
    {
        let mut m = string_from(prefix);
        m.push_str(e.message());
        m.push_str(")");
        self.emit_message(m);
    }

    /// Applies the typed fields to the selected song.
    fn finish_edit_song(&mut self, sel: Selection)
        ensures
            finish_edit_song_rel(old(self)@, sel, final(self)@),
    {
        let found = match sel.song {
            Some(id) => self.dinfo.get_song_by_id(id),
            None => None,
        };
        if let Some(song) = found {
            let dur = match self.text_inputs.song_duration.1 {
                Some(d) => d,
                None => {
                    self.emit_message(string_from("Update failed (bad duration)"));
                    return;
                },
            };
            let ns = SongInfo {
                name: self.text_inputs.song_name.clone(),
                artist: self.text_inputs.song_artist.clone(),
                album: self.text_inputs.song_album.clone(),
                duration: dur,
                file_entry_up_to_date: false,
                ..song
            };
            let ghost a = self@;
            let r = self.dinfo.update_song(ns);
            match r {
                Ok(()) => self.emit_message(string_from("Successfully updated song")),
                Err(e) => self.emit_failure("Update failed (", e),
            }
            self.need_rebuild = true;
            assert(update_song_outcome(a.dinfo, ns) == (self@.dinfo, r));
        }
    }

    /// Applies the typed name to the selected playlist.
    fn finish_edit_playlist(&mut self, sel: Selection)
        ensures
            finish_edit_playlist_rel(old(self)@, sel, final(self)@),
    {
        let found = match sel.playlist {
            Some(id) => match self.dinfo.get_playlist_by_id(id) {
                Some(p) => Some(p.clone()),
                None => None,
            },
            None => None,
        };
        if let Some(p) = found {
            let np = PlaylistInfo { name: self.text_inputs.playlist_name.clone(), ..p };
            let ghost a = self@;
            let r = self.dinfo.update_playlist(np);
            match r {
                Ok(()) => self.emit_message(string_from("Successfully updated playlist")),
                Err(e) => self.emit_failure("Update failed (", e),
            }
            self.need_rebuild = true;
            assert(update_playlist_outcome(a.dinfo, np) == (self@.dinfo, r));
        }
    }

    /// Adds a playlist with the typed name.
    fn finish_add_playlist(&mut self)
        requires
            id_or_zero(old(self)@.dinfo.max_playlist_id) < u32::MAX,
        ensures
            finish_add_playlist_rel(old(self)@, final(self)@),
    {
        let name = self.text_inputs.playlist_name.clone();
        if name.as_str().is_empty() {
            self.emit_message(string_from("Can't add playlist with no name"));
        }
        let mut np = PlaylistInfo::new();
        np.name = name;
        let ghost a = self@;
        let r = self.dinfo.add_playlist(np);
        match r {
            Ok(()) => self.emit_message(string_from("Added playlist")),
            Err(e) => self.emit_failure("Failed to add playlist (", e),
        }
        self.need_rebuild = true;
        assert(add_playlist_outcome(a.dinfo, np) == (self@.dinfo, r));
    }

    /// Appends the selected song to the selected playlist.
    fn add_playlist_song(&mut self, sel: Selection)
        ensures
            add_playlist_song_rel(old(self)@, sel, final(self)@),
    {
        if let Some(pid) = sel.playlist {
            if self.dinfo.get_playlist_by_id(pid).is_some() {
                if let Some(sid) = sel.song {
                    self.dinfo.playlist_force_add_song(pid, sid);
                    self.need_rebuild = true;
                }
            }
        }
    }

    /// Inserts the selected song into the selected playlist at the editor's
    /// selected position.
    fn insert_playlist_song(&mut self, sel: Selection)
        ensures
            insert_playlist_song_rel(old(self)@, sel, final(self)@),
    {
        if let Some(pid) = sel.playlist {
            if let Some(at) = sel.editor_index {
                if self.dinfo.get_playlist_by_id(pid).is_some() {
                    if let Some(sid) = sel.song {
                        let _ = self.dinfo.playlist_insert_song(pid, at, sid);
                        self.need_rebuild = true;
                    }
                }
            }
        }
    }

    /// Removes from the selected playlist the song at the editor's selected
    /// position.
    fn remove_playlist_song(&mut self, sel: Selection)
        ensures
            remove_playlist_song_rel(old(self)@, sel, final(self)@),
    {
        if let Some(pid) = sel.playlist {
            if self.dinfo.get_playlist_by_id(pid).is_some() {
                if let Some(at) = sel.editor_index {
                    let _ = self.dinfo.playlist_remove_song(pid, at);
                    self.need_rebuild = true;
                }
            }
        }
    }

    /// Opens or closes the queue pane.
    pub fn toggle_queue(&mut self)
        ensures
            final(self)@ == toggle_queue_spec(old(self)@),
    {
        if self.queue_open {
            self.queue_open = false;
            if self.current_menu == CurrentMenu::Queue {
                self.current_menu = CurrentMenu::Songs;
            }
        } else {
            self.queue_open = true;
            self.editing_playlist = false;
        }
    }

    /// Opens or closes the playlist editor.
    pub fn toggle_playlist_edit(&mut self)
        ensures
            final(self)@ == toggle_playlist_edit_spec(old(self)@),
    {
        if self.editing_playlist {
            self.editing_playlist = false;
            if self.current_menu == CurrentMenu::PlaylistEditor {
                self.current_menu = CurrentMenu::Songs;
            }
        } else {
            self.rebuild_playlist_editor();
            self.editor_table.select_first();
            self.editing_playlist = true;
            self.queue_open = false;
        }
    }

    /// What the tables have selected.
    pub fn selection(&self) -> (sel: Selection)
        ensures
            sel == selection_of(self@),
    {
        Selection {
            song: self.songs_table.selected_id(),
            playlist: self.playlists_table.selected_id(),
            editor_index: self.editor_table.selected_index(),
        }
    }

    /// Fills the playlist editor with the songs of the selected playlist that
    /// the index finds; without such a playlist it keeps its rows.
    pub fn rebuild_playlist_editor(&mut self)
        ensures
            final(self)@ == (AppView {
                editor_table: TableDataView { rows: editor_rows(old(self)@), ..old(self)@.editor_table },
                ..old(self)@
            }),
    {
        let sel = self.selection();
        if let Some(id) = sel.playlist {
            if let Some(songs) = self.dinfo.songs_of_playlist(id) {
                self.editor_table.rebuild(songs.as_slice());
            }
        }
    }

    /// Moves the selection of the focused table one row up or down.
    fn scroll(&mut self, up: bool)
        ensures
            final(self)@ == scrolled(old(self)@, up),
    {
        match self.current_menu {
            CurrentMenu::Songs => if up { self.songs_table.select_previous() } else { self.songs_table.select_next() },
            CurrentMenu::Playlists => if up {
                self.playlists_table.select_previous()
            } else {
                self.playlists_table.select_next()
            },
            CurrentMenu::PlaylistEditor => if up { self.editor_table.select_previous() } else { self.editor_table.select_next() },
            CurrentMenu::Queue => if up { self.queue_table.select_previous() } else { self.queue_table.select_next() },
        }
    }

    /// Moves the focus to the next pane.
    pub fn cycle_menu(&mut self)
        ensures
            final(self)@ == (AppView { current_menu: next_menu(old(self)@), ..old(self)@ }),
    {
        self.current_menu = match self.current_menu {
            CurrentMenu::Songs => if self.queue_open {
                CurrentMenu::Queue
            } else if self.editing_playlist {
                CurrentMenu::PlaylistEditor
            } else {
                CurrentMenu::Playlists
            },
            CurrentMenu::Playlists => CurrentMenu::Songs,
            CurrentMenu::Queue => CurrentMenu::Playlists,
            CurrentMenu::PlaylistEditor => CurrentMenu::Playlists,
        };
    }

    /// The keys that work in every pane.
    fn general_key(&mut self, key: KeyInput) -> (act: KeyAction)
        ensures
            (final(self)@, act) == general_step(old(self)@, key),
    {
        match key.code {
            Key::Char(c) => {
                if c == 'c' && key.ctrl {
                    self.should_exit = true;
                    KeyAction::Nothing
                } else if c == 'w' && key.ctrl {
                    KeyAction::WriteFiles
                } else if c == 'u' && key.ctrl {
                    self.need_rebuild = true;
                    KeyAction::ReloadFiles
                } else if c == 'V' {
                    KeyAction::VolumeUp
                } else if c == 'v' {
                    KeyAction::VolumeDown
                } else if c == 'k' {
                    KeyAction::SkipSong
                } else if c == 'p' {
                    KeyAction::TogglePause
                } else if c == 'Q' {
                    self.toggle_queue();
                    KeyAction::Nothing
                } else if c == 'L' {
                    self.lyrics_open = !self.lyrics_open;
                    KeyAction::Nothing
                } else if c == 'f' {
                    self.toggle_playlist_edit();
                    KeyAction::Nothing
                } else {
                    KeyAction::Nothing
                }
            },
            Key::Tab => {
                self.cycle_menu();
                KeyAction::Nothing
            },
            Key::Up => {
                self.scroll(true);
                KeyAction::Nothing
            },
            Key::Down => {
                self.scroll(false);
                KeyAction::Nothing
            },
            _ => KeyAction::Nothing,
        }
    }

    /// A key with no text being typed.
    fn pane_key(&mut self, key: KeyInput, sel: Selection) -> (act: KeyAction)
        ensures
            pane_key_rel(old(self)@, key, sel, final(self)@, act),
    {
        let code = key.code;
        match self.current_menu {
            CurrentMenu::Songs => {
                if code == Key::Char(' ') && self.editing_playlist {
                    self.add_playlist_song(sel);
                    KeyAction::Nothing
                } else if code == Key::Char('i') && self.editing_playlist {
                    self.insert_playlist_song(sel);
                    KeyAction::Nothing
                } else if code == Key::Char(' ') {
                    match sel.song {
                        Some(id) => KeyAction::PlaySong(id),
                        None => KeyAction::Nothing,
                    }
                } else if code == Key::Char('q') {
                    match sel.song {
                        Some(id) => KeyAction::EnqueueSong(id),
                        None => KeyAction::Nothing,
                    }
                } else if code == Key::Char('/') {
                    self.text_input_queue.push(TextInputDestination::Search);
                    KeyAction::Nothing
                } else if code == Key::Char('u') && key.no_modifiers {
                    self.start_edit_song(sel);
                    KeyAction::Nothing
                } else if code == Key::Esc {
                    self.text_inputs.search_query.clear();
                    self.need_rebuild = true;
                    KeyAction::Nothing
                } else {
                    self.general_key(key)
                }
            },
            CurrentMenu::Playlists => {
                if code == Key::Char(' ') {
                    match sel.playlist {
                        Some(id) => KeyAction::PlayPlaylist(id),
                        None => KeyAction::Nothing,
                    }
                } else if code == Key::Char('u') && key.no_modifiers {
                    self.start_edit_playlist(sel);
                    KeyAction::Nothing
                } else if code == Key::Char('r') {
                    match sel.playlist {
                        Some(id) => KeyAction::ShufflePlayPlaylist(id),
                        None => KeyAction::Nothing,
                    }
                } else if code == Key::Char('a') {
                    self.start_add_playlist();
                    KeyAction::Nothing
                } else {
                    self.general_key(key)
                }
            },
            CurrentMenu::PlaylistEditor => {
                if code == Key::Char('r') && self.editing_playlist {
                    self.remove_playlist_song(sel);
                    KeyAction::Nothing
                } else {
                    self.general_key(key)
                }
            },
            CurrentMenu::Queue => self.general_key(key),
        }
    }

    /// Enter on the field `dest`, the first of the queue.
    fn submit_field(&mut self, dest: TextInputDestination, sel: Selection)
        requires
            old(self)@.text_input_queue.len() > 0,
            old(self)@.text_input_queue[0] == dest,
            dest == TextInputDestination::PlaylistNameAdd ==> id_or_zero(old(self)@.dinfo.max_playlist_id) < u32::MAX,
        ensures
            submit_rel(old(self)@, dest, sel, final(self)@),
    {
        let ghost a1 = self@;
        match dest {
            TextInputDestination::SongDuration => {
                match parse_decimal(self.text_inputs.song_duration.0.as_str(), u32::MAX as u64) {
                    Ok(i) => {
                        self.text_inputs.song_duration.1 = Some(i as u32);
                        self.finish_edit_song(sel);
                        let _ = self.text_input_queue.remove(0);
                        assert(self@.text_input_queue =~= a1.text_input_queue.drop_first());
                    },
                    Err(e) => {
                        let mut m = string_from("Err handling input (");
                        m.push_str(e.message());
                        m.push_str(")");
                        self.emit_message(m);
                    },
                }
            },
            TextInputDestination::PlaylistNameUpdate => {
                self.finish_edit_playlist(sel);
                let _ = self.text_input_queue.remove(0);
                assert(self@.text_input_queue =~= a1.text_input_queue.drop_first());
            },
            TextInputDestination::PlaylistNameAdd => {
                self.finish_add_playlist();
                let _ = self.text_input_queue.remove(0);
                assert(self@.text_input_queue =~= a1.text_input_queue.drop_first());
            },
            _ => {
                let _ = self.text_input_queue.remove(0);
                assert(self@.text_input_queue =~= a1.text_input_queue.drop_first());
            },
        }
    }

    /// A key while text is being typed into the first queued field.
    fn text_key(&mut self, key: KeyInput, sel: Selection) -> (act: KeyAction)
        requires
            old(self)@.text_input_queue.len() > 0,
            key.is_press,
            key_adds_playlist(old(self)@, key) ==> id_or_zero(old(self)@.dinfo.max_playlist_id)
                < u32::MAX,
        ensures
            text_key_rel(old(self)@, key, sel, final(self)@, act),
    {
        let dest = self.text_input_queue[0];
        if let Key::Char(c) = key.code {
            if dest == TextInputDestination::Search {
                self.songs_table.select_first();
                self.need_rebuild = true;
            }
            let mut t = self.take_field(dest);
            t.push(c);
            self.put_field(dest, t);
        }
        match key.code {
            Key::Esc => {
                self.text_input_queue.clear();
            },
            Key::Char(c) => {
                if c == 'c' && key.ctrl {
                    let _ = self.take_field(dest);
                }
            },
            Key::Enter => self.submit_field(dest, sel),
            Key::Backspace => {
                let mut t = self.take_field(dest);
                let _ = t.pop();
                self.put_field(dest, t);
                self.need_rebuild = true;
            },
            _ => {},
        }
        KeyAction::Nothing
    }

    /// Whether `key` submits the name of a new playlist, which adds a
    /// playlist without an id.
    pub fn key_adds_playlist(&self, key: KeyInput) -> (b: bool)
        ensures
            b == key_adds_playlist(self@, key),
    {
        key.is_press && self.text_input_queue.len() > 0
            && self.text_input_queue[0] == TextInputDestination::PlaylistNameAdd && key.code == Key::Enter
    }

    /// What a key event does: the state it leaves and the action for the
    /// caller, with the tables' selection deciding which song or playlist it
    /// is about.
    pub fn handle_key(&mut self, key: KeyInput) -> (act: KeyAction)
        requires
            key_adds_playlist(old(self)@, key) ==> id_or_zero(old(self)@.dinfo.max_playlist_id) < u32::MAX,
        ensures
            key_rel(old(self)@, key, selection_of(old(self)@), final(self)@, act),
    {
        let sel = self.selection();
        if !key.is_press {
            return KeyAction::Nothing;
        }
        if self.text_input_queue.len() > 0 {
            self.text_key(key, sel)
        } else {
            self.pane_key(key, sel)
        }
    }
}

} // verus!
