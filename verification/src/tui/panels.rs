//! The texts that the panes of the interface show: titles, the line under a
//! table while a field is typed, the help line, the now-playing lines and
//! the lines of the lyrics pane.
use vstd::prelude::*;
use crate::dlib::doppler_info::{song_by_id, playlist_by_id};
use crate::dlib::lyrics::{LyricInfo, first_due, lookup_time, window};
use crate::dlib::playlist_iter::ItemType;
use crate::dlib::song::SongInfo;
use crate::text::{decimal, push_decimal, string_from};
use crate::tui::app::{App, AppView, CurrentMenu, Selection, TextInputDestination};
use crate::dlib::doppler_info::queue_entries_of;
use crate::tui::tables::QueueEntry;
use crate::util::print_util::{truncate_string_and_add_suffix, truncated_text, default_suffix};
use crate::util::time_util::{seconds_to_base60_string, base60_text};

verus! {

/// The keys that work everywhere.
pub open spec fn base_help() -> Seq<char> {
    "<ctrl-c> quit | ↑/↓ nav | <V/v>ol up/down | [tab] next pane | <ctrl-w> write | <ctrl-u> reload | <p>ause | s<k>ip"@
}

/// The help line at the bottom of the screen: empty while a field is typed;
/// otherwise the keys that work everywhere, then those of the pane that has
/// the focus (and, outside the playlist editor, how to open or close the
/// queue).
pub open spec fn help_text(a: AppView) -> Seq<char> {
    if a.text_input_queue.len() > 0 {
        Seq::empty()
    } else if !a.editing_playlist {
        let with_queue = base_help() + " | <shft-q> "@ + (if a.queue_open {
            "close"@
        } else {
            "open"@
        }) + " queue"@;
        match a.current_menu {
            CurrentMenu::Songs => with_queue + " | < / > search | [space] play | en<q>ueue | <u>pdate"@,
            CurrentMenu::Playlists => with_queue + " | [space] play | <r> shuffle play | <u>pdate"@,
            _ => with_queue,
        }
    } else {
        match a.current_menu {
            CurrentMenu::Songs => base_help() + " | [space] append | <i>nsert at selectd idx"@,
            CurrentMenu::PlaylistEditor => base_help() + " | <r>emove selected"@,
            _ => base_help(),
        }
    }
}

/// The hint at the right of the bottom line.
pub open spec fn typing_hint_text(a: AppView) -> Seq<char> {
    if a.text_input_queue.len() == 0 {
        " "@
    } else {
        "(Typing, <Esc> to leave, <Enter> to submit, <Ctrl-c> to clear)"@
    }
}

/// The title of the song table: `Songs ` and, while a search is typed,
/// `<search:query>`.
pub open spec fn songs_title_text(query: Seq<char>) -> Seq<char> {
    "Songs "@ + (if query.len() == 0 {
        Seq::empty()
    } else {
        "<search:"@ + query + ">"@
    })
}

/// The line under the song table: the song field being typed, if any.
pub open spec fn songs_footer_text(a: AppView) -> Seq<char> {
    if a.text_input_queue.len() == 0 {
        Seq::empty()
    } else {
        match a.text_input_queue[0] {
            TextInputDestination::SongName => "Song name: "@ + a.inputs.song_name,
            TextInputDestination::SongAlbum => "Song album: "@ + a.inputs.song_album,
            TextInputDestination::SongArtist => "Song artist: "@ + a.inputs.song_artist,
            TextInputDestination::SongDuration => "Song duration: "@ + a.inputs.duration_text,
            _ => Seq::empty(),
        }
    }
}

/// The line under the playlist table: the playlist name being typed, if any.
pub open spec fn playlists_footer_text(a: AppView) -> Seq<char> {
    if a.text_input_queue.len() > 0 && (a.text_input_queue[0] == TextInputDestination::PlaylistNameUpdate
        || a.text_input_queue[0] == TextInputDestination::PlaylistNameAdd) {
        "Playlist name: "@ + a.inputs.playlist_name
    } else {
        Seq::empty()
    }
}

/// The ids waiting in the queue.
pub open spec fn queued_ids(a: AppView) -> Seq<(u32, ItemType)> {
    match a.dinfo.queue {
        Some(q) => q.queue,
        None => Seq::empty(),
    }
}

/// The total length of the entries of the queue table, in seconds.
pub open spec fn entries_seconds(e: Seq<QueueEntry>) -> int
    decreases e.len(),
{
    if e.len() == 0 {
        0
    } else {
        entries_seconds(e.drop_last()) + e.last().duration
    }
}

/// The title of the queue pane: how many songs wait and for how long.
pub open spec fn queue_title_text(count: nat, seconds: nat) -> Seq<char> {
    "("@ + decimal(count) + ", "@ + base60_text(seconds) + ") Queue"@
}

/// The title of the playlist editor for the selected playlist: `Editing `, a
/// `*` when the playlist changed since it was written, and its name.
pub open spec fn editor_title_text(a: AppView, sel: Selection) -> Seq<char> {
    match sel.playlist {
        Some(id) => match playlist_by_id(a.dinfo, id) {
            Some(p) => "Editing "@ + (if p.file_entry_up_to_date {
                Seq::empty()
            } else {
                "*"@
            }) + p.name@,
            None => "No playlist selected"@,
        },
        None => "No playlist selected"@,
    }
}

/// The song that is playing, as the index finds it.
pub open spec fn playing_song(a: AppView) -> Option<SongInfo> {
    match a.dinfo.currently_playing {
        Some(id) => song_by_id(a.dinfo, id),
        None => None,
    }
}

/// The lines of the now-playing pane above the seek bar, for a pane `width`
/// bytes wide, `progress` seconds into the song.
pub open spec fn now_playing_text(song: Option<SongInfo>, width: int, progress: u32) -> Seq<Seq<char>> {
    match song {
        Some(s) => seq![
            truncated_text(s.name@, width, default_suffix()),
            truncated_text("on "@ + s.album@, width, default_suffix()),
            truncated_text(s.artist@, width, default_suffix()),
            base60_text(progress as nat) + "/"@ + base60_text(s.duration as nat),
        ],
        None => seq!["Nothing"@, "on Nothing"@, "Nobody"@, "0:00/0:00"@],
    }
}

/// The sign in front of the seek bar: play while paused, pause while playing.
pub open spec fn pause_marker_text(paused: bool) -> Seq<char> {
    if paused {
        "|> "@
    } else {
        "|| "@
    }
}

/// The line of the lyrics pane that is shown as the current one.
pub const CURRENT_LYRIC_POS: usize = 1;

/// The texts of lines.
pub open spec fn texts(lines: Seq<String>) -> Seq<Seq<char>> {
    lines.map_values(|s: String| s@)
}

/// What the lyrics pane shows for `lyrics` at `progress` seconds on `height`
/// lines, and whether the lines follow the song (so that the current one is
/// marked): synced lyrics from the line before the current one, all lines of
/// unsynced ones, or a notice.
pub open spec fn lyric_panel_text(lyrics: Option<crate::dlib::lyrics::LyricView>, progress: u32, height: int) -> (Seq<Seq<char>>, bool) {
    match lyrics {
        Some(l) => if l.is_synced {
            match first_due(l.timings->0, lookup_time(progress)) {
                Some(p) => (texts(window(
                    l.lyrics,
                    if p >= CURRENT_LYRIC_POS { p - CURRENT_LYRIC_POS } else { 0 },
                    height,
                )), true),
                None => (seq!["Failed to get lyrics"@], true),
            }
        } else {
            (texts(l.lyrics), false)
        },
        None => (seq!["No lyrics associated"@], false),
    }
}

/// The position of the first lyrics of song `id`.
pub open spec fn first_lyrics_of(l: Seq<LyricInfo>, id: u32) -> Option<int> {
    if exists|i: int| 0 <= i < l.len() && l[i].song_id == Some(id) && forall|j: int| 0 <= j < i ==> l[j].song_id != Some(id) {
        Some(choose|i: int| 0 <= i < l.len() && l[i].song_id == Some(id) && forall|j: int| 0 <= j < i ==> l[j].song_id != Some(id))
    } else {
        None
    }
}

/// Which panes the screen shows besides the song table, the playlist table
/// and the now-playing pane.
#[derive(Debug, Clone, Copy, PartialEq, Eq, Structural)]
pub struct Panes {
    pub queue: bool,
    pub playlist_editor: bool,
    pub lyrics: bool,
    pub log: bool,
}

/// The panes shown for `a`: the queue when it is open, otherwise the
/// playlist editor while a playlist is edited; the lyrics when open; the
/// log while it holds a message.
pub open spec fn panes_of(a: AppView) -> Panes {
    Panes {
        queue: a.queue_open,
        playlist_editor: !a.queue_open && a.editing_playlist,
        lyrics: a.lyrics_open,
        log: a.messages.len() > 0,
    }
}

/// The pause marker.
pub fn pause_marker(paused: bool) -> (m: &'static str)
    ensures
        m@ == pause_marker_text(paused),
{
    if paused {
        "|> "
    } else {
        "|| "
    }
}

/// The title of the song table for the search `query`.
pub fn songs_title(query: &str) -> (t: String)
    ensures
        t@ == songs_title_text(query@),
{
    let mut t = string_from("Songs ");
    if !query.is_empty() {
        t.push_str("<search:");
        t.push_str(query);
        t.push_str(">");
    } else {
        proof {
            assert(t@ =~= songs_title_text(query@));
        }
    }
    t
}

/// The title of the queue pane.
pub fn queue_title(count: usize, seconds: u32) -> (t: String)
    ensures
        t@ == queue_title_text(count as nat, seconds as nat),
{
    let mut t = string_from("(");
    push_decimal(&mut t, count as u64);
    t.push_str(", ");
    let d = seconds_to_base60_string(seconds);
    t.push_str(d.as_str());
    t.push_str(") Queue");
    t
}

/// The total length of queue entries, or `None` when it does not fit in
/// `u32` seconds.
pub fn entries_total(entries: &Vec<QueueEntry>) -> (r: Option<u32>)
    ensures
        match r {
            Some(s) => s == entries_seconds(entries@),
            None => entries_seconds(entries@) > u32::MAX,
        },
{
    let mut total: u32 = 0;
    let n = entries.len();
    for i in 0..n
        invariant
            n == entries@.len(),
            total == entries_seconds(entries@.take(i as int)),
    {
        assert(entries@.take(i + 1).drop_last() =~= entries@.take(i as int));
        let d = entries[i].duration;
        if d > u32::MAX - total {
            proof {
                lemma_entries_seconds_grow(entries@, (i + 1) as int);
            }
            return None;
        }
        total = total + d;
    }
    assert(entries@.take(n as int) =~= entries@);
    Some(total)
}

/// The total of a prefix is no more than the total of the whole.
proof fn lemma_entries_seconds_grow(e: Seq<QueueEntry>, k: int)
    requires
        0 <= k <= e.len(),
    ensures
        entries_seconds(e.take(k)) <= entries_seconds(e),
    decreases e.len() - k,
{
    if k < e.len() {
        lemma_entries_seconds_grow(e, k + 1);
        assert(e.take(k + 1).drop_last() =~= e.take(k));
    } else {
        assert(e.take(k) =~= e);
    }
}

/// The lines of the now-playing pane above the seek bar.
pub fn now_playing_lines(song: &Option<SongInfo>, width: usize, progress: u32) -> (lines: Vec<String>)
    ensures
        lines@.map_values(|s: String| s@) == now_playing_text(*song, width as int, progress),
{
    let mut lines: Vec<String> = Vec::new();
    match song {
        Some(s) => {
            lines.push(truncate_string_and_add_suffix(s.name.as_str(), width, None));
            let mut on = string_from("on ");
            on.push_str(s.album.as_str());
            lines.push(truncate_string_and_add_suffix(on.as_str(), width, None));
            lines.push(truncate_string_and_add_suffix(s.artist.as_str(), width, None));
            let mut d = seconds_to_base60_string(progress);
            d.push_str("/");
            let total = seconds_to_base60_string(s.duration);
            d.push_str(total.as_str());
            lines.push(d);
        },
        None => {
            lines.push(string_from("Nothing"));
            lines.push(string_from("on Nothing"));
            lines.push(string_from("Nobody"));
            lines.push(string_from("0:00/0:00"));
        },
    }
    assert(lines@.map_values(|s: String| s@) =~= now_playing_text(*song, width as int, progress));
    lines
}

/// The first lyrics of song `id` in `lyrics`.
pub fn lyrics_for_song(lyrics: &Vec<LyricInfo>, id: u32) -> (r: Option<&LyricInfo>)
    ensures
        match first_lyrics_of(lyrics@, id) {
            Some(i) => r == Some(&lyrics@[i]),
            None => r is None,
        },
{
    let n = lyrics.len();
    for i in 0..n
        invariant
            n == lyrics@.len(),
            forall|j: int| 0 <= j < i ==> lyrics@[j].song_id != Some(id),
    {
        if lyrics[i].song_id == Some(id) {
            proof {
                let w = choose|k: int| 0 <= k < lyrics@.len() && lyrics@[k].song_id == Some(id) && forall|j: int| 0 <= j < k ==> lyrics@[j].song_id != Some(id);
                assert(0 <= i < lyrics@.len() && lyrics@[i as int].song_id == Some(id) && forall|j: int| 0 <= j < i ==> lyrics@[j].song_id != Some(id));
                if w < i {
                } else if w > i {
                }
            }
            return Some(&lyrics[i]);
        }
    }
    None
}

/// A copy of `lines`.
fn clone_lines(lines: &Vec<String>) -> (r: Vec<String>)
    ensures
        r@ == lines@,
{
    let mut r: Vec<String> = Vec::new();
    for i in 0..lines.len()
        invariant
            r@ == lines@.take(i as int),
    {
        r.push(lines[i].clone());
        assert(r@ =~= lines@.take(i + 1));
    }
    assert(lines@.take(lines@.len() as int) =~= lines@);
    r
}

/// What the lyrics pane shows, and whether its lines follow the song.
pub fn lyric_panel_lines(lyrics: Option<&LyricInfo>, progress: u32, height: usize) -> (r: (Vec<String>, bool))
    requires
        lyrics matches Some(l) ==> (l@.is_synced ==> l@.timings is Some),
    ensures
        (texts(r.0@), r.1) == lyric_panel_text(
            match lyrics {
                Some(l) => Some(l@),
                None => None,
            },
            progress,
            height as int,
        ),
{
    match lyrics {
        Some(l) => {
            if l.is_synced {
                match l.get_lyrics_around_time(progress, CURRENT_LYRIC_POS, height) {
                    Some(lines) => (lines, true),
                    None => {
                        let v = vec![string_from("Failed to get lyrics")];
                        assert(texts(v@) =~= seq!["Failed to get lyrics"@]);
                        (v, true)
                    },
                }
            } else {
                (clone_lines(&l.lyrics), false)
            }
        },
        None => {
            let v = vec![string_from("No lyrics associated")];
            assert(texts(v@) =~= seq!["No lyrics associated"@]);
            (v, false)
        },
    }
}

impl App {
    /// The help line at the bottom of the screen.
    pub fn help_line(&self) -> (h: String)
        ensures
            h@ == help_text(self@),
    {
        let mut s = String::new();
        if self.text_input_queue.len() > 0 {
            proof {
                assert(s@ =~= help_text(self@));
            }
            return s;
        }
        s.push_str("<ctrl-c> quit | ↑/↓ nav | <V/v>ol up/down | [tab] next pane | <ctrl-w> write | <ctrl-u> reload | <p>ause | s<k>ip");
        proof {
            assert(s@ =~= base_help());
        }
        if !self.editing_playlist {
            s.push_str(" | <shft-q> ");
            s.push_str(if self.queue_open { "close" } else { "open" });
            s.push_str(" queue");
            match self.current_menu {
                CurrentMenu::Songs => s.push_str(" | < / > search | [space] play | en<q>ueue | <u>pdate"),
                CurrentMenu::Playlists => s.push_str(" | [space] play | <r> shuffle play | <u>pdate"),
                _ => {},
            }
        } else {
            match self.current_menu {
                CurrentMenu::Songs => s.push_str(" | [space] append | <i>nsert at selectd idx"),
                CurrentMenu::PlaylistEditor => s.push_str(" | <r>emove selected"),
                _ => {},
            }
        }
        s
    }

    /// The panes that the screen shows.
    pub fn panes(&self) -> (p: Panes)
        ensures
            p == panes_of(self@),
    {
        Panes {
            queue: self.queue_open,
            playlist_editor: !self.queue_open && self.editing_playlist,
            lyrics: self.lyrics_open,
            log: self.messages.len() > 0,
        }
    }

    /// The hint at the right of the bottom line.
    pub fn typing_hint(&self) -> (h: &'static str)
        ensures
            h@ == typing_hint_text(self@),
    {
        if self.text_input_queue.len() == 0 {
            " "
        } else {
            "(Typing, <Esc> to leave, <Enter> to submit, <Ctrl-c> to clear)"
        }
    }

    /// The title of the song table.
    pub fn songs_table_title(&self) -> (t: String)
        ensures
            t@ == songs_title_text(self@.inputs.search_query),
    {
        songs_title(self.text_inputs.search_query.as_str())
    }

    /// The line under the song table.
    pub fn songs_footer(&self) -> (t: String)
        ensures
            t@ == songs_footer_text(self@),
    {
        if self.text_input_queue.len() == 0 {
            return String::new();
        }
        let (label, field): (&str, &String) = match self.text_input_queue[0] {
            TextInputDestination::SongName => ("Song name: ", &self.text_inputs.song_name),
            TextInputDestination::SongAlbum => ("Song album: ", &self.text_inputs.song_album),
            TextInputDestination::SongArtist => ("Song artist: ", &self.text_inputs.song_artist),
            TextInputDestination::SongDuration => ("Song duration: ", &self.text_inputs.song_duration.0),
            _ => {
                return String::new();
            },
        };
        let mut t = string_from(label);
        t.push_str(field.as_str());
        t
    }

    /// The line under the playlist table.
    pub fn playlists_footer(&self) -> (t: String)
        ensures
            t@ == playlists_footer_text(self@),
    {
        if self.text_input_queue.len() > 0 && (self.text_input_queue[0] == TextInputDestination::PlaylistNameUpdate
            || self.text_input_queue[0] == TextInputDestination::PlaylistNameAdd) {
            let mut t = string_from("Playlist name: ");
            t.push_str(self.text_inputs.playlist_name.as_str());
            t
        } else {
            String::new()
        }
    }

    /// The title of the queue pane: the number of queued songs and their
    /// total length, or `None` when that length does not fit in `u32`
    /// seconds.
    pub fn queue_pane_title(&self) -> (t: Option<String>)
        ensures
            ({
                let e = match self@.dinfo.queue {
                    Some(q) => queue_entries_of(self@.dinfo, q.queue),
                    None => Seq::empty(),
                };
                match t {
                    Some(s) => entries_seconds(e) <= u32::MAX && s@ == queue_title_text(
                        queued_ids(self@).len(),
                        entries_seconds(e) as nat,
                    ),
                    None => entries_seconds(e) > u32::MAX,
                }
            }),
    {
        let count = self.dinfo.queue_len();
        let entries = self.dinfo.queue_entries();
        match entries_total(&entries) {
            Some(total) => Some(queue_title(count, total)),
            None => None,
        }
    }

    /// The title of the playlist editor.
    pub fn editor_title(&self, sel: Selection) -> (t: String)
        ensures
            t@ == editor_title_text(self@, sel),
    {
        if let Some(id) = sel.playlist {
            if let Some(p) = self.dinfo.get_playlist_by_id(id) {
                let mut t = string_from("Editing ");
                if !p.file_entry_up_to_date {
                    t.push_str("*");
                } else {
                    proof {
                        assert(t@ =~= "Editing "@ + Seq::<char>::empty());
                    }
                }
                t.push_str(p.name.as_str());
                return t;
            }
        }
        string_from("No playlist selected")
    }

    /// The song that is playing, as the index finds it.
    pub fn playing(&self) -> (s: Option<SongInfo>)
        ensures
            s == playing_song(self@),
    {
        self.dinfo.current_song()
    }
}

} // verus!
