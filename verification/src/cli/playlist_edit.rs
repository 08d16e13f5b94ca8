//! Adding songs to a playlist line by line: what each typed line does to the
//! library, and what the prompt loop shows or asks next.
use vstd::prelude::*;
use crate::cli::parser::{classify_edit_input, edit_input_of, chars_equal, parse_id, EditInput};
use crate::dlib::doppler_info::{
    DopplerInfo, DopplerView, has_song, playlist_index, playlist_replaced, playlist_add_rel, playlist_insert_rel,
};
use crate::dlib::playlist::PlaylistView;
use crate::error::DopplerError;
use crate::text::{parse_unsigned, ParseNumberError};
use crate::util::print_util::{trim_text, trimmed_chars};

verus! {

/// What a line typed while adding songs did, and what comes next.
#[derive(Debug, Clone, Copy, PartialEq, Eq, Structural)]
pub enum EditStep {
    /// `list`: show the playlist's songs with their positions.
    ShowSongs,
    /// The song at this position was taken out.
    Removed(usize),
    /// Ask for the id of the song to put at this position.
    AskInsertId(usize),
    /// The song was appended.
    Added,
    /// The playlist already holds this song: ask whether to add it again.
    AskForceAdd(u32),
    /// No song has the id typed.
    NoSuchSong,
    /// The line is no song id: adding songs ends.
    Leave(ParseNumberError),
}

/// What asking for the id of a song to insert came to.
#[derive(Debug, Clone, Copy, PartialEq, Eq, Structural)]
pub enum InsertStep {
    /// The song went in at the position.
    Inserted(u32, usize),
    /// The playlist refused the position.
    Refused(DopplerError),
    /// The answer was no song id.
    BadId(ParseNumberError),
}

/// The line `t` (without surrounding white space), typed while adding songs
/// to the playlist `playlist`, took the library from `v` to `w` with outcome
/// `step`.
pub open spec fn edit_step_rel(v: DopplerView, playlist: u32, t: Seq<char>, w: DopplerView, step: EditStep) -> bool {
    let idx = playlist_index(v, playlist)->0;
    let p = v.playlists[idx]@;
    match edit_input_of(t, p.songs.len()) {
        EditInput::List => w == v && step == EditStep::ShowSongs,
        EditInput::Remove(i) => step == EditStep::Removed(i) && playlist_replaced(
            v,
            w,
            idx,
            PlaylistView { songs: p.songs.remove(i as int), file_entry_up_to_date: false, ..p },
        ),
        EditInput::Insert(i) => w == v && step == EditStep::AskInsertId(i),
        EditInput::SongId(id) => if !has_song(v.songs, id) {
            w == v && step == EditStep::NoSuchSong
        } else if p.songs.contains(id) {
            step == EditStep::AskForceAdd(id) && playlist_replaced(v, w, idx, p)
        } else {
            step == EditStep::Added && playlist_replaced(
                v,
                w,
                idx,
                PlaylistView { songs: p.songs.push(id), file_entry_up_to_date: false, ..p },
            )
        },
        EditInput::Stop(e) => w == v && step == EditStep::Leave(e),
    }
}

/// Handles one line typed while adding songs to the playlist `playlist`.
pub fn playlist_edit_step(d: &mut DopplerInfo, playlist: u32, input: &str) -> (step: EditStep)
    requires
        playlist_index(old(d)@, playlist) is Some,
    ensures
        edit_step_rel(old(d)@, playlist, trim_text(input@), final(d)@, step),
{
    let count = match d.playlist_song_count(playlist) {
        Some(n) => n,
        None => 0,
    };
    match classify_edit_input(input, count) {
        EditInput::List => EditStep::ShowSongs,
        EditInput::Remove(i) => {
            let _ = d.playlist_remove_song(playlist, i);
            EditStep::Removed(i)
        },
        EditInput::Insert(i) => EditStep::AskInsertId(i),
        EditInput::SongId(id) => {
            if !d.has_song_with_id(id) {
                return EditStep::NoSuchSong;
            }
            match d.playlist_add_song(playlist, id) {
                Ok(()) => EditStep::Added,
                Err(_) => EditStep::AskForceAdd(id),
            }
        },
        EditInput::Stop(e) => EditStep::Leave(e),
    }
}

/// Reads the answer to "ID of song to insert" and inserts that song at `at`.
pub fn playlist_insert_step(d: &mut DopplerInfo, playlist: u32, at: usize, input: &str) -> (step: InsertStep)
    ensures
        match parse_unsigned(trim_text(input@), u32::MAX as nat) {
            Err(e) => final(d)@ == old(d)@ && step == InsertStep::BadId(e),
            Ok(n) => exists|r: Result<(), DopplerError>| #[trigger] playlist_insert_rel(old(d)@, playlist, at, n as u32, final(d)@, r)
                && step == match r {
                    Ok(()) => InsertStep::Inserted(n as u32, at),
                    Err(e) => InsertStep::Refused(e),
                },
        },
{
    match parse_id(input) {
        Err(e) => InsertStep::BadId(e),
        Ok(id) => {
            let r = d.playlist_insert_song(playlist, at, id);
            match r {
                Ok(()) => InsertStep::Inserted(id, at),
                Err(e) => InsertStep::Refused(e),
            }
        },
    }
}

/// Reads the answer to "Add anyways? (y/n)": on `y` the song is appended
/// again.
pub fn confirm_force_add(d: &mut DopplerInfo, playlist: u32, song: u32, answer: &str) -> (added: bool)
    ensures
        added == (trim_text(answer@) == "y"@),
        !added ==> final(d)@ == old(d)@,
        added ==> match playlist_index(old(d)@, playlist) {
            Some(idx) => playlist_replaced(old(d)@, final(d)@, idx, PlaylistView {
                songs: old(d)@.playlists[idx]@.songs.push(song),
                file_entry_up_to_date: false,
                ..old(d)@.playlists[idx]@
            }),
            None => final(d)@ == old(d)@,
        },
{
    let t = trimmed_chars(answer);
    if chars_equal(&t, "y") {
        d.playlist_force_add_song(playlist, song);
        true
    } else {
        false
    }
}

} // verus!
