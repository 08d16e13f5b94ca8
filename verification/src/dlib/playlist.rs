//! A playlist: a named list of song ids.
use vstd::prelude::*;
use crate::error::DopplerError;
use crate::dlib::playlist_iter::PlaylistIter;

verus! {

/// A playlist: its name, the ids of its songs in order, and its own id.
#[derive(Debug)]
pub struct PlaylistInfo {
    pub name: String,
    pub songs: Vec<u32>,
    pub id: Option<u32>,
    /// Whether the playlists file already holds this entry as it stands.
    pub file_entry_up_to_date: bool,
}

/// The contents of a playlist as plain values.
pub struct PlaylistView {
    pub name: Seq<char>,
    pub songs: Seq<u32>,
    pub id: Option<u32>,
    pub file_entry_up_to_date: bool,
}

impl View for PlaylistInfo {
    type V = PlaylistView;

    open spec fn view(&self) -> PlaylistView {
        PlaylistView {
            name: self.name@,
            songs: self.songs@,
            id: self.id,
            file_entry_up_to_date: self.file_entry_up_to_date,
        }
    }
}

impl Clone for PlaylistInfo {
    fn clone(&self) -> (r: Self)
        ensures
            r@ == self@,
    {
        let mut songs: Vec<u32> = Vec::new();
        let n = self.songs.len();
        for i in 0..n
            invariant
                n == self.songs@.len(),
                songs@ =~= self.songs@.take(i as int),
        {
            songs.push(self.songs[i]);
        }
        assert(self.songs@.take(n as int) =~= self.songs@);
        PlaylistInfo {
            name: self.name.clone(),
            songs,
            id: self.id,
            file_entry_up_to_date: self.file_entry_up_to_date,
        }
    }
}

impl Default for PlaylistInfo {
    fn default() -> (p: Self)
        ensures
            p@.name == Seq::<char>::empty(),
            p@.songs == Seq::<u32>::empty(),
            p@.id is None,
            !p@.file_entry_up_to_date,
    {
        Self::new()
    }
}

impl PlaylistInfo {
    /// An empty playlist with an empty name and no id.
    pub fn new() -> (p: Self)
        ensures
            p@.name == Seq::<char>::empty(),
            p@.songs == Seq::<u32>::empty(),
            p@.id is None,
            !p@.file_entry_up_to_date,
    {
        PlaylistInfo { name: String::new(), songs: Vec::new(), id: None, file_entry_up_to_date: false }
    }

    /// Appends the song `id`, unless the playlist already holds it.
    pub fn add_song(&mut self, id: u32) -> (r: Result<(), DopplerError>)
        ensures
            old(self)@.songs.contains(id) ==> r == Err::<(), DopplerError>(DopplerError::SongAlreadyInPlaylist)
                && final(self)@ == old(self)@,
            !old(self)@.songs.contains(id) ==> r is Ok && final(self)@ == (PlaylistView {
                songs: old(self)@.songs.push(id),
                file_entry_up_to_date: false,
                ..old(self)@
            }),
    {
        let n = self.songs.len();
        for i in 0..n
            invariant
                n == self.songs@.len(),
                forall|j: int| 0 <= j < i ==> self.songs@[j] != id,
        {
            if self.songs[i] == id {
                return Err(DopplerError::SongAlreadyInPlaylist);
            }
        }
        self.songs.push(id);
        self.file_entry_up_to_date = false;
        Ok(())
    }

    /// Removes the song at position `idx`.
    pub fn remove_song(&mut self, idx: usize) -> (r: Result<(), DopplerError>)
        ensures
            idx < old(self)@.songs.len() ==> r is Ok && final(self)@ == (PlaylistView {
                songs: old(self)@.songs.remove(idx as int),
                file_entry_up_to_date: false,
                ..old(self)@
            }),
            idx >= old(self)@.songs.len() ==> r == Err::<(), DopplerError>(DopplerError::IndexOutOfBounds)
                && final(self)@ == old(self)@,
    {
        if idx < self.songs.len() {
            self.songs.remove(idx);
            self.file_entry_up_to_date = false;
            Ok(())
        } else {
            Err(DopplerError::IndexOutOfBounds)
        }
    }

    /// Inserts the song `id` at position `idx`; a position beyond the end is
    /// refused.
    pub fn insert_song(&mut self, idx: usize, id: u32) -> (r: Result<(), DopplerError>)
        ensures
            idx <= old(self)@.songs.len() ==> r is Ok && final(self)@ == (PlaylistView {
                songs: old(self)@.songs.insert(idx as int, id),
                file_entry_up_to_date: false,
                ..old(self)@
            }),
            idx > old(self)@.songs.len() ==> r == Err::<(), DopplerError>(DopplerError::IndexOutOfBounds)
                && final(self)@ == old(self)@,
    {
        if idx <= self.songs.len() {
            self.songs.insert(idx, id);
            self.file_entry_up_to_date = false;
            Ok(())
        } else {
            Err(DopplerError::IndexOutOfBounds)
        }
    }

    /// Appends the song `id`, whether or not the playlist already holds it.
    pub fn force_add_song(&mut self, id: u32)
        ensures
            final(self)@ == (PlaylistView {
                songs: old(self)@.songs.push(id),
                file_entry_up_to_date: false,
                ..old(self)@
            }),
    {
        self.songs.push(id);
        self.file_entry_up_to_date = false;
    }

    /// A play queue that holds the songs of the playlist in order.
    pub fn dynamic_iter(&self) -> (it: PlaylistIter)
        ensures
            it@ == PlaylistIter::fresh(self@.songs),
    {
        PlaylistIter::new(self.songs.as_slice())
    }
}

/// Law: `add_song` keeps a playlist free of repeated songs: when it appends
/// (the song was not there), a list without repeats stays without repeats.
pub proof fn law_add_song_keeps_songs_distinct(songs: Seq<u32>, id: u32)
    requires
        songs.no_duplicates(),
        !songs.contains(id),
    ensures
        songs.push(id).no_duplicates(),
{
    let s2 = songs.push(id);
    assert forall|i: int, j: int| 0 <= i < s2.len() && 0 <= j < s2.len() && i != j implies s2[i] != s2[j] by {
        if i == songs.len() as int {
            assert(songs[j] == s2[j]);
        } else if j == songs.len() as int {
            assert(songs[i] == s2[i]);
        }
    }
}

/// Law: removing the last song right after `add_song` or `force_add_song`
/// appended it gives back the songs the playlist had.
pub proof fn law_remove_undoes_add(songs: Seq<u32>, id: u32)
    ensures
        songs.push(id).remove(songs.len() as int) == songs,
{
    assert(songs.push(id).remove(songs.len() as int) =~= songs);
}

} // verus!
