//! The catalogue of songs and playlists, the marks of what is to be removed,
//! and the play queue with the song now playing.
use std::collections::{HashMap, HashSet};
use vstd::prelude::*;
use crate::dlib::playlist::{PlaylistInfo, PlaylistView};
use crate::dlib::playlist_iter::{PlaylistIter, PlaylistIterView, ItemType};
use crate::dlib::song::{SongInfo, song_ids, is_last_index_map, last_index_map, indices_from_song_list};
use crate::error::DopplerError;
use crate::tui::tables::QueueEntry;

verus! {

broadcast use vstd::std_specs::hash::group_hash_axioms;

/// The state of the player's library.
#[derive(Debug)]
pub struct DopplerInfo {
    pub songs: Vec<SongInfo>,
    pub playlists: Vec<PlaylistInfo>,
    /// The position in `songs` of the song with each id.
    pub song_indices: HashMap<u32, usize>,
    /// The position in `playlists` of the playlist with each id.
    pub playlist_indices: HashMap<u32, usize>,
    removed_songs: HashSet<u32>,
    removed_playlists: HashSet<u32>,
    max_song_id: Option<u32>,
    max_playlist_id: Option<u32>,
    /// The songs waiting to be played.
    pub enqueued_playlist: Option<PlaylistIter>,
    /// Whether the queue changed since the display last showed it.
    pub queue_dirty: bool,
    pub currently_playing: Option<u32>,
}

/// The state of the library as plain values.
pub struct DopplerView {
    pub songs: Seq<SongInfo>,
    pub playlists: Seq<PlaylistInfo>,
    pub song_indices: Map<u32, usize>,
    pub playlist_indices: Map<u32, usize>,
    pub removed_songs: Set<u32>,
    pub removed_playlists: Set<u32>,
    pub max_song_id: Option<u32>,
    pub max_playlist_id: Option<u32>,
    pub queue: Option<PlaylistIterView>,
    pub queue_dirty: bool,
    pub currently_playing: Option<u32>,
}

impl View for DopplerInfo {
    type V = DopplerView;

    closed spec fn view(&self) -> DopplerView {
        DopplerView {
            songs: self.songs@,
            playlists: self.playlists@,
            song_indices: self.song_indices@,
            playlist_indices: self.playlist_indices@,
            removed_songs: self.removed_songs@,
            removed_playlists: self.removed_playlists@,
            max_song_id: self.max_song_id,
            max_playlist_id: self.max_playlist_id,
            queue: match &self.enqueued_playlist {
                Some(q) => Some(q@),
                None => None,
            },
            queue_dirty: self.queue_dirty,
            currently_playing: self.currently_playing,
        }
    }
}

/// The id, or zero when there is none.
pub open spec fn id_or_zero(id: Option<u32>) -> u32 {
    match id {
        Some(i) => i,
        None => 0,
    }
}

/// The id, or `u32::MAX` when there is none.
pub open spec fn id_or_max(id: Option<u32>) -> u32 {
    match id {
        Some(i) => i,
        None => u32::MAX,
    }
}

/// The ids of a list of playlists, in order.
pub open spec fn playlist_ids(playlists: Seq<PlaylistInfo>) -> Seq<Option<u32>> {
    playlists.map_values(|p: PlaylistInfo| p.id)
}

/// The last position of `ids` that holds `id`.
pub open spec fn last_index_of(ids: Seq<Option<u32>>, id: u32) -> int {
    choose|i: int| 0 <= i < ids.len() && ids[i] == Some(id) && forall|j: int| i < j < ids.len() ==> ids[j] != Some(id)
}

/// The map from each id in `ids` to the last position that holds it.
pub open spec fn index_map_of(ids: Seq<Option<u32>>) -> Map<u32, usize> {
    Map::new(
        |id: u32| exists|i: int| 0 <= i < ids.len() && ids[i] == Some(id),
        |id: u32| last_index_of(ids, id) as usize,
    )
}

/// The highest of the ids, counting a missing id as zero; `None` for no ids.
pub open spec fn max_id(ids: Seq<Option<u32>>) -> Option<u32>
    decreases ids.len(),
{
    if ids.len() == 0 {
        None
    } else {
        let x = id_or_zero(ids.last());
        match max_id(ids.drop_last()) {
            None => Some(x),
            Some(m) => Some(if m >= x { m } else { x }),
        }
    }
}

/// The song that the index records under `id`, if the index holds `id` and
/// the position it records lies inside the list.
pub open spec fn song_by_id(v: DopplerView, id: u32) -> Option<SongInfo> {
    if v.song_indices.contains_key(id) && v.song_indices[id] < v.songs.len() {
        Some(v.songs[v.song_indices[id] as int])
    } else {
        None
    }
}

/// The playlist that the index records under `id`, if the index holds `id`
/// and the position it records lies inside the list.
pub open spec fn playlist_by_id(v: DopplerView, id: u32) -> Option<PlaylistInfo> {
    if v.playlist_indices.contains_key(id) && v.playlist_indices[id] < v.playlists.len() {
        Some(v.playlists[v.playlist_indices[id] as int])
    } else {
        None
    }
}

/// A new song may not take the id `i`: it lies below the highest id given out
/// so far, or a song already has it (a song without an id counts as having
/// `u32::MAX`).
pub open spec fn song_id_taken(v: DopplerView, i: u32) -> bool {
    ||| i < id_or_zero(v.max_song_id)
    ||| exists|k: int| 0 <= k < v.songs.len() && id_or_max(v.songs[k].id) == i
}

/// A new playlist may not take the id `i`, as for songs.
pub open spec fn playlist_id_taken(v: DopplerView, i: u32) -> bool {
    ||| i < id_or_zero(v.max_playlist_id)
    ||| exists|k: int| 0 <= k < v.playlists.len() && id_or_max(v.playlists[k].id) == i
}

/// The library after `add_song(song)`, and what the call reports.
pub open spec fn add_song_outcome(v: DopplerView, song: SongInfo) -> (DopplerView, Result<(), DopplerError>) {
    match song.id {
        Some(i) => if song_id_taken(v, i) {
            (v, Err(DopplerError::SongIdTaken))
        } else {
            (DopplerView {
                songs: v.songs.push(SongInfo { file_entry_up_to_date: false, ..song }),
                max_song_id: if i > id_or_zero(v.max_song_id) { Some(i) } else { v.max_song_id },
                ..v
            }, Ok(()))
        },
        None => {
            let new_id = (id_or_zero(v.max_song_id) + 1) as u32;
            let songs = v.songs.push(SongInfo { id: Some(new_id), file_entry_up_to_date: false, ..song });
            (DopplerView {
                songs,
                max_song_id: Some(new_id),
                song_indices: index_map_of(song_ids(songs)),
                ..v
            }, Ok(()))
        },
    }
}

/// The library after `add_playlist(playlist)`, and what the call reports.
pub open spec fn add_playlist_outcome(v: DopplerView, playlist: PlaylistInfo) -> (DopplerView, Result<(), DopplerError>) {
    match playlist.id {
        Some(i) => if playlist_id_taken(v, i) {
            (v, Err(DopplerError::PlaylistIdTaken))
        } else {
            (DopplerView {
                playlists: v.playlists.push(PlaylistInfo { file_entry_up_to_date: false, ..playlist }),
                max_playlist_id: if i > id_or_zero(v.max_playlist_id) { Some(i) } else { v.max_playlist_id },
                ..v
            }, Ok(()))
        },
        None => {
            let new_id = (id_or_zero(v.max_playlist_id) + 1) as u32;
            let playlists = v.playlists.push(PlaylistInfo { id: Some(new_id), file_entry_up_to_date: false, ..playlist });
            (DopplerView {
                playlists,
                max_playlist_id: Some(new_id),
                playlist_indices: index_map_of(playlist_ids(playlists)),
                ..v
            }, Ok(()))
        },
    }
}

/// Whether some song has the id `id`.
pub open spec fn has_song(songs: Seq<SongInfo>, id: u32) -> bool {
    exists|k: int| 0 <= k < songs.len() && songs[k].id == Some(id)
}

/// Whether some playlist has the id `id`.
pub open spec fn has_playlist(playlists: Seq<PlaylistInfo>, id: u32) -> bool {
    exists|k: int| 0 <= k < playlists.len() && playlists[k].id == Some(id)
}

/// Whether `k` is the first position of `keys` that holds `key`.
pub open spec fn is_first_with(keys: Seq<u32>, key: u32, k: int) -> bool {
    &&& 0 <= k < keys.len()
    &&& keys[k] == key
    &&& forall|j: int| 0 <= j < k ==> keys[j] != key
}

/// The first position of `keys` that holds `key`, if any.
pub open spec fn first_with(keys: Seq<u32>, key: u32) -> Option<int> {
    if exists|k: int| is_first_with(keys, key, k) {
        Some(choose|k: int| is_first_with(keys, key, k))
    } else {
        None
    }
}

/// The ids of the songs, a missing id read as zero, as `update_song` matches them.
pub open spec fn song_keys(songs: Seq<SongInfo>) -> Seq<u32> {
    songs.map_values(|s: SongInfo| id_or_zero(s.id))
}

/// The ids of the playlists, a missing id read as zero.
pub open spec fn playlist_keys(playlists: Seq<PlaylistInfo>) -> Seq<u32> {
    playlists.map_values(|p: PlaylistInfo| id_or_zero(p.id))
}

/// The library after `update_song(song)`, and what the call reports.
pub open spec fn update_song_outcome(v: DopplerView, song: SongInfo) -> (DopplerView, Result<(), DopplerError>) {
    match song.id {
        None => (v, Err(DopplerError::SongWithoutId)),
        Some(id) => match first_with(song_keys(v.songs), id) {
            Some(k) => (DopplerView {
                songs: v.songs.update(k, SongInfo { file_entry_up_to_date: false, ..song }),
                ..v
            }, Ok(())),
            None => (v, Err(DopplerError::SongNotFound)),
        },
    }
}

/// The library after `update_playlist(playlist)`, and what the call reports.
pub open spec fn update_playlist_outcome(v: DopplerView, playlist: PlaylistInfo) -> (DopplerView, Result<(), DopplerError>) {
    match playlist.id {
        None => (v, Err(DopplerError::PlaylistWithoutId)),
        Some(id) => match first_with(playlist_keys(v.playlists), id) {
            Some(k) => (DopplerView {
                playlists: v.playlists.update(k, PlaylistInfo { file_entry_up_to_date: false, ..playlist }),
                ..v
            }, Ok(())),
            None => (v, Err(DopplerError::PlaylistNotFound)),
        },
    }
}

/// If `m` maps each id of `ids` to its last position and holds nothing else,
/// it is `index_map_of(ids)`.
pub proof fn lemma_index_map_unique(m: Map<u32, usize>, ids: Seq<Option<u32>>)
    requires
        is_last_index_map(m, ids),
    ensures
        m == index_map_of(ids),
{
    assert forall|id: u32| #[trigger] m.contains_key(id) implies m[id] == index_map_of(ids)[id] by {
        let i = m[id] as int;
        assert(0 <= i < ids.len() && ids[i] == Some(id) && forall|j: int| i < j < ids.len() ==> ids[j] != Some(id));
        let c = last_index_of(ids, id);
        if c < i {
            assert(ids[i] != Some(id));
        }
        if c > i {
            assert(ids[c] != Some(id));
        }
    }
    assert(m =~= index_map_of(ids));
}

impl DopplerInfo {
    /// The library made from the songs and playlists read from their files,
    /// each marked as up to date, with nothing marked for removal and an empty
    /// queue.
    pub fn new(songs: Vec<SongInfo>, playlists: Vec<PlaylistInfo>) -> (d: Self)
        ensures
            d@.songs == songs@.map_values(|s: SongInfo| SongInfo { file_entry_up_to_date: true, ..s }),
            d@.playlists == playlists@.map_values(|p: PlaylistInfo| PlaylistInfo { file_entry_up_to_date: true, ..p }),
            d@.song_indices == index_map_of(song_ids(d@.songs)),
            d@.playlist_indices == index_map_of(playlist_ids(d@.playlists)),
            d@.removed_songs == Set::<u32>::empty(),
            d@.removed_playlists == Set::<u32>::empty(),
            d@.max_song_id == max_id(song_ids(songs@)),
            d@.max_playlist_id == max_id(playlist_ids(playlists@)),
            forall|k: int| 0 <= k < songs@.len() ==> id_or_zero(#[trigger] songs@[k].id) <= id_or_zero(d@.max_song_id),
            forall|k: int| 0 <= k < playlists@.len() ==> id_or_zero(#[trigger] playlists@[k].id) <= id_or_zero(d@.max_playlist_id),
            d@.queue is None,
            d@.queue_dirty,
            d@.currently_playing is None,
    {
        let mut songs = songs;
        let mut marked: Vec<SongInfo> = Vec::new();
        let mut max_song_id: Option<u32> = None;
        let ghost orig = songs@;
        let n = songs.len();
        let mut i: usize = 0;
        while songs.len() > 0
            invariant
                i + songs@.len() == n,
                n == orig.len(),
                songs@ == orig.skip(i as int),
                marked@ == orig.take(i as int).map_values(|s: SongInfo| SongInfo { file_entry_up_to_date: true, ..s }),
                max_song_id == max_id(song_ids(orig.take(i as int))),
            decreases songs@.len(),
        {
            let mut s = songs.remove(0);
            proof {
                assert(orig.take(i + 1).drop_last() =~= orig.take(i as int));
                assert(song_ids(orig.take(i + 1)).drop_last() =~= song_ids(orig.take(i as int)));
                assert(orig.skip(i as int).remove(0) =~= orig.skip(i + 1));
            }
            let x: u32 = match s.id {
                Some(v) => v,
                None => 0,
            };
            max_song_id = match max_song_id {
                None => Some(x),
                Some(m) => Some(if m >= x { m } else { x }),
            };
            s.file_entry_up_to_date = true;
            marked.push(s);
            i = i + 1;
            assert(marked@ =~= orig.take(i as int).map_values(|s: SongInfo| SongInfo { file_entry_up_to_date: true, ..s }));
        }
        assert(orig.take(n as int) =~= orig);
        let mut playlists = playlists;
        let mut pmarked: Vec<PlaylistInfo> = Vec::new();
        let mut max_playlist_id: Option<u32> = None;
        let ghost porig = playlists@;
        let pn = playlists.len();
        let mut j: usize = 0;
        while playlists.len() > 0
            invariant
                j + playlists@.len() == pn,
                pn == porig.len(),
                playlists@ == porig.skip(j as int),
                pmarked@ == porig.take(j as int).map_values(|p: PlaylistInfo| PlaylistInfo { file_entry_up_to_date: true, ..p }),
                max_playlist_id == max_id(playlist_ids(porig.take(j as int))),
            decreases playlists@.len(),
        {
            let mut p = playlists.remove(0);
            proof {
                assert(porig.take(j + 1).drop_last() =~= porig.take(j as int));
                assert(playlist_ids(porig.take(j + 1)).drop_last() =~= playlist_ids(porig.take(j as int)));
                assert(porig.skip(j as int).remove(0) =~= porig.skip(j + 1));
            }
            let x: u32 = match p.id {
                Some(v) => v,
                None => 0,
            };
            max_playlist_id = match max_playlist_id {
                None => Some(x),
                Some(m) => Some(if m >= x { m } else { x }),
            };
            p.file_entry_up_to_date = true;
            pmarked.push(p);
            j = j + 1;
            assert(pmarked@ =~= porig.take(j as int).map_values(|p: PlaylistInfo| PlaylistInfo { file_entry_up_to_date: true, ..p }));
        }
        assert(porig.take(pn as int) =~= porig);
        let song_indices = indices_from_song_list(marked.as_slice());
        let playlist_indices = indices_from_playlist_list(pmarked.as_slice());
        proof {
            lemma_index_map_unique(song_indices@, song_ids(marked@));
            lemma_index_map_unique(playlist_indices@, playlist_ids(pmarked@));
            law_max_id_is_highest(song_ids(orig));
            law_max_id_is_highest(playlist_ids(porig));
            assert forall|k: int| 0 <= k < orig.len() implies id_or_zero(#[trigger] orig[k].id) <= id_or_zero(max_song_id) by {
                assert(song_ids(orig)[k] == orig[k].id);
            }
            assert forall|k: int| 0 <= k < porig.len() implies id_or_zero(#[trigger] porig[k].id) <= id_or_zero(max_playlist_id) by {
                assert(playlist_ids(porig)[k] == porig[k].id);
            }
        }
        DopplerInfo {
            songs: marked,
            playlists: pmarked,
            song_indices,
            playlist_indices,
            removed_songs: HashSet::new(),
            removed_playlists: HashSet::new(),
            max_song_id,
            max_playlist_id,
            enqueued_playlist: None,
            queue_dirty: true,
            currently_playing: None,
        }
    }
}

/// Maps the id of each playlist to the position of the last playlist that carries it.
pub fn indices_from_playlist_list(v: &[PlaylistInfo]) -> (m: HashMap<u32, usize>)
    ensures
        is_last_index_map(m@, playlist_ids(v@)),
{
    let mut ids: Vec<Option<u32>> = Vec::new();
    let n = v.len();
    for i in 0..n
        invariant
            n == v@.len(),
            ids@ =~= playlist_ids(v@.take(i as int)),
    {
        ids.push(v[i].id);
    }
    assert(v@.take(n as int) =~= v@);
    last_index_map(&ids)
}

impl DopplerInfo {
    /// The song that the index records under `id`.
    pub fn get_song_by_id(&self, id: u32) -> (r: Option<SongInfo>)
        ensures
            r == song_by_id(self@, id),
    {
        match self.song_indices.get(&id) {
            Some(idx) => {
                let idx = *idx;
                if idx < self.songs.len() {
                    Some(self.songs[idx].clone())
                } else {
                    None
                }
            },
            None => None,
        }
    }

    /// The playlist that the index records under `id`.
    pub fn get_playlist_by_id(&self, id: u32) -> (r: Option<&PlaylistInfo>)
        ensures
            match r {
                Some(p) => playlist_by_id(self@, id) == Some(*p),
                None => playlist_by_id(self@, id) is None,
            },
    {
        match self.playlist_indices.get(&id) {
            Some(idx) => {
                let idx = *idx;
                if idx < self.playlists.len() {
                    Some(&self.playlists[idx])
                } else {
                    None
                }
            },
            None => None,
        }
    }

    /// Adds a song. A song that brings its own id is refused when a song
    /// already has that id (a song without an id counts as having
    /// `u32::MAX`) or the id lies below the highest given out; otherwise it is
    /// appended and the highest id follows it, while the index of ids is left
    /// as it was. A song without an id gets the next id after the highest,
    /// and the index of ids is rebuilt.
    pub fn add_song(&mut self, song: SongInfo) -> (r: Result<(), DopplerError>)
        requires
            song.id is None ==> id_or_zero(old(self)@.max_song_id) < u32::MAX,
        ensures
            (final(self)@, r) == add_song_outcome(old(self)@, song),
    {
        let max_or_zero: u32 = match self.max_song_id {
            Some(m) => m,
            None => 0,
        };
        match song.id {
            Some(i) => {
                let taken = if i < max_or_zero {
                    true
                } else {
                    let mut found = false;
                    let n = self.songs.len();
                    for k in 0..n
                        invariant
                            n == self.songs@.len(),
                            found == exists|j: int| 0 <= j < k && id_or_max(self.songs@[j].id) == i,
                    {
                        let key: u32 = match self.songs[k].id {
                            Some(v) => v,
                            None => u32::MAX,
                        };
                        if key == i {
                            found = true;
                        }
                    }
                    found
                };
                if taken {
                    return Err(DopplerError::SongIdTaken);
                }
                let mut song = song;
                song.file_entry_up_to_date = false;
                self.max_song_id = if i > max_or_zero {
                    Some(i)
                } else {
                    self.max_song_id
                };
                self.songs.push(song);
                Ok(())
            },
            None => {
                let mut song = song;
                song.id = Some(max_or_zero + 1);
                song.file_entry_up_to_date = false;
                self.max_song_id = song.id;
                self.songs.push(song);
                let new_indices = indices_from_song_list(self.songs.as_slice());
                proof {
                    lemma_index_map_unique(new_indices@, song_ids(self.songs@));
                }
                self.song_indices = new_indices;
                Ok(())
            },
        }
    }

    /// Adds a playlist, under the same rules as `add_song`.
    pub fn add_playlist(&mut self, playlist: PlaylistInfo) -> (r: Result<(), DopplerError>)
        requires
            playlist.id is None ==> id_or_zero(old(self)@.max_playlist_id) < u32::MAX,
        ensures
            (final(self)@, r) == add_playlist_outcome(old(self)@, playlist),
    {
        let max_or_zero: u32 = match self.max_playlist_id {
            Some(m) => m,
            None => 0,
        };
        match playlist.id {
            Some(i) => {
                let taken = if i < max_or_zero {
                    true
                } else {
                    let mut found = false;
                    let n = self.playlists.len();
                    for k in 0..n
                        invariant
                            n == self.playlists@.len(),
                            found == exists|j: int| 0 <= j < k && id_or_max(self.playlists@[j].id) == i,
                    {
                        let key: u32 = match self.playlists[k].id {
                            Some(v) => v,
                            None => u32::MAX,
                        };
                        if key == i {
                            found = true;
                        }
                    }
                    found
                };
                if taken {
                    return Err(DopplerError::PlaylistIdTaken);
                }
                let mut playlist = playlist;
                playlist.file_entry_up_to_date = false;
                self.max_playlist_id = if i > max_or_zero {
                    Some(i)
                } else {
                    self.max_playlist_id
                };
                self.playlists.push(playlist);
                Ok(())
            },
            None => {
                let mut playlist = playlist;
                playlist.id = Some(max_or_zero + 1);
                playlist.file_entry_up_to_date = false;
                self.max_playlist_id = playlist.id;
                self.playlists.push(playlist);
                let new_indices = indices_from_playlist_list(self.playlists.as_slice());
                proof {
                    lemma_index_map_unique(new_indices@, playlist_ids(self.playlists@));
                }
                self.playlist_indices = new_indices;
                Ok(())
            },
        }
    }

    /// Marks the song `id` for removal at the next write of the songs file.
    pub fn remove_song(&mut self, id: u32) -> (r: Result<(), DopplerError>)
        ensures
            !has_song(old(self)@.songs, id) ==> r == Err::<(), DopplerError>(DopplerError::SongNotFound)
                && final(self)@ == old(self)@,
            has_song(old(self)@.songs, id) && old(self)@.removed_songs.contains(id) ==> r == Err::<(), DopplerError>(
                DopplerError::SongAlreadyRemoved,
            ) && final(self)@ == old(self)@,
            has_song(old(self)@.songs, id) && !old(self)@.removed_songs.contains(id) ==> r is Ok
                && final(self)@ == (DopplerView { removed_songs: old(self)@.removed_songs.insert(id), ..old(self)@ }),
    {
        let mut found = false;
        let n = self.songs.len();
        for k in 0..n
            invariant
                n == self.songs@.len(),
                found == exists|j: int| 0 <= j < k && self.songs@[j].id == Some(id),
        {
            if self.songs[k].id == Some(id) {
                found = true;
            }
        }
        if !found {
            return Err(DopplerError::SongNotFound);
        } else if self.removed_songs.contains(&id) {
            return Err(DopplerError::SongAlreadyRemoved);
        }
        self.removed_songs.insert(id);
        Ok(())
    }

    /// Marks the playlist `id` for removal at the next write of the playlists file.
    pub fn remove_playlist(&mut self, id: u32) -> (r: Result<(), DopplerError>)
        ensures
            !has_playlist(old(self)@.playlists, id) ==> r == Err::<(), DopplerError>(DopplerError::PlaylistNotFound)
                && final(self)@ == old(self)@,
            has_playlist(old(self)@.playlists, id) && old(self)@.removed_playlists.contains(id) ==> r == Err::<
                (),
                DopplerError,
            >(DopplerError::PlaylistAlreadyRemoved) && final(self)@ == old(self)@,
            has_playlist(old(self)@.playlists, id) && !old(self)@.removed_playlists.contains(id) ==> r is Ok
                && final(self)@ == (DopplerView {
                    removed_playlists: old(self)@.removed_playlists.insert(id),
                    ..old(self)@
                }),
    {
        let mut found = false;
        let n = self.playlists.len();
        for k in 0..n
            invariant
                n == self.playlists@.len(),
                found == exists|j: int| 0 <= j < k && self.playlists@[j].id == Some(id),
        {
            if self.playlists[k].id == Some(id) {
                found = true;
            }
        }
        if !found {
            return Err(DopplerError::PlaylistNotFound);
        } else if self.removed_playlists.contains(&id) {
            return Err(DopplerError::PlaylistAlreadyRemoved);
        }
        self.removed_playlists.insert(id);
        Ok(())
    }

    /// Replaces the first song whose id (a missing id read as zero) equals
    /// the id of `song` with `song`, marked as not yet written.
    pub fn update_song(&mut self, song: SongInfo) -> (r: Result<(), DopplerError>)
        ensures
            (final(self)@, r) == update_song_outcome(old(self)@, song),
    {
        let id = match song.id {
            Some(i) => i,
            None => {
                return Err(DopplerError::SongWithoutId);
            },
        };
        let n = self.songs.len();
        let mut k: usize = 0;
        while k < n
            invariant
                n == self.songs@.len(),
                k <= n,
                forall|j: int| 0 <= j < k ==> song_keys(self.songs@)[j] != id,
                self@ == old(self)@,
                song.id == Some(id),
            decreases n - k,
        {
            let key: u32 = match self.songs[k].id {
                Some(v) => v,
                None => 0,
            };
            if key == id {
                proof {
                    assert(is_first_with(song_keys(self.songs@), id, k as int));
                    let c = choose|c: int| is_first_with(song_keys(self.songs@), id, c);
                    assert(c == k);
                }
                let mut song = song;
                song.file_entry_up_to_date = false;
                self.songs.set(k, song);
                return Ok(());
            }
            k = k + 1;
        }
        Err(DopplerError::SongNotFound)
    }

    /// Replaces the first playlist whose id (a missing id read as zero)
    /// equals the id of `playlist` with `playlist`, marked as not yet written.
    pub fn update_playlist(&mut self, playlist: PlaylistInfo) -> (r: Result<(), DopplerError>)
        ensures
            (final(self)@, r) == update_playlist_outcome(old(self)@, playlist),
    {
        let id = match playlist.id {
            Some(i) => i,
            None => {
                return Err(DopplerError::PlaylistWithoutId);
            },
        };
        let n = self.playlists.len();
        let mut k: usize = 0;
        while k < n
            invariant
                n == self.playlists@.len(),
                k <= n,
                forall|j: int| 0 <= j < k ==> playlist_keys(self.playlists@)[j] != id,
                self@ == old(self)@,
                playlist.id == Some(id),
            decreases n - k,
        {
            let key: u32 = match self.playlists[k].id {
                Some(v) => v,
                None => 0,
            };
            if key == id {
                proof {
                    assert(is_first_with(playlist_keys(self.playlists@), id, k as int));
                    let c = choose|c: int| is_first_with(playlist_keys(self.playlists@), id, c);
                    assert(c == k);
                }
                let mut playlist = playlist;
                playlist.file_entry_up_to_date = false;
                self.playlists.set(k, playlist);
                return Ok(());
            }
            k = k + 1;
        }
        Err(DopplerError::PlaylistNotFound)
    }
}

/// The order in which songs are sorted: by id.
pub open spec fn song_sort_key() -> spec_fn(SongInfo) -> Option<u32> {
    |s: SongInfo| s.id
}

/// The order in which playlists are sorted: by id.
pub open spec fn playlist_sort_key() -> spec_fn(PlaylistInfo) -> Option<u32> {
    |p: PlaylistInfo| p.id
}

/// The queue table for the queue `q`: one entry for each queued song that the
/// index finds, with its place in the queue counted from one.
pub open spec fn queue_entries_of(v: DopplerView, q: Seq<(u32, ItemType)>) -> Seq<QueueEntry>
    decreases q.len(),
{
    if q.len() == 0 {
        Seq::empty()
    } else {
        let prev = queue_entries_of(v, q.drop_last());
        match song_by_id(v, q.last().0) {
            Some(s) => prev.push(
                QueueEntry { position: q.len() as usize, song_id: q.last().0, song_name: s.name, duration: s.duration },
            ),
            None => prev,
        }
    }
}

/// The songs that the index finds for the ids `ids`, in order.
pub open spec fn found_songs(v: DopplerView, ids: Seq<u32>) -> Seq<SongInfo>
    decreases ids.len(),
{
    if ids.len() == 0 {
        Seq::empty()
    } else {
        let prev = found_songs(v, ids.drop_last());
        match song_by_id(v, ids.last()) {
            Some(s) => prev.push(s),
            None => prev,
        }
    }
}

/// The name and id of each song that has an id, in order.
pub open spec fn search_candidates_of(songs: Seq<SongInfo>) -> Seq<(String, u32)>
    decreases songs.len(),
{
    if songs.len() == 0 {
        Seq::empty()
    } else {
        let prev = search_candidates_of(songs.drop_last());
        match songs.last().id {
            Some(i) => prev.push((songs.last().name, i)),
            None => prev,
        }
    }
}

/// An empty queue.
pub open spec fn empty_queue() -> PlaylistIterView {
    PlaylistIterView { queue: Seq::empty(), last_song: None }
}

/// The library after `enqueue_song(id)`, and what the call reports.
pub open spec fn enqueue_outcome(v: DopplerView, id: u32) -> (DopplerView, Result<(), DopplerError>) {
    if song_by_id(v, id) is None {
        (v, Err(DopplerError::NoSuchSong))
    } else {
        let base = match v.queue {
            Some(q) => q,
            None => empty_queue(),
        };
        (DopplerView {
            queue: Some(PlaylistIterView { queue: base.queue.push((id, ItemType::DynamicItem)), ..base }),
            queue_dirty: true,
            ..v
        }, Ok(()))
    }
}

/// Whether the library has a queue with a song in it.
pub open spec fn has_next(v: DopplerView) -> bool {
    match v.queue {
        Some(q) => q.queue.len() > 0,
        None => false,
    }
}

/// The library after `advance_queue()`, and the song it starts.
pub open spec fn advance_outcome(v: DopplerView) -> (DopplerView, Option<u32>) {
    if has_next(v) {
        let q = v.queue->0;
        let next = q.queue[0].0;
        (DopplerView {
            queue: Some(PlaylistIterView { queue: q.queue.drop_first(), last_song: Some(next) }),
            queue_dirty: true,
            currently_playing: Some(next),
            ..v
        }, Some(next))
    } else {
        (DopplerView { queue_dirty: true, currently_playing: None, ..v }, None)
    }
}

/// The songs of `file_songs` whose id (or lack of one) no song of `songs` has.
pub open spec fn new_in_file(songs: Seq<SongInfo>, file_songs: Seq<SongInfo>) -> Seq<SongInfo> {
    file_songs.filter(|s: SongInfo| !(exists|k: int| 0 <= k < songs.len() && songs[k].id == s.id))
}

/// The library after adding each of `s` in turn with `add_song`.
pub open spec fn songs_added(v: DopplerView, s: Seq<SongInfo>) -> DopplerView
    decreases s.len(),
{
    if s.len() == 0 {
        v
    } else {
        songs_added(add_song_outcome(v, s[0]).0, s.drop_first())
    }
}

/// No song of `s`, added in turn, would need an id beyond `u32::MAX`.
pub open spec fn songs_fit(v: DopplerView, s: Seq<SongInfo>) -> bool
    decreases s.len(),
{
    s.len() == 0 || ((s[0].id is Some || id_or_zero(v.max_song_id) < u32::MAX) && songs_fit(
        add_song_outcome(v, s[0]).0,
        s.drop_first(),
    ))
}

/// The songs that the next write of the songs file holds: those with an id
/// that is not marked for removal, in order.
pub open spec fn songs_to_write_of(v: DopplerView) -> Seq<SongInfo> {
    v.songs.filter(|s: SongInfo| s.id is Some && !v.removed_songs.contains(s.id->0))
}

/// The playlists that the next write of the playlists file holds.
pub open spec fn playlists_to_write_of(v: DopplerView) -> Seq<PlaylistInfo> {
    v.playlists.filter(|p: PlaylistInfo| p.id is Some && !v.removed_playlists.contains(p.id->0))
}

/// The songs kept after a write: all but those marked for removal, each marked
/// as up to date.
pub open spec fn songs_kept_of(v: DopplerView) -> Seq<SongInfo> {
    v.songs.filter(|s: SongInfo| !(s.id is Some && v.removed_songs.contains(s.id->0))).map_values(
        |s: SongInfo| SongInfo { file_entry_up_to_date: true, ..s },
    )
}

/// The playlists kept after a write: all but those marked for removal, each
/// marked as up to date.
pub open spec fn playlists_kept_of(v: DopplerView) -> Seq<PlaylistInfo> {
    v.playlists.filter(|p: PlaylistInfo| !(p.id is Some && v.removed_playlists.contains(p.id->0))).map_values(
        |p: PlaylistInfo| PlaylistInfo { file_entry_up_to_date: true, ..p },
    )
}

impl DopplerInfo {
    /// Sorts the songs and the playlists by id and rebuilds both indexes.
    pub fn sort(&mut self)
        ensures
            final(self)@.songs.to_multiset() == old(self)@.songs.to_multiset(),
            crate::dlib::sorting::sorted_by_key(final(self)@.songs, song_sort_key()),
            final(self)@.song_indices == index_map_of(song_ids(final(self)@.songs)),
            final(self)@.playlists.to_multiset() == old(self)@.playlists.to_multiset(),
            crate::dlib::sorting::sorted_by_key(final(self)@.playlists, playlist_sort_key()),
            final(self)@.playlist_indices == index_map_of(playlist_ids(final(self)@.playlists)),
            final(self)@ == (DopplerView {
                songs: final(self)@.songs,
                song_indices: final(self)@.song_indices,
                playlists: final(self)@.playlists,
                playlist_indices: final(self)@.playlist_indices,
                ..old(self)@
            }),
    {
        let song_key = |s: &SongInfo| -> (r: Option<u32>)
            ensures
                r == s.id,
            { s.id };
        crate::dlib::sorting::sort_by_id_key(&mut self.songs, song_key, Ghost(song_sort_key()));
        let new_indices = indices_from_song_list(self.songs.as_slice());
        proof {
            lemma_index_map_unique(new_indices@, song_ids(self.songs@));
        }
        self.song_indices = new_indices;
        let playlist_key = |p: &PlaylistInfo| -> (r: Option<u32>)
            ensures
                r == p.id,
            { p.id };
        crate::dlib::sorting::sort_by_id_key(&mut self.playlists, playlist_key, Ghost(playlist_sort_key()));
        let new_pindices = indices_from_playlist_list(self.playlists.as_slice());
        proof {
            lemma_index_map_unique(new_pindices@, playlist_ids(self.playlists@));
        }
        self.playlist_indices = new_pindices;
    }

    /// The songs of the playlist `id` that the index finds, in the
    /// playlist's order; `None` when there is no such playlist.
    pub fn songs_of_playlist(&self, id: u32) -> (r: Option<Vec<SongInfo>>)
        ensures
            match playlist_by_id(self@, id) {
                None => r is None,
                Some(p) => r matches Some(found) && found@ == found_songs(self@, p.songs@),
            },
    {
        let p = match self.get_playlist_by_id(id) {
            Some(p) => p,
            None => {
                return None;
            },
        };
        let mut out: Vec<SongInfo> = Vec::new();
        let n = p.songs.len();
        for i in 0..n
            invariant
                n == p.songs@.len(),
                out@ == found_songs(self@, p.songs@.take(i as int)),
        {
            assert(p.songs@.take(i + 1).drop_last() =~= p.songs@.take(i as int));
            match self.get_song_by_id(p.songs[i]) {
                Some(s) => out.push(s),
                None => {},
            }
        }
        assert(p.songs@.take(n as int) =~= p.songs@);
        Some(out)
    }

    /// The song that is playing, as the index finds it.
    pub fn current_song(&self) -> (s: Option<SongInfo>)
        ensures
            s == match self@.currently_playing {
                Some(id) => song_by_id(self@, id),
                None => None,
            },
    {
        match self.currently_playing {
            Some(id) => self.get_song_by_id(id),
            None => None,
        }
    }

    /// The number of songs waiting in the queue.
    pub fn queue_len(&self) -> (n: usize)
        ensures
            n == match self@.queue {
                Some(q) => q.queue.len(),
                None => 0,
            },
    {
        match &self.enqueued_playlist {
            Some(q) => q.queue.len(),
            None => 0,
        }
    }

    /// The lines of the queue table.
    pub fn queue_entries(&self) -> (r: Vec<QueueEntry>)
        ensures
            r@ == match self@.queue {
                Some(q) => queue_entries_of(self@, q.queue),
                None => Seq::empty(),
            },
    {
        let pi = match &self.enqueued_playlist {
            Some(pi) => pi,
            None => {
                return Vec::new();
            },
        };
        let mut out: Vec<QueueEntry> = Vec::new();
        let n = pi.queue.len();
        for pos in 0..n
            invariant
                n == pi@.queue.len(),
                self@.queue == Some(pi@),
                out@ == queue_entries_of(self@, pi@.queue.take(pos as int)),
        {
            let (id, _) = pi.queue[pos];
            proof {
                assert(pi@.queue.take(pos + 1).drop_last() =~= pi@.queue.take(pos as int));
            }
            match self.get_song_by_id(id) {
                Some(song) => {
                    out.push(QueueEntry { position: pos + 1, song_id: id, song_name: song.name, duration: song.duration });
                },
                None => {},
            }
        }
        assert(pi@.queue.take(n as int) =~= pi@.queue);
        out
    }

    /// The name and id of each song that has an id, in order: what a search
    /// over the songs looks through.
    pub fn search_candidates(&self) -> (r: Vec<(String, u32)>)
        ensures
            r@ == search_candidates_of(self@.songs),
    {
        let mut out: Vec<(String, u32)> = Vec::new();
        let n = self.songs.len();
        for k in 0..n
            invariant
                n == self@.songs.len(),
                out@ == search_candidates_of(self@.songs.take(k as int)),
        {
            proof {
                assert(self@.songs.take(k + 1).drop_last() =~= self@.songs.take(k as int));
            }
            match self.songs[k].id {
                Some(i) => out.push((self.songs[k].name.clone(), i)),
                None => {},
            }
        }
        assert(self@.songs.take(n as int) =~= self@.songs);
        out
    }

    /// The audio file of the song `id`, to be played.
    pub fn file_to_play(&self, id: u32) -> (r: Result<String, DopplerError>)
        ensures
            match song_by_id(self@, id) {
                None => r == Err::<String, DopplerError>(DopplerError::NoSuchSong),
                Some(s) => match s.filename {
                    Some(f) => r == Ok::<String, DopplerError>(f),
                    None => r == Err::<String, DopplerError>(DopplerError::SongHasNoFile),
                },
            },
    {
        match self.get_song_by_id(id) {
            None => Err(DopplerError::NoSuchSong),
            Some(song) => match song.filename {
                Some(f) => Ok(f),
                None => Err(DopplerError::SongHasNoFile),
            },
        }
    }

    /// Records that the song `id` started playing.
    pub fn song_started(&mut self, id: u32)
        ensures
            final(self)@ == (DopplerView { currently_playing: Some(id), queue_dirty: true, ..old(self)@ }),
    {
        self.currently_playing = Some(id);
        self.queue_dirty = true;
    }

    /// Puts the song `id` at the back of the queue, making a queue first if
    /// there is none.
    pub fn enqueue_song(&mut self, id: u32) -> (r: Result<(), DopplerError>)
        ensures
            (final(self)@, r) == enqueue_outcome(old(self)@, id),
    {
        if self.get_song_by_id(id).is_none() {
            return Err(DopplerError::NoSuchSong);
        }
        let mut q = match self.enqueued_playlist.take() {
            Some(q) => q,
            None => PlaylistIter { queue: std::collections::VecDeque::new(), last_song: None },
        };
        q.insert_back(id);
        self.enqueued_playlist = Some(q);
        self.queue_dirty = true;
        Ok(())
    }

    /// What happens when a song ends: the next song of the queue, if any,
    /// leaves the queue and becomes the one playing; with none, nothing plays.
    pub fn advance_queue(&mut self) -> (r: Option<u32>)
        ensures
            (final(self)@, r) == advance_outcome(old(self)@),
    {
        self.queue_dirty = true;
        self.currently_playing = None;
        let next = match self.enqueued_playlist.take() {
            Some(mut q) => {
                let n = q.next();
                self.enqueued_playlist = Some(q);
                n
            },
            None => None,
        };
        if let Some(id) = next {
            self.currently_playing = Some(id);
        }
        next
    }

    /// The queue for playing the playlist `id`: its songs in order, or in a
    /// random order when `shuffle` holds, with the first one taken out to be
    /// played at once.
    pub fn start_playlist(&self, id: u32, shuffle: bool) -> (r: Result<(u32, PlaylistIter), DopplerError>)
        ensures
            playlist_by_id(self@, id) is None ==> r == Err::<(u32, PlaylistIter), DopplerError>(DopplerError::NoSuchPlaylist),
            playlist_by_id(self@, id) matches Some(p) ==> {
                let fresh = PlaylistIter::fresh(p.songs@).queue;
                &&& p.songs@.len() == 0 ==> r == Err::<(u32, PlaylistIter), DopplerError>(DopplerError::EmptyPlaylist)
                &&& p.songs@.len() > 0 && !shuffle ==> (r matches Ok((first, rest)) && first == p.songs@[0]
                    && rest@ == (PlaylistIterView { queue: fresh.drop_first(), last_song: Some(first) }))
                &&& p.songs@.len() > 0 && shuffle ==> (r matches Ok((first, rest)) && exists|order: Seq<(u32, ItemType)>|
                    #![trigger order.to_multiset()]
                    order.to_multiset() == fresh.to_multiset() && order.len() > 0 && first == order[0].0
                        && rest@ == (PlaylistIterView { queue: order.drop_first(), last_song: Some(first) }))
            },
    {
        let mut pi = match self.get_playlist_by_id(id) {
            Some(p) => p.dynamic_iter(),
            None => {
                return Err(DopplerError::NoSuchPlaylist);
            },
        };
        if shuffle {
            pi.shuffle();
        }
        let ghost order = pi@.queue;
        match pi.next() {
            Some(first) => Ok((first, pi)),
            None => Err(DopplerError::EmptyPlaylist),
        }
    }
}

impl DopplerInfo {
    /// The songs of `file_songs` whose id (or lack of one) no song of the
    /// library has, in order.
    fn new_file_songs(&self, file_songs: &Vec<SongInfo>) -> (to_add: Vec<SongInfo>)
        ensures
            to_add@ == new_in_file(self@.songs, file_songs@),
    {
        let ghost songs0 = self@.songs;
        let ghost pred = |s: SongInfo| !(exists|k: int| 0 <= k < songs0.len() && songs0[k].id == s.id);
        let mut to_add: Vec<SongInfo> = Vec::new();
        let n = file_songs.len();
        for i in 0..n
            invariant
                n == file_songs@.len(),
                self@.songs == songs0,
                pred == (|s: SongInfo| !(exists|k: int| 0 <= k < songs0.len() && songs0[k].id == s.id)),
                to_add@ == file_songs@.take(i as int).filter(pred),
        {
            proof {
                reveal_with_fuel(Seq::<_>::filter, 1);
                assert(file_songs@.take(i + 1).drop_last() =~= file_songs@.take(i as int));
            }
            let mut present = false;
            let m = self.songs.len();
            for k in 0..m
                invariant
                    m == self@.songs.len(),
                    i < n,
                    n == file_songs@.len(),
                    present == exists|j: int| 0 <= j < k && self@.songs[j].id == file_songs@[i as int].id,
            {
                if self.songs[k].id == file_songs[i].id {
                    present = true;
                }
            }
            if !present {
                to_add.push(file_songs[i].clone());
            }
        }
        assert(file_songs@.take(n as int) =~= file_songs@);
        to_add
    }

    /// Whether `merge_file_songs(file_songs)` can add every new song: no song
    /// without an id would need an id beyond `u32::MAX`.
    pub fn file_songs_fit(&self, file_songs: &Vec<SongInfo>) -> (b: bool)
        ensures
            b == songs_fit(self@, new_in_file(self@.songs, file_songs@)),
    {
        let to_add = self.new_file_songs(file_songs);
        let ghost all = to_add@;
        let mut ids: Vec<Option<u32>> = Vec::new();
        for k in 0..self.songs.len()
            invariant
                ids@ == song_ids(self@.songs.take(k as int)),
        {
            ids.push(self.songs[k].id);
            assert(song_ids(self@.songs.take(k + 1)) =~= song_ids(self@.songs.take(k as int)).push(self@.songs[k as int].id));
        }
        assert(self@.songs.take(self@.songs.len() as int) =~= self@.songs);
        let mut max = self.max_song_id;
        let ghost mut v = self@;
        assert(all.skip(0) =~= all);
        for j in 0..to_add.len()
            invariant
                all == to_add@,
                all == new_in_file(self@.songs, file_songs@),
                ids@ == song_ids(v.songs),
                max == v.max_song_id,
                songs_fit(self@, all) == songs_fit(v, all.skip(j as int)),
        {
            assert(all.skip(j as int).drop_first() =~= all.skip(j + 1));
            assert(all.skip(j as int)[0] == all[j as int]);
            let current: u32 = match max {
                Some(m) => m,
                None => 0,
            };
            match to_add[j].id {
                None => {
                    if current == u32::MAX {
                        return false;
                    }
                    let new_id = current + 1;
                    ids.push(Some(new_id));
                    max = Some(new_id);
                },
                Some(i) => {
                    let mut taken = i < current;
                    let m = ids.len();
                    for k in 0..m
                        invariant
                            m == ids@.len(),
                            ids@ == song_ids(v.songs),
                            taken == (i < id_or_zero(v.max_song_id) || exists|q: int| 0 <= q < k && id_or_max(v.songs[q].id) == i),
                            current == id_or_zero(v.max_song_id),
                    {
                        let here: u32 = match ids[k] {
                            Some(x) => x,
                            None => u32::MAX,
                        };
                        if here == i {
                            taken = true;
                        }
                    }
                    if !taken {
                        ids.push(Some(i));
                        if i > current {
                            max = Some(i);
                        }
                    }
                },
            }
            proof {
                let s = all[j as int];
                let w = add_song_outcome(v, s).0;
                assert(song_ids(w.songs) =~= ids@);
                v = w;
            }
        }
        assert(all.skip(all.len() as int) =~= Seq::<SongInfo>::empty());
        true
    }

    /// Adds, with `add_song`, each song read from the songs file whose id (or
    /// lack of one) no song of the library has; refusals are passed over.
    pub fn merge_file_songs(&mut self, file_songs: Vec<SongInfo>)
        requires
            songs_fit(old(self)@, new_in_file(old(self)@.songs, file_songs@)),
        ensures
            final(self)@ == songs_added(old(self)@, new_in_file(old(self)@.songs, file_songs@)),
    {
        let to_add = self.new_file_songs(&file_songs);
        let ghost v0 = self@;
        let ghost all = to_add@;
        let mut j: usize = 0;
        assert(all.skip(0) =~= all);
        while j < to_add.len()
            invariant
                j <= to_add@.len(),
                to_add@ == all,
                songs_added(v0, all) == songs_added(self@, all.skip(j as int)),
                songs_fit(self@, all.skip(j as int)),
            decreases to_add@.len() - j,
        {
            proof {
                assert(all.skip(j as int).drop_first() =~= all.skip(j + 1));
            }
            let _ = self.add_song(to_add[j].clone());
            j = j + 1;
        }
        assert(all.skip(j as int) =~= Seq::<SongInfo>::empty());
    }

    /// The songs to put in the songs file: those with an id that is not marked
    /// for removal, in order.
    pub fn songs_to_write(&self) -> (r: Vec<SongInfo>)
        ensures
            r@ == songs_to_write_of(self@),
    {
        let ghost v = self@;
        let ghost pred = |s: SongInfo| s.id is Some && !v.removed_songs.contains(s.id->0);
        let mut out: Vec<SongInfo> = Vec::new();
        let n = self.songs.len();
        for i in 0..n
            invariant
                n == self@.songs.len(),
                v == self@,
                pred == (|s: SongInfo| s.id is Some && !v.removed_songs.contains(s.id->0)),
                out@ == self@.songs.take(i as int).filter(pred),
        {
            proof {
                reveal_with_fuel(Seq::<_>::filter, 1);
                assert(self@.songs.take(i + 1).drop_last() =~= self@.songs.take(i as int));
            }
            match self.songs[i].id {
                Some(id) => {
                    if !self.removed_songs.contains(&id) {
                        out.push(self.songs[i].clone());
                    }
                },
                None => {},
            }
        }
        assert(self@.songs.take(n as int) =~= self@.songs);
        out
    }

    /// After the songs file was written: drops the songs marked for removal,
    /// marks the rest as up to date, forgets the marks and rebuilds the index.
    pub fn finish_songs_write(&mut self)
        ensures
            final(self)@ == (DopplerView {
                songs: songs_kept_of(old(self)@),
                song_indices: index_map_of(song_ids(songs_kept_of(old(self)@))),
                removed_songs: Set::<u32>::empty(),
                ..old(self)@
            }),
    {
        let ghost v = self@;
        let ghost pred = |s: SongInfo| !(s.id is Some && v.removed_songs.contains(s.id->0));
        let ghost mark = |s: SongInfo| SongInfo { file_entry_up_to_date: true, ..s };
        let mut songs: Vec<SongInfo> = Vec::new();
        std::mem::swap(&mut songs, &mut self.songs);
        let ghost orig = songs@;
        let len0 = songs.len();
        let mut kept: Vec<SongInfo> = Vec::new();
        let mut i: usize = 0;
        while songs.len() > 0
            invariant
                orig == v.songs,
                songs@ == orig.skip(i as int),
                i + songs@.len() == orig.len(),
                orig.len() == len0,
                self.removed_songs@ == v.removed_songs,
                pred == (|s: SongInfo| !(s.id is Some && v.removed_songs.contains(s.id->0))),
                mark == (|s: SongInfo| SongInfo { file_entry_up_to_date: true, ..s }),
                kept@ == orig.take(i as int).filter(pred).map_values(mark),
            decreases songs@.len(),
        {
            proof {
                reveal_with_fuel(Seq::<_>::filter, 1);
                assert(orig.take(i + 1).drop_last() =~= orig.take(i as int));
                assert(orig.skip(i as int).remove(0) =~= orig.skip(i + 1));
            }
            let mut s = songs.remove(0);
            let keep = match s.id {
                Some(id) => !self.removed_songs.contains(&id),
                None => true,
            };
            if keep {
                s.file_entry_up_to_date = true;
                kept.push(s);
            }
            i = i + 1;
            proof {
                let f = orig.take(i as int).filter(pred);
                assert(kept@ =~= f.map_values(mark));
            }
        }
        assert(orig.take(i as int) =~= orig);
        self.songs = kept;
        self.removed_songs.clear();
        let new_indices = indices_from_song_list(self.songs.as_slice());
        proof {
            lemma_index_map_unique(new_indices@, song_ids(self.songs@));
        }
        self.song_indices = new_indices;
    }

    /// The playlists to put in the playlists file: those with an id that is
    /// not marked for removal, in order.
    pub fn playlists_to_write(&self) -> (r: Vec<PlaylistInfo>)
        ensures
            r@.len() == playlists_to_write_of(self@).len(),
            forall|k: int| 0 <= k < r@.len() ==> #[trigger] r@[k]@ == playlists_to_write_of(self@)[k]@,
    {
        let ghost v = self@;
        let ghost pred = |p: PlaylistInfo| p.id is Some && !v.removed_playlists.contains(p.id->0);
        let mut out: Vec<PlaylistInfo> = Vec::new();
        let n = self.playlists.len();
        for i in 0..n
            invariant
                n == self@.playlists.len(),
                v == self@,
                pred == (|p: PlaylistInfo| p.id is Some && !v.removed_playlists.contains(p.id->0)),
                out@.len() == self@.playlists.take(i as int).filter(pred).len(),
                forall|k: int| 0 <= k < out@.len() ==> #[trigger] out@[k]@ == self@.playlists.take(i as int).filter(pred)[k]@,
        {
            proof {
                reveal_with_fuel(Seq::<_>::filter, 1);
                assert(self@.playlists.take(i + 1).drop_last() =~= self@.playlists.take(i as int));
            }
            let ghost before = out@;
            match self.playlists[i].id {
                Some(id) => {
                    if !self.removed_playlists.contains(&id) {
                        out.push(self.playlists[i].clone());
                    }
                },
                None => {},
            }
        }
        assert(self@.playlists.take(n as int) =~= self@.playlists);
        out
    }

    /// After the playlists file was written: drops the playlists marked for
    /// removal, forgets the marks and marks the rest as up to date. The index
    /// of playlist ids is left as it was.
    pub fn finish_playlists_write(&mut self)
        ensures
            final(self)@ == (DopplerView {
                playlists: playlists_kept_of(old(self)@),
                removed_playlists: Set::<u32>::empty(),
                ..old(self)@
            }),
    {
        let ghost v = self@;
        let ghost pred = |p: PlaylistInfo| !(p.id is Some && v.removed_playlists.contains(p.id->0));
        let ghost mark = |p: PlaylistInfo| PlaylistInfo { file_entry_up_to_date: true, ..p };
        let mut playlists: Vec<PlaylistInfo> = Vec::new();
        std::mem::swap(&mut playlists, &mut self.playlists);
        let ghost orig = playlists@;
        let len0 = playlists.len();
        let mut kept: Vec<PlaylistInfo> = Vec::new();
        let mut i: usize = 0;
        while playlists.len() > 0
            invariant
                orig == v.playlists,
                playlists@ == orig.skip(i as int),
                i + playlists@.len() == orig.len(),
                orig.len() == len0,
                self.removed_playlists@ == v.removed_playlists,
                pred == (|p: PlaylistInfo| !(p.id is Some && v.removed_playlists.contains(p.id->0))),
                mark == (|p: PlaylistInfo| PlaylistInfo { file_entry_up_to_date: true, ..p }),
                kept@ == orig.take(i as int).filter(pred).map_values(mark),
            decreases playlists@.len(),
        {
            proof {
                reveal_with_fuel(Seq::<_>::filter, 1);
                assert(orig.take(i + 1).drop_last() =~= orig.take(i as int));
                assert(orig.skip(i as int).remove(0) =~= orig.skip(i + 1));
            }
            let mut p = playlists.remove(0);
            let keep = match p.id {
                Some(id) => !self.removed_playlists.contains(&id),
                None => true,
            };
            if keep {
                p.file_entry_up_to_date = true;
                kept.push(p);
            }
            i = i + 1;
            proof {
                let f = orig.take(i as int).filter(pred);
                assert(kept@ =~= f.map_values(mark));
            }
        }
        assert(orig.take(i as int) =~= orig);
        self.playlists = kept;
        self.removed_playlists.clear();
    }
}

/// The index of song ids is exact: it maps each id to the last song that has it.
pub open spec fn index_exact(v: DopplerView) -> bool {
    v.song_indices == index_map_of(song_ids(v.songs))
}

/// An id that occurs in `ids` has a last position.
proof fn lemma_last_index_exists(ids: Seq<Option<u32>>, id: u32, i: int)
    requires
        0 <= i < ids.len(),
        ids[i] == Some(id),
    ensures
        exists|k: int| 0 <= k < ids.len() && ids[k] == Some(id) && forall|j: int| k < j < ids.len() ==> ids[j] != Some(id),
    decreases ids.len() - i,
{
    if exists|j: int| i < j < ids.len() && ids[j] == Some(id) {
        let j = choose|j: int| i < j < ids.len() && ids[j] == Some(id);
        lemma_last_index_exists(ids, id, j);
    } else {
        assert(forall|j: int| i < j < ids.len() ==> ids[j] != Some(id));
    }
}

/// Law: with an exact index, `get_song_by_id` finds a song exactly when the
/// library holds a song with that id, and what it finds has that id.
pub proof fn law_exact_index_finds_songs(v: DopplerView, id: u32)
    requires
        index_exact(v),
        v.songs.len() <= usize::MAX,
    ensures
        has_song(v.songs, id) <==> song_by_id(v, id) is Some,
        song_by_id(v, id) matches Some(s) ==> s.id == Some(id),
{
    let ids = song_ids(v.songs);
    if has_song(v.songs, id) {
        let k = choose|k: int| 0 <= k < v.songs.len() && v.songs[k].id == Some(id);
        assert(ids[k] == Some(id));
        lemma_last_index_exists(ids, id, k);
        assert(v.song_indices.contains_key(id));
        let c = last_index_of(ids, id);
        assert(ids[c] == Some(id));
    }
    if song_by_id(v, id) is Some {
        assert(v.song_indices.contains_key(id));
        let i = choose|i: int| 0 <= i < ids.len() && ids[i] == Some(id);
        lemma_last_index_exists(ids, id, i);
        let c = last_index_of(ids, id);
        assert(ids[c] == Some(id));
        assert(v.song_indices[id] as int == c);
        assert(v.songs[c].id == Some(id));
    }
}

/// Law: a song added without an id gets the id after the highest one, the
/// index is exact afterwards, and `get_song_by_id` finds the song under its
/// new id.
pub proof fn law_added_song_is_found(v: DopplerView, song: SongInfo)
    requires
        song.id is None,
        id_or_zero(v.max_song_id) < u32::MAX,
        v.songs.len() < usize::MAX,
    ensures
        ({
            let new_id = (id_or_zero(v.max_song_id) + 1) as u32;
            let (v2, r) = add_song_outcome(v, song);
            &&& r is Ok
            &&& index_exact(v2)
            &&& v2.max_song_id == Some(new_id)
            &&& song_by_id(v2, new_id) == Some(SongInfo { id: Some(new_id), file_entry_up_to_date: false, ..song })
        }),
{
    let new_id = (id_or_zero(v.max_song_id) + 1) as u32;
    let (v2, r) = add_song_outcome(v, song);
    let ids = song_ids(v2.songs);
    let last = v2.songs.len() - 1;
    assert(ids[last] == Some(new_id));
    lemma_last_index_exists(ids, new_id, last);
    let c = last_index_of(ids, new_id);
    assert(c == last);
    assert(v2.song_indices[new_id] as int == last);
}

/// Law: adding a song never lowers the highest id given out.
pub proof fn law_max_song_id_never_drops(v: DopplerView, song: SongInfo)
    requires
        song.id is None ==> id_or_zero(v.max_song_id) < u32::MAX,
    ensures
        id_or_zero(add_song_outcome(v, song).0.max_song_id) >= id_or_zero(v.max_song_id),
{
}

/// Law: a song marked for removal is neither written to the songs file nor
/// kept after the write.
pub proof fn law_removed_song_is_dropped(v: DopplerView, id: u32)
    requires
        v.removed_songs.contains(id),
    ensures
        forall|k: int| 0 <= k < songs_to_write_of(v).len() ==> (#[trigger] songs_to_write_of(v)[k]).id != Some(id),
        forall|k: int| 0 <= k < songs_kept_of(v).len() ==> (#[trigger] songs_kept_of(v)[k]).id != Some(id),
{
    let p1 = |s: SongInfo| s.id is Some && !v.removed_songs.contains(s.id->0);
    let p2 = |s: SongInfo| !(s.id is Some && v.removed_songs.contains(s.id->0));
    assert forall|k: int| 0 <= k < songs_to_write_of(v).len() implies (#[trigger] songs_to_write_of(v)[k]).id != Some(id) by {
        v.songs.lemma_filter_pred(p1, k);
    }
    assert forall|k: int| 0 <= k < songs_kept_of(v).len() implies (#[trigger] songs_kept_of(v)[k]).id != Some(id) by {
        v.songs.lemma_filter_pred(p2, k);
    }
}

/// Law: a playlist added without an id gets the id after the highest one,
/// and `get_playlist_by_id` finds it under that id.
pub proof fn law_added_playlist_is_found(v: DopplerView, playlist: PlaylistInfo)
    requires
        playlist.id is None,
        id_or_zero(v.max_playlist_id) < u32::MAX,
        v.playlists.len() < usize::MAX,
    ensures
        ({
            let new_id = (id_or_zero(v.max_playlist_id) + 1) as u32;
            let (v2, r) = add_playlist_outcome(v, playlist);
            &&& r is Ok
            &&& v2.max_playlist_id == Some(new_id)
            &&& playlist_by_id(v2, new_id) == Some(PlaylistInfo { id: Some(new_id), file_entry_up_to_date: false, ..playlist })
        }),
{
    let new_id = (id_or_zero(v.max_playlist_id) + 1) as u32;
    let (v2, r) = add_playlist_outcome(v, playlist);
    let ids = playlist_ids(v2.playlists);
    let last = v2.playlists.len() - 1;
    assert(ids[last] == Some(new_id));
    lemma_last_index_exists(ids, new_id, last);
    let c = last_index_of(ids, new_id);
    assert(c == last);
    assert(v2.playlist_indices[new_id] as int == last);
}

/// Law: a playlist marked for removal is neither written to the playlists
/// file nor kept after the write.
pub proof fn law_removed_playlist_is_dropped(v: DopplerView, id: u32)
    requires
        v.removed_playlists.contains(id),
    ensures
        forall|k: int| 0 <= k < playlists_to_write_of(v).len() ==> (#[trigger] playlists_to_write_of(v)[k]).id != Some(id),
        forall|k: int| 0 <= k < playlists_kept_of(v).len() ==> (#[trigger] playlists_kept_of(v)[k]).id != Some(id),
{
    let p1 = |p: PlaylistInfo| p.id is Some && !v.removed_playlists.contains(p.id->0);
    let p2 = |p: PlaylistInfo| !(p.id is Some && v.removed_playlists.contains(p.id->0));
    assert forall|k: int| 0 <= k < playlists_to_write_of(v).len() implies (#[trigger] playlists_to_write_of(v)[k]).id != Some(id) by {
        v.playlists.lemma_filter_pred(p1, k);
    }
    assert forall|k: int| 0 <= k < playlists_kept_of(v).len() implies (#[trigger] playlists_kept_of(v)[k]).id != Some(id) by {
        v.playlists.lemma_filter_pred(p2, k);
    }
}

/// Law: the highest id of a list is at least the id of every entry (a
/// missing id counting as zero) and is the id of one of them; a list with no
/// entries has none.
pub proof fn law_max_id_is_highest(ids: Seq<Option<u32>>)
    ensures
        ids.len() == 0 <==> max_id(ids) is None,
        ids.len() > 0 ==> {
            &&& forall|k: int| 0 <= k < ids.len() ==> id_or_zero(#[trigger] ids[k]) <= id_or_zero(max_id(ids))
            &&& exists|k: int| 0 <= k < ids.len() && id_or_zero(#[trigger] ids[k]) == id_or_zero(max_id(ids))
        },
    decreases ids.len(),
{
    if ids.len() > 0 {
        let rest = ids.drop_last();
        law_max_id_is_highest(rest);
        let last = ids.len() - 1;
        assert forall|k: int| 0 <= k < ids.len() implies id_or_zero(#[trigger] ids[k]) <= id_or_zero(max_id(ids)) by {
            if k < last {
                assert(ids[k] == rest[k]);
            }
        }
        if rest.len() == 0 || id_or_zero(max_id(rest)) < id_or_zero(ids[last]) {
            assert(id_or_zero(ids[last]) == id_or_zero(max_id(ids)));
        } else {
            let k = choose|k: int| 0 <= k < rest.len() && id_or_zero(#[trigger] rest[k]) == id_or_zero(max_id(rest));
            assert(ids[k] == rest[k]);
            assert(id_or_zero(ids[k]) == id_or_zero(max_id(ids)));
        }
    }
}

/// Law: in a library whose highest id is that of its songs, as `new` leaves
/// it, a song added without an id gets an id that no song already has.
pub proof fn law_new_song_id_is_unused(v: DopplerView, song: SongInfo)
    requires
        v.max_song_id == max_id(song_ids(v.songs)),
        song.id is None,
        id_or_zero(v.max_song_id) < u32::MAX,
    ensures
        ({
            let w = add_song_outcome(v, song).0;
            let new_id = w.songs.last().id;
            &&& w.songs.len() == v.songs.len() + 1
            &&& new_id is Some
            &&& forall|k: int| 0 <= k < v.songs.len() ==> v.songs[k].id != new_id
        }),
{
    let ids = song_ids(v.songs);
    law_max_id_is_highest(ids);
    let w = add_song_outcome(v, song).0;
    assert forall|k: int| 0 <= k < v.songs.len() implies v.songs[k].id != w.songs.last().id by {
        assert(ids[k] == v.songs[k].id);
    }
}

/// Law: the same holds for a playlist added without an id.
pub proof fn law_new_playlist_id_is_unused(v: DopplerView, playlist: PlaylistInfo)
    requires
        v.max_playlist_id == max_id(playlist_ids(v.playlists)),
        playlist.id is None,
        id_or_zero(v.max_playlist_id) < u32::MAX,
    ensures
        ({
            let w = add_playlist_outcome(v, playlist).0;
            let new_id = w.playlists.last().id;
            &&& w.playlists.len() == v.playlists.len() + 1
            &&& new_id is Some
            &&& forall|k: int| 0 <= k < v.playlists.len() ==> v.playlists[k].id != new_id
        }),
{
    let ids = playlist_ids(v.playlists);
    law_max_id_is_highest(ids);
    let w = add_playlist_outcome(v, playlist).0;
    assert forall|k: int| 0 <= k < v.playlists.len() implies v.playlists[k].id != w.playlists.last().id by {
        assert(ids[k] == v.playlists[k].id);
    }
}

/// Law: a song put in an empty queue is the next one to play.
pub proof fn law_enqueued_song_plays_next(v: DopplerView, id: u32)
    requires
        song_by_id(v, id) is Some,
        !has_next(v),
    ensures
        advance_outcome(enqueue_outcome(v, id).0).1 == Some(id),
{
    let v2 = enqueue_outcome(v, id).0;
    assert(has_next(v2));
}

/// The position that the index records for the playlist `id`, if it lies
/// inside the list.
pub open spec fn playlist_index(v: DopplerView, id: u32) -> Option<int> {
    if v.playlist_indices.contains_key(id) && v.playlist_indices[id] < v.playlists.len() {
        Some(v.playlist_indices[id] as int)
    } else {
        None
    }
}

/// `w` is `v` with the playlist at `idx` replaced by one whose contents are `pv`.
pub open spec fn playlist_replaced(v: DopplerView, w: DopplerView, idx: int, pv: PlaylistView) -> bool {
    &&& w == DopplerView { playlists: w.playlists, ..v }
    &&& w.playlists.len() == v.playlists.len()
    &&& forall|k: int| 0 <= k < v.playlists.len() && k != idx ==> w.playlists[k] == v.playlists[k]
    &&& w.playlists[idx]@ == pv
}

/// `playlist_insert_song(id, at, song)` took `v` to `w` and reported `r`.
pub open spec fn playlist_insert_rel(v: DopplerView, id: u32, at: usize, song: u32, w: DopplerView, r: Result<(), DopplerError>) -> bool {
    match playlist_index(v, id) {
        Some(idx) => if at <= v.playlists[idx]@.songs.len() {
            r is Ok && playlist_replaced(v, w, idx, PlaylistView {
                songs: v.playlists[idx]@.songs.insert(at as int, song),
                file_entry_up_to_date: false,
                ..v.playlists[idx]@
            })
        } else {
            r == Err::<(), DopplerError>(DopplerError::IndexOutOfBounds) && playlist_replaced(v, w, idx, v.playlists[idx]@)
        },
        None => r == Err::<(), DopplerError>(DopplerError::NoSuchPlaylist) && w == v,
    }
}

/// `playlist_add_song(id, song)` took `v` to `w` and reported `r`.
pub open spec fn playlist_add_rel(v: DopplerView, id: u32, song: u32, w: DopplerView, r: Result<(), DopplerError>) -> bool {
    match playlist_index(v, id) {
        Some(idx) => if v.playlists[idx]@.songs.contains(song) {
            r == Err::<(), DopplerError>(DopplerError::SongAlreadyInPlaylist) && playlist_replaced(v, w, idx, v.playlists[idx]@)
        } else {
            r is Ok && playlist_replaced(v, w, idx, PlaylistView {
                songs: v.playlists[idx]@.songs.push(song),
                file_entry_up_to_date: false,
                ..v.playlists[idx]@
            })
        },
        None => r == Err::<(), DopplerError>(DopplerError::NoSuchPlaylist) && w == v,
    }
}

impl DopplerInfo {
    /// The position of the playlist `id` as the index records it.
    fn playlist_position(&self, id: u32) -> (r: Option<usize>)
        ensures
            match r {
                Some(i) => playlist_index(self@, id) == Some(i as int),
                None => playlist_index(self@, id) is None,
            },
    {
        match self.playlist_indices.get(&id) {
            Some(idx) => {
                let idx = *idx;
                if idx < self.playlists.len() {
                    Some(idx)
                } else {
                    None
                }
            },
            None => None,
        }
    }

    /// Appends the song `song` to the playlist `id` (found through the index),
    /// whether or not it holds it already. Nothing happens when the index does
    /// not find the playlist.
    pub fn playlist_force_add_song(&mut self, id: u32, song: u32)
        ensures
            match playlist_index(old(self)@, id) {
                Some(idx) => playlist_replaced(old(self)@, final(self)@, idx, PlaylistView {
                    songs: old(self)@.playlists[idx]@.songs.push(song),
                    file_entry_up_to_date: false,
                    ..old(self)@.playlists[idx]@
                }),
                None => final(self)@ == old(self)@,
            },
    {
        if let Some(idx) = self.playlist_position(id) {
            let mut p = self.playlists.remove(idx);
            p.force_add_song(song);
            self.playlists.insert(idx, p);
        }
    }

    /// Appends the song `song` to the playlist `id` unless the playlist
    /// already holds it; a playlist the index does not find is refused.
    pub fn playlist_add_song(&mut self, id: u32, song: u32) -> (r: Result<(), DopplerError>)
        ensures
            playlist_add_rel(old(self)@, id, song, final(self)@, r),
    {
        match self.playlist_position(id) {
            Some(idx) => {
                let mut p = self.playlists.remove(idx);
                let r = p.add_song(song);
                self.playlists.insert(idx, p);
                r
            },
            None => Err(DopplerError::NoSuchPlaylist),
        }
    }

    /// The number of songs of the playlist `id`, if the index finds it.
    pub fn playlist_song_count(&self, id: u32) -> (r: Option<usize>)
        ensures
            match playlist_index(self@, id) {
                Some(idx) => r matches Some(n) && n == self@.playlists[idx]@.songs.len(),
                None => r is None,
            },
    {
        match self.playlist_position(id) {
            Some(idx) => Some(self.playlists[idx].songs.len()),
            None => None,
        }
    }

    /// Whether some song has the id `id`.
    pub fn has_song_with_id(&self, id: u32) -> (b: bool)
        ensures
            b == has_song(self@.songs, id),
    {
        for k in 0..self.songs.len()
            invariant
                forall|j: int| 0 <= j < k ==> self@.songs[j].id != Some(id),
        {
            if self.songs[k].id == Some(id) {
                return true;
            }
        }
        false
    }

    /// Inserts the song `song` at position `at` of the playlist `id`; a
    /// position beyond the end is refused, and so is a playlist the index
    /// does not find.
    pub fn playlist_insert_song(&mut self, id: u32, at: usize, song: u32) -> (r: Result<(), DopplerError>)
        ensures
            playlist_insert_rel(old(self)@, id, at, song, final(self)@, r),
    {
        match self.playlist_position(id) {
            Some(idx) => {
                let mut p = self.playlists.remove(idx);
                let r = p.insert_song(at, song);
                self.playlists.insert(idx, p);
                r
            },
            None => Err(DopplerError::NoSuchPlaylist),
        }
    }

    /// Removes the song at position `at` of the playlist `id`; a position
    /// beyond the end is refused, and so is a playlist the index does not find.
    pub fn playlist_remove_song(&mut self, id: u32, at: usize) -> (r: Result<(), DopplerError>)
        ensures
            match playlist_index(old(self)@, id) {
                Some(idx) => if at < old(self)@.playlists[idx]@.songs.len() {
                    r is Ok && playlist_replaced(old(self)@, final(self)@, idx, PlaylistView {
                        songs: old(self)@.playlists[idx]@.songs.remove(at as int),
                        file_entry_up_to_date: false,
                        ..old(self)@.playlists[idx]@
                    })
                } else {
                    r == Err::<(), DopplerError>(DopplerError::IndexOutOfBounds) && playlist_replaced(
                        old(self)@,
                        final(self)@,
                        idx,
                        old(self)@.playlists[idx]@,
                    )
                },
                None => r == Err::<(), DopplerError>(DopplerError::NoSuchPlaylist) && final(self)@ == old(self)@,
            },
    {
        match self.playlist_position(id) {
            Some(idx) => {
                let mut p = self.playlists.remove(idx);
                let r = p.remove_song(at);
                self.playlists.insert(idx, p);
                r
            },
            None => Err(DopplerError::NoSuchPlaylist),
        }
    }

    /// Whether a playlist without an id can be added: the next id fits in `u32`.
    pub fn can_add_playlist_without_id(&self) -> (b: bool)
        ensures
            b == (id_or_zero(self@.max_playlist_id) < u32::MAX),
    {
        match self.max_playlist_id {
            Some(m) => m < u32::MAX,
            None => true,
        }
    }

    /// Whether a song without an id can be added: the next id fits in `u32`.
    pub fn can_add_song_without_id(&self) -> (b: bool)
        ensures
            b == (id_or_zero(self@.max_song_id) < u32::MAX),
    {
        match self.max_song_id {
            Some(m) => m < u32::MAX,
            None => true,
        }
    }
}

} // verus!
