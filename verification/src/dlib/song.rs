//! A song of the catalogue, and the index of songs by id.
use std::collections::HashMap;
use vstd::prelude::*;

verus! {

broadcast use vstd::std_specs::hash::group_hash_axioms;

/// A song: its metadata, the audio file that holds it, and its id.
#[derive(Debug)]
pub struct SongInfo {
    pub name: String,
    pub artist: String,
    pub album: String,
    /// Length in seconds.
    pub duration: u32,
    pub filename: Option<String>,
    pub id: Option<u32>,
    /// Whether the songs file already holds this entry as it stands.
    pub file_entry_up_to_date: bool,
}

impl Clone for SongInfo {
    fn clone(&self) -> (r: Self)
        ensures
            r == *self,
    {
        SongInfo {
            name: self.name.clone(),
            artist: self.artist.clone(),
            album: self.album.clone(),
            duration: self.duration,
            filename: match &self.filename {
                Some(f) => Some(f.clone()),
                None => None,
            },
            id: self.id,
            file_entry_up_to_date: self.file_entry_up_to_date,
        }
    }
}

impl Default for SongInfo {
    fn default() -> (s: Self)
        ensures
            s.name@ == Seq::<char>::empty(),
            s.artist@ == Seq::<char>::empty(),
            s.album@ == Seq::<char>::empty(),
            s.duration == 0,
            s.filename is None,
            s.id is None,
            !s.file_entry_up_to_date,
    {
        Self::new()
    }
}

impl SongInfo {
    /// A song with empty texts, no duration, no file and no id.
    pub fn new() -> (s: Self)
        ensures
            s.name@ == Seq::<char>::empty(),
            s.artist@ == Seq::<char>::empty(),
            s.album@ == Seq::<char>::empty(),
            s.duration == 0,
            s.filename is None,
            s.id is None,
            !s.file_entry_up_to_date,
    {
        SongInfo {
            name: String::new(),
            artist: String::new(),
            album: String::new(),
            duration: 0,
            filename: None,
            id: None,
            file_entry_up_to_date: false,
        }
    }

    /// The text `"<name> on <album> by <artist>"`.
    pub open spec fn display_text(self) -> Seq<char> {
        self.name@ + " on "@ + self.album@ + " by "@ + self.artist@
    }

    /// The song as shown to the user: `"<name> on <album> by <artist>"`.
    pub fn to_display_string(&self) -> (out: String)
        ensures
            out@ == self.display_text(),
    {
        let mut out = self.name.clone();
        out.push_str(" on ");
        out.push_str(self.album.as_str());
        out.push_str(" by ");
        out.push_str(self.artist.as_str());
        out
    }
}

/// The ids of a list of songs, in order.
pub open spec fn song_ids(songs: Seq<SongInfo>) -> Seq<Option<u32>> {
    songs.map_values(|s: SongInfo| s.id)
}

/// `m` maps each id that occurs among the first `n` entries of `ids` to the
/// last of those positions where it occurs, and holds no other key.
pub open spec fn is_last_index_map_upto(m: Map<u32, usize>, ids: Seq<Option<u32>>, n: int) -> bool {
    &&& forall|id: u32| #[trigger]
        m.contains_key(id) <==> exists|i: int| 0 <= i < n && ids[i] == Some(id)
    &&& forall|id: u32| #[trigger]
        m.contains_key(id) ==> {
            &&& 0 <= m[id] < n
            &&& ids[m[id] as int] == Some(id)
            &&& forall|j: int| m[id] < j < n ==> ids[j] != Some(id)
        }
}

/// `m` maps each id that occurs in `ids` to the last position where it occurs,
/// and holds no other key.
pub open spec fn is_last_index_map(m: Map<u32, usize>, ids: Seq<Option<u32>>) -> bool {
    is_last_index_map_upto(m, ids, ids.len() as int)
}

/// Builds the map from each id of `ids` to the last position that holds it.
pub fn last_index_map(ids: &Vec<Option<u32>>) -> (m: HashMap<u32, usize>)
    ensures
        is_last_index_map(m@, ids@),
{
    let mut m: HashMap<u32, usize> = HashMap::new();
    let n = ids.len();
    for i in 0..n
        invariant
            n == ids@.len(),
            is_last_index_map_upto(m@, ids@, i as int),
    {
        let ghost prev = m@;
        match ids[i] {
            Some(id) => {
                m.insert(id, i);
                assert forall|k: u32| #[trigger] m@.contains_key(k) <==> exists|j: int|
                    0 <= j < i + 1 && ids@[j] == Some(k) by {
                    if k != id && m@.contains_key(k) {
                        assert(prev.contains_key(k));
                    }
                    if exists|j: int| 0 <= j < i + 1 && ids@[j] == Some(k) {
                        if k != id {
                            let j = choose|j: int| 0 <= j < i + 1 && ids@[j] == Some(k);
                            assert(j < i);
                        }
                    }
                }
            },
            None => {
                assert forall|k: u32| #[trigger] m@.contains_key(k) <==> exists|j: int|
                    0 <= j < i + 1 && ids@[j] == Some(k) by {
                    if exists|j: int| 0 <= j < i + 1 && ids@[j] == Some(k) {
                        let j = choose|j: int| 0 <= j < i + 1 && ids@[j] == Some(k);
                        assert(j < i);
                    }
                }
            },
        }
    }
    m
}

/// Maps the id of each song to the position of the last song that carries it.
pub fn indices_from_song_list(v: &[SongInfo]) -> (m: HashMap<u32, usize>)
    ensures
        is_last_index_map(m@, song_ids(v@)),
{
    let mut ids: Vec<Option<u32>> = Vec::new();
    let n = v.len();
    for i in 0..n
        invariant
            n == v@.len(),
            ids@ =~= song_ids(v@.take(i as int)),
    {
        ids.push(v[i].id);
    }
    assert(v@.take(n as int) =~= v@);
    last_index_map(&ids)
}

} // verus!
