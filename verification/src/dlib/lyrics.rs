//! The lyrics of a song, with the time at which each line starts when synced.
use vstd::prelude::*;

verus! {

/// The lyrics of a song. When `is_synced` holds, `timings[i]` is the second
/// at which line `i` of `lyrics` is sung.
#[derive(Debug)]
pub struct LyricInfo {
    pub song_id: Option<u32>,
    pub is_synced: bool,
    pub timings: Option<Vec<u32>>,
    pub lyrics: Vec<String>,
}

/// Lyrics as plain values.
pub struct LyricView {
    pub song_id: Option<u32>,
    pub is_synced: bool,
    pub timings: Option<Seq<u32>>,
    pub lyrics: Seq<String>,
}

impl View for LyricInfo {
    type V = LyricView;

    open spec fn view(&self) -> LyricView {
        LyricView {
            song_id: self.song_id,
            is_synced: self.is_synced,
            timings: match &self.timings {
                Some(t) => Some(t@),
                None => None,
            },
            lyrics: self.lyrics@,
        }
    }
}

/// Whether `i` is the first position of `ts` that holds a time at or before `t`.
pub open spec fn is_first_due(ts: Seq<u32>, t: int, i: int) -> bool {
    &&& 0 <= i < ts.len()
    &&& ts[i] <= t
    &&& forall|j: int| 0 <= j < i ==> ts[j] > t
}

/// The first position of `ts` that holds a time at or before `t`, if any.
pub open spec fn first_due(ts: Seq<u32>, t: int) -> Option<int> {
    if exists|i: int| is_first_due(ts, t, i) {
        Some(choose|i: int| is_first_due(ts, t, i))
    } else {
        None
    }
}

/// The time that is looked up for a playback position of `time` seconds: one
/// second earlier, and no earlier than zero.
pub open spec fn lookup_time(time: u32) -> int {
    if time >= 1 { time - 1 } else { 0 }
}

/// The lines from `start` on, at most `count` of them.
pub open spec fn window(lines: Seq<String>, start: int, count: int) -> Seq<String> {
    if start >= lines.len() {
        Seq::empty()
    } else if count >= lines.len() - start {
        lines.skip(start)
    } else {
        lines.subrange(start, start + count)
    }
}

impl Default for LyricInfo {
    fn default() -> (l: Self)
        ensures
            l@.song_id is None,
            !l@.is_synced,
            l@.timings is None,
            l@.lyrics == Seq::<String>::empty(),
    {
        Self::new()
    }
}

impl LyricInfo {
    /// Lyrics of no song, not synced, with no lines.
    pub fn new() -> (l: Self)
        ensures
            l@.song_id is None,
            !l@.is_synced,
            l@.timings is None,
            l@.lyrics == Seq::<String>::empty(),
    {
        LyricInfo { song_id: None, is_synced: false, timings: None, lyrics: Vec::new() }
    }

    /// Synced lyrics of no song, with no lines and no timings yet.
    pub fn new_synced() -> (l: Self)
        ensures
            l@.song_id is None,
            l@.is_synced,
            l@.timings == Some(Seq::<u32>::empty()),
            l@.lyrics == Seq::<String>::empty(),
    {
        LyricInfo { song_id: None, is_synced: true, timings: Some(Vec::new()), lyrics: Vec::new() }
    }

    /// The first position whose timing is at or before `t`, if any.
    fn first_due_index(timings: &Vec<u32>, t: u32) -> (r: Option<usize>)
        ensures
            match r {
                Some(i) => first_due(timings@, t as int) == Some(i as int),
                None => first_due(timings@, t as int) is None,
            },
    {
        let n = timings.len();
        for i in 0..n
            invariant
                n == timings@.len(),
                forall|j: int| 0 <= j < i ==> timings@[j] > t,
        {
            if timings[i] <= t {
                assert(is_first_due(timings@, t as int, i as int));
                proof {
                    let c = choose|k: int| is_first_due(timings@, t as int, k);
                    assert(c == i);
                }
                return Some(i);
            }
        }
        None
    }

    /// The line sung at playback position `time`: the line of the first
    /// timing at or before one second earlier. `None` when the lyrics are not
    /// synced, no timing is that early, or that line is missing.
    pub fn get_lyric_at_time(&self, time: u32) -> (r: Option<String>)
        requires
            self@.is_synced ==> self@.timings is Some,
        ensures
            r == (if !self@.is_synced {
                None
            } else {
                match first_due(self@.timings->0, lookup_time(time)) {
                    Some(i) => if i < self@.lyrics.len() { Some(self@.lyrics[i]) } else { None },
                    None => None,
                }
            }),
    {
        if !self.is_synced {
            return None;
        }
        let time = time.saturating_sub(1);
        let timings = match &self.timings {
            Some(t) => t,
            None => {
                return None;
            },
        };
        match Self::first_due_index(timings, time) {
            Some(i) => {
                if i < self.lyrics.len() {
                    Some(self.lyrics[i].clone())
                } else {
                    None
                }
            },
            None => None,
        }
    }

    /// The lines around playback position `time`: from `match_pos` lines
    /// before the current line (no earlier than the first), at most
    /// `line_count` of them. `None` when the lyrics are not synced or no
    /// timing is at or before one second earlier.
    pub fn get_lyrics_around_time(&self, time: u32, match_pos: usize, line_count: usize) -> (r: Option<Vec<String>>)
        requires
            self@.is_synced ==> self@.timings is Some,
        ensures
            !self@.is_synced ==> r is None,
            self@.is_synced ==> match first_due(self@.timings->0, lookup_time(time)) {
                Some(p) => r is Some && r->0@ == window(
                    self@.lyrics,
                    if p >= match_pos { p - match_pos } else { 0 },
                    line_count as int,
                ),
                None => r is None,
            },
    {
        if !self.is_synced {
            return None;
        }
        let time = time.saturating_sub(1);
        let timings = match &self.timings {
            Some(t) => t,
            None => {
                return None;
            },
        };
        match Self::first_due_index(timings, time) {
            Some(pos) => {
                let start = pos.saturating_sub(match_pos);
                let n = self.lyrics.len();
                if start >= n {
                    return Some(Vec::new());
                }
                let end = if line_count >= n - start {
                    n
                } else {
                    start + line_count
                };
                let mut out: Vec<String> = Vec::new();
                let mut i = start;
                while i < end
                    invariant
                        start <= i <= end,
                        end <= n,
                        n == self.lyrics@.len(),
                        out@ =~= self.lyrics@.subrange(start as int, i as int),
                    decreases end - i,
                {
                    out.push(self.lyrics[i].clone());
                    i = i + 1;
                }
                proof {
                    let w = window(self@.lyrics, start as int, line_count as int);
                    if line_count >= n - start {
                        assert(out@ =~= w);
                    } else {
                        assert(out@ =~= w);
                    }
                }
                Some(out)
            },
            None => None,
        }
    }
}

/// Law: the line that `get_lyric_at_time` gives is the first line of what
/// `get_lyrics_around_time` gives for the same time with no lines before the
/// current one and room for one line.
pub proof fn law_current_line_heads_window(timings: Seq<u32>, lyrics: Seq<String>, time: u32)
    requires
        first_due(timings, lookup_time(time)) matches Some(i) && i < lyrics.len(),
    ensures
        window(lyrics, first_due(timings, lookup_time(time))->0, 1) == seq![lyrics[first_due(timings, lookup_time(time))->0]],
{
    let i = first_due(timings, lookup_time(time))->0;
    if 1 >= lyrics.len() - i {
        assert(lyrics.skip(i) =~= seq![lyrics[i]]);
    } else {
        assert(lyrics.subrange(i, i + 1) =~= seq![lyrics[i]]);
    }
}

} // verus!
