//! The play queue: song ids waiting to be played, each marked as part of the
//! playlist it came from or as added while playing.
use std::collections::VecDeque;
use vstd::prelude::*;
use crate::error::DopplerError;
use rand::seq::SliceRandom;

verus! {

/// Where a queued song came from.
#[derive(Debug, Clone, Copy, PartialEq, Eq, Structural)]
pub enum ItemType {
    /// Part of the playlist the queue was made from.
    OriginalItem,
    /// Added to the queue afterwards.
    DynamicItem,
}

/// A play queue, and the song that was taken from it last.
#[derive(Debug)]
pub struct PlaylistIter {
    pub queue: VecDeque<(u32, ItemType)>,
    pub last_song: Option<u32>,
}

/// A play queue as plain values.
pub struct PlaylistIterView {
    pub queue: Seq<(u32, ItemType)>,
    pub last_song: Option<u32>,
}

impl View for PlaylistIter {
    type V = PlaylistIterView;

    open spec fn view(&self) -> PlaylistIterView {
        PlaylistIterView { queue: self.queue@, last_song: self.last_song }
    }
}

/// Whether a queued entry came from the playlist itself.
pub open spec fn is_original(item: (u32, ItemType)) -> bool {
    item.1 == ItemType::OriginalItem
}

/// The test `is_original` as a value, for `Seq::filter`.
pub open spec fn original_pred() -> spec_fn((u32, ItemType)) -> bool {
    |item: (u32, ItemType)| is_original(item)
}

/// The entries of a queue that came from the playlist itself, in order.
pub open spec fn originals(q: Seq<(u32, ItemType)>) -> Seq<(u32, ItemType)> {
    q.filter(original_pred())
}

/// The ids of `songs` that the queue `q` does not already hold as playlist entries.
pub open spec fn not_yet_original(songs: Seq<u32>, q: Seq<(u32, ItemType)>) -> Seq<u32> {
    songs.filter(|id: u32| !q.contains((id, ItemType::OriginalItem)))
}

/// Spreads `songs` through the queue `q`, as the loop of `insert_dynamics` does:
/// the position advances by `f` while it lies inside the queue, and each step
/// takes the next song and inserts it at the new position if that position
/// lies inside the queue (the song is used up either way).
pub open spec fn spread(q: Seq<(u32, ItemType)>, songs: Seq<u32>, idx: int, f: int) -> Seq<(u32, ItemType)>
    decreases songs.len() + q.len() + f - idx,
    when f > 0 && 0 <= idx
{
    if idx < q.len() {
        let next = idx + f;
        if songs.len() > 0 {
            let q2 = if next < q.len() {
                q.insert(next, (songs[0], ItemType::DynamicItem))
            } else {
                q
            };
            spread(q2, songs.drop_first(), next, f)
        } else {
            spread(q, songs, next, f)
        }
    } else {
        q
    }
}

/// Shuffles `v` in place with `rand`'s `SliceRandom::shuffle`, seeded from the
/// thread's random generator. Claims only that the result holds the same items
/// as before, each as often; which order comes out is left to chance.
#[verifier::external_body]
fn shuffle_vec<T>(v: &mut Vec<T>)
    ensures
        final(v)@.to_multiset() == old(v)@.to_multiset(),
        final(v)@.len() == old(v)@.len(),
{
    v.shuffle(&mut rand::rng());
}

impl PlaylistIter {
    /// The queue made from a list of song ids, all marked as playlist entries.
    pub open spec fn fresh(songs: Seq<u32>) -> PlaylistIterView {
        PlaylistIterView {
            queue: songs.map_values(|id: u32| (id, ItemType::OriginalItem)),
            last_song: None,
        }
    }

    /// A queue of the given songs, in order, all marked as playlist entries.
    pub fn new(songs: &[u32]) -> (it: Self)
        ensures
            it@ == Self::fresh(songs@),
    {
        let mut queue: VecDeque<(u32, ItemType)> = VecDeque::new();
        let n = songs.len();
        for i in 0..n
            invariant
                n == songs@.len(),
                queue@ =~= songs@.take(i as int).map_values(|id: u32| (id, ItemType::OriginalItem)),
        {
            queue.push_back((songs[i], ItemType::OriginalItem));
        }
        assert(songs@.take(n as int) =~= songs@);
        PlaylistIter { queue, last_song: None }
    }

    /// The song taken from the queue last, if any.
    pub fn get_previous(&self) -> (r: Option<u32>)
        ensures
            r == self@.last_song,
    {
        self.last_song
    }

    /// Puts the queued entries in a random order.
    pub fn shuffle(&mut self)
        ensures
            final(self)@.queue.to_multiset() == old(self)@.queue.to_multiset(),
            final(self)@.queue.len() == old(self)@.queue.len(),
            final(self)@.last_song == old(self)@.last_song,
    {
        let mut items: Vec<(u32, ItemType)> = Vec::new();
        let ghost q0 = self.queue@;
        while self.queue.len() > 0
            invariant
                q0 =~= items@ + self.queue@,
                self.last_song == old(self).last_song,
            decreases self.queue@.len(),
        {
            let item = self.queue.pop_front().unwrap();
            items.push(item);
        }
        shuffle_vec(&mut items);
        let ghost shuffled = items@;
        let n = items.len();
        for i in 0..n
            invariant
                n == items@.len(),
                items@ == shuffled,
                self.queue@ =~= shuffled.take(i as int),
                self.last_song == old(self).last_song,
        {
            self.queue.push_back(items[i]);
        }
        assert(shuffled.take(n as int) =~= shuffled);
    }

    /// Puts `id` at the front of the queue, marked as added.
    pub fn insert_front(&mut self, id: u32)
        ensures
            final(self)@ == (PlaylistIterView {
                queue: seq![(id, ItemType::DynamicItem)] + old(self)@.queue,
                ..old(self)@
            }),
    {
        self.queue.push_front((id, ItemType::DynamicItem));
    }

    /// Puts `id` at the back of the queue, marked as added.
    pub fn insert_back(&mut self, id: u32)
        ensures
            final(self)@ == (PlaylistIterView {
                queue: old(self)@.queue.push((id, ItemType::DynamicItem)),
                ..old(self)@
            }),
    {
        self.queue.push_back((id, ItemType::DynamicItem));
    }

    /// Inserts `id`, marked as added, at position `idx`, which must lie inside the queue.
    pub fn insert(&mut self, idx: usize, id: u32) -> (r: Result<(), DopplerError>)
        ensures
            idx < old(self)@.queue.len() ==> r is Ok && final(self)@ == (PlaylistIterView {
                queue: old(self)@.queue.insert(idx as int, (id, ItemType::DynamicItem)),
                ..old(self)@
            }),
            idx >= old(self)@.queue.len() ==> r == Err::<(), DopplerError>(DopplerError::IndexOutOfBounds)
                && final(self)@ == old(self)@,
    {
        if idx >= self.queue.len() {
            return Err(DopplerError::IndexOutOfBounds);
        }
        self.queue.insert(idx, (id, ItemType::DynamicItem));
        Ok(())
    }

    /// Whether the queue holds `id` as a playlist entry.
    fn holds_original(&self, id: u32) -> (b: bool)
        ensures
            b == self@.queue.contains((id, ItemType::OriginalItem)),
    {
        let n = self.queue.len();
        for i in 0..n
            invariant
                n == self@.queue.len(),
                forall|j: int| 0 <= j < i ==> self@.queue[j] != (id, ItemType::OriginalItem),
        {
            let (qid, qt) = self.queue[i];
            if qid == id && qt == ItemType::OriginalItem {
                return true;
            }
        }
        false
    }

    /// Spreads the songs of `songs`, in the order given, through the queue:
    /// those that the queue already holds as playlist entries are dropped, and
    /// the rest go in, marked as added, at every `frequency`-th position.
    pub fn insert_dynamics_in_order(&mut self, songs: &[u32], frequency: usize)
        requires
            frequency > 0 || old(self)@.queue.len() == 0,
        ensures
            frequency > 0 ==> final(self)@ == (PlaylistIterView {
                queue: spread(old(self)@.queue, not_yet_original(songs@, old(self)@.queue), 0, frequency as int),
                ..old(self)@
            }),
            frequency == 0 ==> final(self)@ == old(self)@,
    {
        if self.queue.len() == 0 {
            proof {
                if frequency > 0 {
                    let q0 = old(self)@.queue;
                    assert(spread(q0, not_yet_original(songs@, q0), 0, frequency as int) == q0);
                }
            }
            return;
        }
        let ghost q0 = self.queue@;
        let ghost pred = |id: u32| !q0.contains((id, ItemType::OriginalItem));
        let mut kept: Vec<u32> = Vec::new();
        let n = songs.len();
        for i in 0..n
            invariant
                n == songs@.len(),
                self.queue@ == q0,
                pred == (|id: u32| !q0.contains((id, ItemType::OriginalItem))),
                kept@ == songs@.take(i as int).filter(pred),
                kept@.len() <= i,
        {
            proof {
                reveal_with_fuel(Seq::<_>::filter, 1);
                assert(songs@.take(i + 1).drop_last() =~= songs@.take(i as int));
                songs@.take(i as int).lemma_filter_len(pred);
            }
            if !self.holds_original(songs[i]) {
                kept.push(songs[i]);
            }
        }
        assert(songs@.take(n as int) =~= songs@);
        let ghost target = spread(q0, kept@, 0, frequency as int);
        assert(kept@.skip(0) =~= kept@);
        let mut idx: usize = 0;
        let mut k: usize = 0;
        while idx < self.queue.len()
            invariant
                frequency > 0,
                k <= kept@.len(),
                spread(self.queue@, kept@.skip(k as int), idx as int, frequency as int) == target,
                self.last_song == old(self).last_song,
            decreases kept@.len() - k, self.queue@.len() - idx,
        {
            let ghost q_before = self.queue@;
            let ghost rest = kept@.skip(k as int);
            if frequency >= self.queue.len() - idx {
                // The next position lies past the end: a song, if one is
                // left, is used up without going in, and the spreading ends.
                proof {
                    let next = idx + frequency;
                    if rest.len() > 0 {
                        assert(spread(q_before, rest.drop_first(), next, frequency as int) == q_before);
                    } else {
                        assert(spread(q_before, rest, next, frequency as int) == q_before);
                    }
                }
                idx = self.queue.len();
            } else {
                idx = idx + frequency;
                if k < kept.len() {
                    let id = kept[k];
                    let _ = self.insert(idx, id);
                    k = k + 1;
                    assert(rest.drop_first() =~= kept@.skip(k as int));
                }
            }
        }
        assert(spread(self.queue@, kept@.skip(k as int), idx as int, frequency as int) == self.queue@);
    }

    /// Spreads the songs of `ids`, in a random order, through the queue as
    /// `insert_dynamics_in_order` does, and reports success.
    pub fn insert_dynamics(&mut self, ids: &[u32], frequency: usize) -> (r: Result<(), DopplerError>)
        requires
            frequency > 0 || old(self)@.queue.len() == 0,
        ensures
            r is Ok,
            frequency > 0 ==> exists|order: Seq<u32>| #![trigger order.to_multiset()]
                order.to_multiset() == ids@.to_multiset() && final(self)@ == (PlaylistIterView {
                    queue: spread(old(self)@.queue, not_yet_original(order, old(self)@.queue), 0, frequency as int),
                    ..old(self)@
                }),
            frequency == 0 ==> final(self)@ == old(self)@,
    {
        let mut songs: Vec<u32> = Vec::new();
        let n = ids.len();
        for i in 0..n
            invariant
                n == ids@.len(),
                songs@ =~= ids@.take(i as int),
        {
            songs.push(ids[i]);
        }
        assert(ids@.take(n as int) =~= ids@);
        shuffle_vec(&mut songs);
        self.insert_dynamics_in_order(songs.as_slice(), frequency);
        Ok(())
    }

    /// Removes from the queue every entry that was added, keeping the
    /// playlist's own entries in order.
    pub fn remove_dynamics(&mut self)
        ensures
            final(self)@ == (PlaylistIterView { queue: originals(old(self)@.queue), ..old(self)@ }),
    {
        let ghost q0 = self.queue@;
        let mut kept: VecDeque<(u32, ItemType)> = VecDeque::new();
        let ghost mut taken: Seq<(u32, ItemType)> = Seq::empty();
        while self.queue.len() > 0
            invariant
                q0 =~= taken + self.queue@,
                kept@ == originals(taken),
                self.last_song == old(self).last_song,
            decreases self.queue@.len(),
        {
            let item = self.queue.pop_front().unwrap();
            proof {
                reveal_with_fuel(Seq::<_>::filter, 1);
                assert(taken.push(item).drop_last() =~= taken);
                taken = taken.push(item);
            }
            if item.1 == ItemType::OriginalItem {
                kept.push_back(item);
            }
        }
        assert(taken =~= q0);
        self.queue = kept;
    }

    /// Takes the song at the front of the queue and records it as the last one.
    pub fn next(&mut self) -> (r: Option<u32>)
        ensures
            old(self)@.queue.len() == 0 ==> r is None && final(self)@ == old(self)@,
            old(self)@.queue.len() > 0 ==> r == Some(old(self)@.queue[0].0) && final(self)@ == (PlaylistIterView {
                queue: old(self)@.queue.drop_first(),
                last_song: Some(old(self)@.queue[0].0),
            }),
    {
        match self.queue.pop_front() {
            Some((id, _)) => {
                self.last_song = Some(id);
                assert(self.queue@ =~= old(self)@.queue.drop_first());
                Some(id)
            },
            None => None,
        }
    }

    /// The number of songs left, as the lower and upper bound of `Iterator::size_hint`.
    pub fn size_hint(&self) -> (r: (usize, Option<usize>))
        ensures
            r == (self@.queue.len() as usize, Some(self@.queue.len() as usize)),
    {
        let len = self.queue.len();
        (len, Some(len))
    }
}

/// When every entry of `q` came from the playlist, keeping the playlist's
/// entries keeps all of `q`.
proof fn lemma_all_original(q: Seq<(u32, ItemType)>)
    requires
        forall|i: int| 0 <= i < q.len() ==> is_original(#[trigger] q[i]),
    ensures
        originals(q) == q,
    decreases q.len(),
{
    reveal_with_fuel(Seq::<_>::filter, 1);
    if q.len() > 0 {
        lemma_all_original(q.drop_last());
        assert(q.drop_last().push(q.last()) =~= q);
    }
}

/// Law: a queue made from a playlist holds no added entries, so
/// `remove_dynamics` leaves it as it is.
pub proof fn law_fresh_queue_has_only_originals(songs: Seq<u32>)
    ensures
        originals(PlaylistIter::fresh(songs).queue) == PlaylistIter::fresh(songs).queue,
{
    lemma_all_original(PlaylistIter::fresh(songs).queue);
}

/// Law: `remove_dynamics` twice is `remove_dynamics` once.
pub proof fn law_remove_dynamics_idempotent(q: Seq<(u32, ItemType)>)
    ensures
        originals(originals(q)) == originals(q),
{
    broadcast use Seq::lemma_filter_pred;
    let o = originals(q);
    assert forall|i: int| 0 <= i < o.len() implies is_original(#[trigger] o[i]) by {
        q.lemma_filter_pred(original_pred(), i);
    }
    lemma_all_original(o);
}

/// Law: an added song, wherever it goes in the queue, leaves the playlist's
/// own entries and their order as they were; so `remove_dynamics` undoes
/// `insert_front`, `insert_back` and `insert`.
#[verifier::spinoff_prover]
pub proof fn law_added_entry_leaves_originals(q: Seq<(u32, ItemType)>, i: int, id: u32)
    requires
        0 <= i <= q.len(),
    ensures
        originals(q.insert(i, (id, ItemType::DynamicItem))) == originals(q),
        originals(seq![(id, ItemType::DynamicItem)] + q) == originals(q),
        originals(q.push((id, ItemType::DynamicItem))) == originals(q),
{
    let d = (id, ItemType::DynamicItem);
    let a = q.take(i);
    let b = q.skip(i);
    reveal_with_fuel(Seq::<_>::filter, 2);
    assert(seq![d].filter(original_pred()) =~= Seq::<(u32, ItemType)>::empty());
    assert(q.insert(i, d) =~= a + (seq![d] + b));
    Seq::filter_distributes_over_add(a, seq![d] + b, original_pred());
    Seq::filter_distributes_over_add(seq![d], b, original_pred());
    Seq::filter_distributes_over_add(a, b, original_pred());
    assert(q =~= a + b);
    assert(seq![d] + q =~= q.insert(0, d));
    assert(q.push(d) =~= q.insert(q.len() as int, d));
    assert(seq![d] + b =~= b.insert(0, d));
    Seq::filter_distributes_over_add(seq![d], q, original_pred());
    Seq::filter_distributes_over_add(q, seq![d], original_pred());
    assert(seq![d].filter(original_pred()) + b.filter(original_pred()) =~= b.filter(original_pred()));
    assert(q.push(d) =~= q + seq![d]);
    assert(q.filter(original_pred()) + seq![d].filter(original_pred()) =~= q.filter(original_pred()));
}

/// Law: `insert_dynamics` keeps the playlist's own entries and their order:
/// removing the added entries afterwards gives the queue's playlist entries
/// as they were before.
pub proof fn law_spread_keeps_originals(q: Seq<(u32, ItemType)>, songs: Seq<u32>, idx: int, f: int)
    requires
        f > 0,
        0 <= idx,
    ensures
        originals(spread(q, songs, idx, f)) == originals(q),
    decreases songs.len() + q.len() + f - idx,
{
    if idx < q.len() {
        let next = idx + f;
        if songs.len() > 0 {
            if next < q.len() {
                let q2 = q.insert(next, (songs[0], ItemType::DynamicItem));
                law_added_entry_leaves_originals(q, next, songs[0]);
                law_spread_keeps_originals(q2, songs.drop_first(), next, f);
            } else {
                law_spread_keeps_originals(q, songs.drop_first(), next, f);
            }
        } else {
            law_spread_keeps_originals(q, songs, next, f);
        }
    }
}

/// `m` places the entries of `q` in `r` in order: entry `i` of `q` is entry
/// `m[i]` of `r`, and the places rise with `i`.
pub open spec fn places_in_order(q: Seq<(u32, ItemType)>, r: Seq<(u32, ItemType)>, m: Seq<int>) -> bool {
    &&& m.len() == q.len()
    &&& forall|i: int, j: int| 0 <= i < j < m.len() ==> m[i] < m[j]
    &&& forall|i: int| 0 <= i < m.len() ==> 0 <= #[trigger] m[i] < r.len() && r[m[i]] == q[i]
}

/// Whether `k` is one of the places in `m`.
pub open spec fn placed(m: Seq<int>, k: int) -> bool {
    exists|i: int| 0 <= i < m.len() && m[i] == k
}

/// Every entry of `r` that `m` does not place is an added entry for one of
/// `songs`.
pub open spec fn others_added(r: Seq<(u32, ItemType)>, m: Seq<int>, songs: Seq<u32>) -> bool {
    forall|k: int| 0 <= k < r.len() && !placed(m, k) ==> (#[trigger] r[k]).1 == ItemType::DynamicItem && songs.contains(r[k].0)
}

/// The spread of `songs` through `q` keeps the entries of `q` in order and
/// adds at most one entry for each song, marked as added.
proof fn lemma_spread_places(q: Seq<(u32, ItemType)>, songs: Seq<u32>, idx: int, f: int) -> (m: Seq<int>)
    requires
        f > 0,
        0 <= idx,
    ensures
        q.len() <= spread(q, songs, idx, f).len() <= q.len() + songs.len(),
        places_in_order(q, spread(q, songs, idx, f), m),
        others_added(spread(q, songs, idx, f), m, songs),
    decreases songs.len() + q.len() + f - idx,
{
    let r = spread(q, songs, idx, f);
    if idx < q.len() {
        let next = idx + f;
        if songs.len() > 0 {
            let rest = songs.drop_first();
            if next < q.len() {
                let x = (songs[0], ItemType::DynamicItem);
                let q2 = q.insert(next, x);
                let m2 = lemma_spread_places(q2, rest, next, f);
                let m = Seq::new(q.len(), |i: int| if i < next { m2[i] } else { m2[i + 1] });
                assert forall|i: int| 0 <= i < m.len() implies 0 <= #[trigger] m[i] < r.len() && r[m[i]] == q[i] by {
                    if i < next {
                        assert(q2[i] == q[i]);
                    } else {
                        assert(q2[i + 1] == q[i]);
                    }
                }
                assert forall|k: int| 0 <= k < r.len() && !placed(m, k) implies (#[trigger] r[k]).1 == ItemType::DynamicItem
                    && songs.contains(r[k].0) by {
                    if placed(m2, k) {
                        let j = choose|j: int| 0 <= j < m2.len() && m2[j] == k;
                        if j < next {
                            assert(m[j] == k);
                        } else if j > next {
                            assert(m[j - 1] == k);
                        } else {
                            assert(r[k] == x);
                            assert(songs[0] == songs[0]);
                            assert(songs.contains(songs[0]));
                        }
                    } else {
                        assert(rest.contains(r[k].0));
                        let t = choose|t: int| 0 <= t < rest.len() && rest[t] == r[k].0;
                        assert(songs[t + 1] == r[k].0);
                    }
                }
                m
            } else {
                let m = lemma_spread_places(q, rest, next, f);
                assert forall|k: int| 0 <= k < r.len() && !placed(m, k) implies (#[trigger] r[k]).1 == ItemType::DynamicItem
                    && songs.contains(r[k].0) by {
                    let t = choose|t: int| 0 <= t < rest.len() && rest[t] == r[k].0;
                    assert(songs[t + 1] == r[k].0);
                }
                m
            }
        } else {
            lemma_spread_places(q, songs, next, f)
        }
    } else {
        let m = Seq::new(q.len(), |i: int| i);
        assert forall|k: int| 0 <= k < r.len() && !placed(m, k) implies (#[trigger] r[k]).1 == ItemType::DynamicItem
            && songs.contains(r[k].0) by {
            assert(m[k] == k);
        }
        m
    }
}

/// Law: `insert_dynamics` with the songs `ids` (drawn in the order `order`)
/// and a frequency above zero keeps every entry the queue had, in order; each
/// entry it adds is marked as added and is one of `ids` that the queue did
/// not hold as a playlist entry; and it adds at most one entry per id.
pub proof fn law_insert_dynamics_only_adds(q: Seq<(u32, ItemType)>, ids: Seq<u32>, order: Seq<u32>, f: int)
    requires
        f > 0,
        order.to_multiset() == ids.to_multiset(),
    ensures
        ({
            let r = spread(q, not_yet_original(order, q), 0, f);
            &&& q.len() <= r.len() <= q.len() + ids.len()
            &&& exists|m: Seq<int>| #[trigger] places_in_order(q, r, m) && forall|k: int| 0 <= k < r.len() && !placed(m, k) ==> {
                &&& (#[trigger] r[k]).1 == ItemType::DynamicItem
                &&& ids.contains(r[k].0)
                &&& !q.contains((r[k].0, ItemType::OriginalItem))
            }
        }),
{
    let songs = not_yet_original(order, q);
    let pred = |id: u32| !q.contains((id, ItemType::OriginalItem));
    let r = spread(q, songs, 0, f);
    let m = lemma_spread_places(q, songs, 0, f);
    order.lemma_filter_len(pred);
    order.to_multiset_ensures();
    ids.to_multiset_ensures();
    assert(order.len() == ids.len());
    assert forall|k: int| 0 <= k < r.len() && !placed(m, k) implies {
        &&& (#[trigger] r[k]).1 == ItemType::DynamicItem
        &&& ids.contains(r[k].0)
        &&& !q.contains((r[k].0, ItemType::OriginalItem))
    } by {
        let id = r[k].0;
        assert(songs.contains(id));
        let t = choose|t: int| 0 <= t < songs.len() && songs[t] == id;
        assert(songs == order.filter(pred));
        order.lemma_filter_pred(pred, t);
        order.lemma_filter_contains_rev(pred, id);
        assert(order.contains(id) && pred(id));
        assert(order.to_multiset().count(id) > 0);
        assert(ids.to_multiset().count(id) > 0);
    }
}

/// One of the calls that add songs to a queue: `insert_front(id)`,
/// `insert_back(id)`, `insert(idx, id)`, or `insert_dynamics` with the songs
/// in the order it drew and the frequency.
pub enum QueueEdit {
    Front(u32),
    Back(u32),
    At(int, u32),
    Spread(Seq<u32>, int),
}

/// The queue `q` after the call `e`, as the call's contract gives it.
pub open spec fn edit_queue(q: Seq<(u32, ItemType)>, e: QueueEdit) -> Seq<(u32, ItemType)> {
    match e {
        QueueEdit::Front(id) => seq![(id, ItemType::DynamicItem)] + q,
        QueueEdit::Back(id) => q.push((id, ItemType::DynamicItem)),
        QueueEdit::At(i, id) => if 0 <= i < q.len() {
            q.insert(i, (id, ItemType::DynamicItem))
        } else {
            q
        },
        QueueEdit::Spread(songs, f) => if f > 0 {
            spread(q, not_yet_original(songs, q), 0, f)
        } else {
            q
        },
    }
}

/// The queue `q` after the calls `edits`, first to last.
pub open spec fn edited(q: Seq<(u32, ItemType)>, edits: Seq<QueueEdit>) -> Seq<(u32, ItemType)>
    decreases edits.len(),
{
    if edits.len() == 0 {
        q
    } else {
        edit_queue(edited(q, edits.drop_last()), edits.last())
    }
}

/// No call that adds songs changes the playlist's own entries.
proof fn lemma_edits_keep_originals(q: Seq<(u32, ItemType)>, edits: Seq<QueueEdit>)
    ensures
        originals(edited(q, edits)) == originals(q),
    decreases edits.len(),
{
    if edits.len() > 0 {
        lemma_edits_keep_originals(q, edits.drop_last());
        let before = edited(q, edits.drop_last());
        match edits.last() {
            QueueEdit::Front(id) => law_added_entry_leaves_originals(before, 0, id),
            QueueEdit::Back(id) => law_added_entry_leaves_originals(before, 0, id),
            QueueEdit::At(i, id) => {
                if 0 <= i < before.len() {
                    law_added_entry_leaves_originals(before, i, id);
                }
            },
            QueueEdit::Spread(songs, f) => {
                if f > 0 {
                    law_spread_keeps_originals(before, not_yet_original(songs, before), 0, f);
                }
            },
        }
    }
}

/// Law: a queue made from a playlist, after any run of `insert_front`,
/// `insert_back`, `insert` and `insert_dynamics` calls, goes back by
/// `remove_dynamics` to the queue it was made as: every added song is gone
/// and the playlist's songs are back in their order.
pub proof fn law_remove_dynamics_restores_playlist(songs: Seq<u32>, edits: Seq<QueueEdit>)
    ensures
        originals(edited(PlaylistIter::fresh(songs).queue, edits)) == PlaylistIter::fresh(songs).queue,
{
    lemma_edits_keep_originals(PlaylistIter::fresh(songs).queue, edits);
    law_fresh_queue_has_only_originals(songs);
}

} // verus!
