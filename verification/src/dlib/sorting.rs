//! Sorting by an optional id, in the order of `Option<u32>`: no id first,
//! then ids from low to high.
use vstd::prelude::*;

verus! {

broadcast use vstd::seq_lib::group_to_multiset_ensures;

/// `a` comes no later than `b` in the order of `Option<u32>`.
pub open spec fn key_le(a: Option<u32>, b: Option<u32>) -> bool {
    match (a, b) {
        (None, _) => true,
        (Some(_), None) => false,
        (Some(x), Some(y)) => x <= y,
    }
}

/// The keys of `s` under `key` come in order.
pub open spec fn sorted_by_key<T>(s: Seq<T>, key: spec_fn(T) -> Option<u32>) -> bool {
    forall|i: int, j: int| 0 <= i < j < s.len() ==> key_le(#[trigger] key(s[i]), #[trigger] key(s[j]))
}

/// Sorts `v` by the optional id that `key` reads from each item.
pub fn sort_by_id_key<T, F: Fn(&T) -> Option<u32>>(v: &mut Vec<T>, key: F, Ghost(spec_key): Ghost<spec_fn(T) -> Option<u32>>)
    requires
        forall|x: &T| #[trigger] key.requires((x,)),
        forall|x: &T, r: Option<u32>| key.ensures((x,), r) ==> r == spec_key(*x),
    ensures
        final(v)@.to_multiset() == old(v)@.to_multiset(),
        final(v)@.len() == old(v)@.len(),
        sorted_by_key(final(v)@, spec_key),
{
    let ghost orig = v@;
    let mut out: Vec<T> = Vec::new();
    while v.len() > 0
        invariant
            forall|x: &T| #[trigger] key.requires((x,)),
            forall|x: &T, r: Option<u32>| key.ensures((x,), r) ==> r == spec_key(*x),
            v@.to_multiset().add(out@.to_multiset()) == orig.to_multiset(),
            v@.len() + out@.len() == orig.len(),
            sorted_by_key(out@, spec_key),
        decreases v@.len(),
    {
        let ghost before = v@;
        let x = v.pop().unwrap();
        assert(before =~= v@.push(x));
        let k = key(&x);
        let mut p: usize = 0;
        while p < out.len()
            invariant
                forall|x: &T| #[trigger] key.requires((x,)),
                forall|x: &T, r: Option<u32>| key.ensures((x,), r) ==> r == spec_key(*x),
                p <= out@.len(),
                k == spec_key(x),
                forall|j: int| 0 <= j < p ==> key_le(#[trigger] spec_key(out@[j]), k),
            ensures
                p <= out@.len(),
                forall|j: int| 0 <= j < p ==> key_le(#[trigger] spec_key(out@[j]), k),
                p < out@.len() ==> !key_le(spec_key(out@[p as int]), k),
            decreases out@.len() - p,
        {
            let kp = key(&out[p]);
            let later = match (k, kp) {
                (None, None) => false,
                (None, Some(_)) => true,
                (Some(_), None) => false,
                (Some(a), Some(b)) => a < b,
            };
            if later {
                break;
            }
            p = p + 1;
        }
        proof {
            assert forall|j: int| p <= j < out@.len() implies !key_le(#[trigger] spec_key(out@[j]), k) by {
                assert(!key_le(spec_key(out@[p as int]), k));
                if j > p {
                    assert(key_le(spec_key(out@[p as int]), spec_key(out@[j])));
                }
            }
        }
        let ghost out_before = out@;
        out.insert(p, x);
        proof {
            vstd::seq_lib::to_multiset_insert(out_before, p as int, x);
            assert forall|i: int, j: int| 0 <= i < j < out@.len() implies key_le(
                #[trigger] spec_key(out@[i]),
                #[trigger] spec_key(out@[j]),
            ) by {
                out_before.insert_ensures(p as int, x);
                if j < p {
                } else if j == p {
                    assert(out@[i] == out_before[i]);
                } else if i < p {
                    assert(out@[j] == out_before[j - 1]);
                    assert(out@[i] == out_before[i]);
                } else if i == p {
                    assert(out@[j] == out_before[j - 1]);
                } else {
                    assert(out@[j] == out_before[j - 1]);
                    assert(out@[i] == out_before[i - 1]);
                }
            }
        }
    }
    *v = out;
}

} // verus!
