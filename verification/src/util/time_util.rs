//! Durations shown as `h:mm:ss` or `m:ss`.
use vstd::prelude::*;
use crate::text::{decimal, decimal_pad2, push_decimal, push_decimal_pad2};

verus! {

/// The minutes field of a duration of an hour or more: the whole minutes
/// reduced by sixty until they are at most sixty.
pub open spec fn wrapped_minutes(m: nat) -> nat {
    if m > 60 {
        ((m - 1) as nat % 60) + 1
    } else {
        m
    }
}

/// The text of a duration of `s` seconds: `h:mm:ss` from an hour up, `m:ss` below.
pub open spec fn base60_text(s: nat) -> Seq<char> {
    if s >= 3600 {
        decimal(s / 3600) + seq![':'] + decimal_pad2(wrapped_minutes(s / 60)) + seq![':']
            + decimal_pad2(s % 60)
    } else {
        decimal(s / 60) + seq![':'] + decimal_pad2(s % 60)
    }
}

/// Formats a number of seconds as `h:mm:ss` (an hour or more) or `m:ss`.
pub fn seconds_to_base60_string(s: u32) -> (out: String)
    ensures
        out@ == base60_text(s as nat),
{
    let mut out = String::new();
    if s >= 60 * 60 {
        let mut minutes: u32 = s / 60;
        while minutes > 60
            invariant
                minutes >= 1,
                s >= 3600,
                (minutes - 1) as int % 60 == ((s / 60) - 1) as int % 60,
                minutes <= s / 60,
            decreases minutes,
        {
            minutes = minutes - 60;
        }
        assert(minutes == wrapped_minutes((s / 60) as nat));
        push_decimal(&mut out, (s / (60 * 60)) as u64);
        out.push(':');
        push_decimal_pad2(&mut out, minutes as u64);
        out.push(':');
        push_decimal_pad2(&mut out, (s % 60) as u64);
    } else {
        push_decimal(&mut out, (s / 60) as u64);
        out.push(':');
        push_decimal_pad2(&mut out, (s % 60) as u64);
    }
    assert(out@ =~= base60_text(s as nat));
    out
}

} // verus!
