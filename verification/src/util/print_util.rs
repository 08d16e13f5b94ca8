//! Text shaping for the terminal: shortening long names, and the seek bar.
use vstd::prelude::*;
use vstd::utf8::encode_utf8;
use vstd::utf8::is_ascii_chars;
use crate::text::{chars_of, string_of};

verus! {

/// Whether `c` has the Unicode `White_Space` property, which is what
/// `char::is_whitespace` tests.
pub open spec fn is_white_space(c: char) -> bool {
    let u = c as u32;
    ||| 0x09 <= u <= 0x0D
    ||| u == 0x20
    ||| u == 0x85
    ||| u == 0xA0
    ||| u == 0x1680
    ||| 0x2000 <= u <= 0x200A
    ||| u == 0x2028
    ||| u == 0x2029
    ||| u == 0x202F
    ||| u == 0x205F
    ||| u == 0x3000
}

/// Whether `c` is white space, as `char::is_whitespace` decides.
pub fn char_is_whitespace(c: char) -> (b: bool)
    ensures
        b == is_white_space(c),
{
    let u = c as u32;
    (0x09 <= u && u <= 0x0D) || u == 0x20 || u == 0x85 || u == 0xA0 || u == 0x1680 || (0x2000 <= u
        && u <= 0x200A) || u == 0x2028 || u == 0x2029 || u == 0x202F || u == 0x205F || u == 0x3000
}

/// `s` without its trailing white space, as `str::trim_end` leaves it.
pub open spec fn trim_end_text(s: Seq<char>) -> Seq<char>
    decreases s.len(),
{
    if s.len() > 0 && is_white_space(s.last()) {
        trim_end_text(s.drop_last())
    } else {
        s
    }
}

/// `s` without its leading white space, as `str::trim_start` leaves it.
pub open spec fn trim_start_text(s: Seq<char>) -> Seq<char>
    decreases s.len(),
{
    if s.len() > 0 && is_white_space(s[0]) {
        trim_start_text(s.drop_first())
    } else {
        s
    }
}

/// `s` without leading and trailing white space, as `str::trim` leaves it.
pub open spec fn trim_text(s: Seq<char>) -> Seq<char> {
    trim_start_text(trim_end_text(s))
}

/// The characters of `s` without leading and trailing white space.
pub fn trimmed_chars(s: &str) -> (out: Vec<char>)
    ensures
        out@ == trim_text(s@),
{
    let mut v = chars_of(s);
    let ghost full = v@;
    while v.len() > 0 && char_is_whitespace(v[v.len() - 1])
        invariant
            trim_end_text(v@) == trim_end_text(full),
        decreases v@.len(),
    {
        assert(v@.drop_last() =~= v@.subrange(0, v@.len() - 1));
        v.pop();
    }
    assert(trim_end_text(v@) == v@);
    let ghost end_trimmed = v@;
    let mut start: usize = 0;
    assert(v@.skip(0) =~= v@);
    while start < v.len() && char_is_whitespace(v[start])
        invariant
            start <= v@.len(),
            v@ == end_trimmed,
            trim_start_text(v@.skip(start as int)) == trim_start_text(end_trimmed),
        decreases v@.len() - start,
    {
        assert(v@.skip(start as int).drop_first() =~= v@.skip(start + 1));
        start = start + 1;
    }
    assert(trim_start_text(v@.skip(start as int)) == v@.skip(start as int));
    let mut out: Vec<char> = Vec::new();
    let mut i: usize = start;
    while i < v.len()
        invariant
            start <= i <= v@.len(),
            out@ =~= v@.subrange(start as int, i as int),
        decreases v@.len() - i,
    {
        out.push(v[i]);
        i = i + 1;
    }
    assert(out@ =~= v@.skip(start as int));
    out
}

/// The number of bytes of the UTF-8 encoding of `s`, which `str::len` reports.
pub open spec fn byte_len(s: Seq<char>) -> int {
    encode_utf8(s).len() as int
}

/// `inp` as shown in a field of `max_len` bytes: unchanged when it fits;
/// otherwise its first `max_len - suffix` characters (no fewer than none),
/// without trailing white space, followed by the suffix.
pub open spec fn truncated_text(inp: Seq<char>, max_len: int, suffix: Seq<char>) -> Seq<char> {
    if byte_len(inp) <= max_len {
        inp
    } else {
        let keep = if max_len >= byte_len(suffix) { max_len - byte_len(suffix) } else { 0 };
        let kept = if keep <= inp.len() { inp.take(keep) } else { inp };
        trim_end_text(kept) + suffix
    }
}

/// The suffix used when none is given.
pub open spec fn default_suffix() -> Seq<char> {
    "..."@
}

/// Shortens `inp` to fit `max_len` bytes, ending it with `suffix` (by default `"..."`).
pub fn truncate_string_and_add_suffix(inp: &str, max_len: usize, suffix: Option<&str>) -> (out: String)
    ensures
        out@ == truncated_text(
            inp@,
            max_len as int,
            match suffix {
                Some(s) => s@,
                None => default_suffix(),
            },
        ),
{
    if inp.as_bytes().len() <= max_len {
        return string_of(&chars_of(inp));
    }
    let suffix_arg = suffix;
    let suffix: &str = match suffix {
        Some(s) => s,
        None => "...",
    };
    let suffix_len = suffix.as_bytes().len();
    let keep: usize = if max_len >= suffix_len { max_len - suffix_len } else { 0 };
    let chars = chars_of(inp);
    let mut kept: Vec<char> = Vec::new();
    let mut i: usize = 0;
    while i < keep && i < chars.len()
        invariant
            i <= chars@.len(),
            i <= keep,
            chars@ == inp@,
            kept@ =~= chars@.take(i as int),
        decreases chars@.len() - i,
    {
        kept.push(chars[i]);
        i = i + 1;
    }
    proof {
        if i == chars@.len() {
            assert(chars@.take(i as int) =~= chars@);
        }
        reveal_strlit("...");
    }
    let ghost taken = kept@;
    assert(taken == (if keep <= inp@.len() { inp@.take(keep as int) } else { inp@ }));
    while kept.len() > 0 && char_is_whitespace(kept[kept.len() - 1])
        invariant
            trim_end_text(kept@) == trim_end_text(taken),
        decreases kept@.len(),
    {
        assert(kept@.drop_last() =~= kept@.subrange(0, kept@.len() - 1));
        kept.pop();
    }
    assert(trim_end_text(kept@) == kept@);
    let ghost suf = match suffix_arg { Some(s) => s@, None => default_suffix() };
    assert(suffix@ == suf);
    assert(keep == (if max_len >= byte_len(suf) { max_len - byte_len(suf) } else { 0 }));
    let mut out = string_of(&kept);
    out.push_str(suffix);
    out
}

/// Taking trailing white space off `s` leaves a prefix of `s`.
proof fn lemma_trim_end_is_prefix(s: Seq<char>)
    ensures
        trim_end_text(s).len() <= s.len(),
        trim_end_text(s) == s.take(trim_end_text(s).len() as int),
    decreases s.len(),
{
    if s.len() > 0 && is_white_space(s.last()) {
        lemma_trim_end_is_prefix(s.drop_last());
    } else {
        assert(s.take(s.len() as int) =~= s);
    }
}

/// Law: an ASCII text shortened with an ASCII suffix that fits in `max_len`
/// bytes fits in `max_len` bytes, so shortening it again changes nothing.
pub proof fn law_truncate_is_idempotent(inp: Seq<char>, max_len: int, suffix: Seq<char>)
    requires
        is_ascii_chars(inp),
        is_ascii_chars(suffix),
        byte_len(suffix) <= max_len,
    ensures
        byte_len(truncated_text(inp, max_len, suffix)) <= max_len,
        truncated_text(truncated_text(inp, max_len, suffix), max_len, suffix) == truncated_text(inp, max_len, suffix),
{
    vstd::utf8::is_ascii_chars_encode_utf8(inp);
    vstd::utf8::is_ascii_chars_encode_utf8(suffix);
    if byte_len(inp) > max_len {
        let keep = max_len - byte_len(suffix);
        let kept = inp.take(keep);
        let t = trim_end_text(kept);
        lemma_trim_end_is_prefix(kept);
        let r = t + suffix;
        assert(r == truncated_text(inp, max_len, suffix));
        assert forall|i: int| 0 <= i < r.len() implies '\0' <= #[trigger] r[i] <= '\u{7f}' by {
            if i < t.len() {
                assert(r[i] == inp[i]);
            } else {
                assert(r[i] == suffix[i - t.len()]);
            }
        }
        vstd::utf8::is_ascii_chars_encode_utf8(r);
    }
}

/// The seek bar for a marker at `pos` on a track `bar_width` cells wide:
/// `|`, `pos` dashes, the marker, the dashes that fill the rest of the track, `|`.
pub open spec fn seek_bar_text(pos: nat, bar_width: nat) -> Seq<char> {
    seq!['|'] + dashes(pos) + seq!['●'] + dashes(
        if pos < bar_width { (bar_width - pos) as nat } else { 0 },
    ) + seq!['|']
}

/// `n` dashes.
pub open spec fn dashes(n: nat) -> Seq<char> {
    Seq::new(n, |i: int| '─')
}

/// Draws the seek bar with its marker at cell `pos` of a track of `bar_width` cells.
pub fn seek_bar_at(pos: u32, bar_width: u32) -> (bar: String)
    ensures
        bar@ == seek_bar_text(pos as nat, bar_width as nat),
{
    let mut bar = String::new();
    bar.push('|');
    let mut i: u32 = 0;
    while i < pos
        invariant
            i <= pos,
            bar@ =~= seq!['|'] + dashes(i as nat),
        decreases pos - i,
    {
        bar.push('─');
        i = i + 1;
    }
    bar.push('●');
    let ghost head = bar@;
    let mut j: u32 = pos;
    while j < bar_width
        invariant
            j >= pos,
            j <= (if pos < bar_width { bar_width } else { pos }),
            bar@ =~= head + dashes((j - pos) as nat),
        decreases bar_width - j,
    {
        bar.push('─');
        j = j + 1;
    }
    bar.push('|');
    assert(bar@ =~= seek_bar_text(pos as nat, bar_width as nat));
    bar
}

/// The width of the track of a seek bar drawn `width` cells wide: two cells
/// go to the end marks.
pub fn seek_bar_track_width(width: u32) -> (w: u32)
    ensures
        w == (if width >= 2 { width - 2 } else { 0 }),
{
    width.saturating_sub(2)
}

} // verus!
