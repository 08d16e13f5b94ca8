//! Building `String`s character by character, and decimal numbers.
use vstd::prelude::*;

verus! {

/// `String::push` appends one character at the end of the string.
pub assume_specification[ String::push ](s: &mut String, ch: char)
    ensures
        final(s)@ == old(s)@.push(ch),
;

/// `String::push_str` appends the characters of `t` at the end of the string.
pub assume_specification[ String::push_str ](s: &mut String, t: &str)
    ensures
        final(s)@ == old(s)@ + t@,
;

/// `String::pop` takes the last character off the string, if there is one.
pub assume_specification[ String::pop ](s: &mut String) -> (r: Option<char>)
    ensures
        old(s)@.len() == 0 ==> r is None && final(s)@ == old(s)@,
        old(s)@.len() > 0 ==> r == Some(old(s)@.last()) && final(s)@ == old(s)@.drop_last(),
;

/// `String::clear` empties the string.
pub assume_specification[ String::clear ](s: &mut String)
    ensures
        final(s)@ == Seq::<char>::empty(),
;

/// The character of a decimal digit.
pub open spec fn digit_char(d: nat) -> char {
    (d + 48) as char
}

/// The decimal representation of `n`, without leading zeros.
pub open spec fn decimal(n: nat) -> Seq<char>
    decreases n,
{
    if n < 10 {
        seq![digit_char(n)]
    } else {
        decimal(n / 10).push(digit_char(n % 10))
    }
}

/// The decimal representation of `n` padded with zeros to at least two characters.
pub open spec fn decimal_pad2(n: nat) -> Seq<char> {
    if n < 10 {
        seq!['0', digit_char(n)]
    } else {
        decimal(n)
    }
}

/// The character of the digit `d`.
pub fn digit_to_char(d: u64) -> (c: char)
    requires
        d < 10,
    ensures
        c == digit_char(d as nat),
{
    let b: u8 = 48u8 + d as u8;
    b as char
}

/// Appends the decimal representation of `n` to `s`.
pub fn push_decimal(s: &mut String, n: u64)
    ensures
        final(s)@ == old(s)@ + decimal(n as nat),
    decreases n,
{
    if n < 10 {
        s.push(digit_to_char(n));
        assert(old(s)@.push(digit_char(n as nat)) =~= old(s)@ + decimal(n as nat));
    } else {
        push_decimal(s, n / 10);
        s.push(digit_to_char(n % 10));
        assert(final(s)@ =~= old(s)@ + decimal(n as nat));
    }
}

/// Appends the decimal representation of `n`, padded with zeros to two characters, to `s`.
pub fn push_decimal_pad2(s: &mut String, n: u64)
    ensures
        final(s)@ == old(s)@ + decimal_pad2(n as nat),
{
    if n < 10 {
        s.push('0');
        s.push(digit_to_char(n));
        assert(final(s)@ =~= old(s)@ + decimal_pad2(n as nat));
    } else {
        push_decimal(s, n);
    }
}

/// A new string holding the characters of `s`.
pub fn string_from(s: &str) -> (out: String)
    ensures
        out@ == s@,
{
    let mut out = String::new();
    out.push_str(s);
    assert(out@ =~= s@);
    out
}

/// The characters of `s`, in order.
pub fn chars_of(s: &str) -> (v: Vec<char>)
    ensures
        v@ == s@,
{
    let mut v: Vec<char> = Vec::new();
    for c in it: s.chars()
        invariant
            v@ == it.seq().take(it.index()),
            it.seq() == s@,
    {
        v.push(c);
    }
    v
}

/// The string made of the characters of `v`.
pub fn string_of(v: &Vec<char>) -> (s: String)
    ensures
        s@ == v@,
{
    let mut s = String::new();
    let n = v.len();
    for i in 0..n
        invariant
            n == v@.len(),
            s@ =~= v@.take(i as int),
    {
        s.push(v[i]);
    }
    assert(v@.take(n as int) =~= v@);
    s
}

/// Why text is not a number, as `std::num::IntErrorKind` tells it.
#[derive(Debug, Clone, Copy, PartialEq, Eq, Structural)]
pub enum ParseNumberError {
    /// The text is empty.
    Empty,
    /// The text holds something other than digits after an optional `+`.
    InvalidDigit,
    /// The number is too large for its type.
    PosOverflow,
}

impl ParseNumberError {
    /// The message of `std::num::ParseIntError` for this kind of error.
    pub fn message(&self) -> (m: &'static str)
        ensures
            m@ == parse_error_text(*self),
    {
        match self {
            ParseNumberError::Empty => "cannot parse integer from empty string",
            ParseNumberError::InvalidDigit => "invalid digit found in string",
            ParseNumberError::PosOverflow => "number too large to fit in target type",
        }
    }
}

/// The message of each parse error.
pub open spec fn parse_error_text(e: ParseNumberError) -> Seq<char> {
    match e {
        ParseNumberError::Empty => "cannot parse integer from empty string"@,
        ParseNumberError::InvalidDigit => "invalid digit found in string"@,
        ParseNumberError::PosOverflow => "number too large to fit in target type"@,
    }
}

/// Whether `c` is an ASCII decimal digit.
pub open spec fn is_digit(c: char) -> bool {
    '0' <= c <= '9'
}

/// Reads the digits `d` after the value `acc` read so far, left to right: the
/// first character that is not a digit, or the first digit that takes the
/// value beyond `max`, decides the error.
pub open spec fn read_digits(d: Seq<char>, acc: nat, max: nat) -> Result<nat, ParseNumberError>
    decreases d.len(),
{
    if d.len() == 0 {
        Ok(acc)
    } else if !is_digit(d[0]) {
        Err(ParseNumberError::InvalidDigit)
    } else if acc * 10 + (d[0] as nat - 48) > max {
        Err(ParseNumberError::PosOverflow)
    } else {
        read_digits(d.drop_first(), (acc * 10 + (d[0] as nat - 48)) as nat, max)
    }
}

/// What `str::parse` gives for an unsigned integer type whose largest value
/// is `max`: an optional leading `+`, then one or more decimal digits.
pub open spec fn parse_unsigned(s: Seq<char>, max: nat) -> Result<nat, ParseNumberError> {
    if s.len() == 0 {
        Err(ParseNumberError::Empty)
    } else if s.len() == 1 && (s[0] == '+' || s[0] == '-') {
        Err(ParseNumberError::InvalidDigit)
    } else if s[0] == '+' {
        read_digits(s.drop_first(), 0, max)
    } else {
        read_digits(s, 0, max)
    }
}

/// Parses `s` as a decimal number no larger than `max`, as `str::parse` does.
pub fn parse_decimal(s: &str, max: u64) -> (r: Result<u64, ParseNumberError>)
    ensures
        match parse_unsigned(s@, max as nat) {
            Ok(n) => r == Ok::<u64, ParseNumberError>(n as u64),
            Err(e) => r == Err::<u64, ParseNumberError>(e),
        },
        r matches Ok(v) ==> v <= max,
        parse_unsigned(s@, max as nat) matches Ok(n) ==> n <= max,
{
    let chars = chars_of(s);
    let n = chars.len();
    if n == 0 {
        return Err(ParseNumberError::Empty);
    }
    if n == 1 && (chars[0] == '+' || chars[0] == '-') {
        return Err(ParseNumberError::InvalidDigit);
    }
    let start: usize = if chars[0] == '+' { 1 } else { 0 };
    let ghost d = chars@.skip(start as int);
    assert(d =~= (if chars@[0] == '+' { chars@.drop_first() } else { chars@ }));
    assert(parse_unsigned(s@, max as nat) == read_digits(d, 0, max as nat));
    let mut acc: u64 = 0;
    let mut i: usize = start;
    while i < n
        invariant
            start <= i <= n,
            n == chars@.len(),
            acc <= max,
            d == chars@.skip(start as int),
            parse_unsigned(s@, max as nat) == read_digits(d, 0, max as nat),
            read_digits(d, 0, max as nat) == read_digits(chars@.skip(i as int), acc as nat, max as nat),
        decreases n - i,
    {
        let c = chars[i];
        assert(chars@.skip(i as int)[0] == c);
        if !('0' <= c && c <= '9') {
            return Err(ParseNumberError::InvalidDigit);
        }
        let v: u64 = (c as u32 - 48) as u64;
        assert(chars@.skip(i as int).drop_first() =~= chars@.skip(i + 1));
        if v > max || acc > (max - v) / 10 {
            assert(acc * 10 + v > max) by (nonlinear_arith)
                requires
                    v > max || acc > (max - v) / 10,
            ;
            return Err(ParseNumberError::PosOverflow);
        }
        assert(acc * 10 + v <= max) by (nonlinear_arith)
            requires
                acc <= (max - v) / 10,
                v <= max,
        ;
        acc = acc * 10 + v;
        i = i + 1;
    }
    assert(chars@.skip(i as int).len() == 0);
    Ok(acc)
}

} // verus!
