//! Parsing of the timer specification.
//!
//! A timer specification is either the literal `now` or a non-negative
//! decimal magnitude followed by one unit character: `s` (seconds), `m`
//! (minutes) or `h` (hours). The magnitude may not have leading zeros
//! unless it is exactly `0`, and magnitude times unit factor must fit in
//! 64 unsigned bits. Surrounding whitespace is trimmed before the
//! magnitude/unit split. `spec_parse_timer` states the whole function;
//! `parse_timer` implements it.

use vstd::prelude::*;
use vstd::string::StrSliceExecFns;

verus! {

/// Why a timer specification was rejected: it is malformed (`InvalidFormat`:
/// empty magnitude, leading zero, non-numeric magnitude, unknown unit), or
/// the delay it denotes exceeds the representable range (`Overflow`).
#[derive(Clone, Copy, Debug, PartialEq, Eq, Structural)]
pub enum ParseError {
    InvalidFormat,
    Overflow,
}

impl ParseError {
    /// The user-facing message for this error.
    pub fn message(&self) -> (r: &'static str)
        ensures
            *self == ParseError::InvalidFormat ==> r@ == "Invalid parameter for <time>"@,
            *self == ParseError::Overflow ==> r@ == "Maximum time exceeded"@,
    {
        match self {
            ParseError::InvalidFormat => "Invalid parameter for <time>",
            ParseError::Overflow => "Maximum time exceeded",
        }
    }
}

/// Whether `c` is whitespace (the characters `str::trim` removes).
pub open spec fn is_space_char(c: char) -> bool {
    c == ' ' || c == '\t' || c == '\n' || c == '\u{0B}' || c == '\u{0C}' || c == '\r' || c
        == '\u{85}' || c == '\u{A0}' || c == '\u{1680}' || c == '\u{2000}' || c == '\u{2001}' || c
        == '\u{2002}' || c == '\u{2003}' || c == '\u{2004}' || c == '\u{2005}' || c == '\u{2006}'
        || c == '\u{2007}' || c == '\u{2008}' || c == '\u{2009}' || c == '\u{200A}' || c
        == '\u{2028}' || c == '\u{2029}' || c == '\u{202F}' || c == '\u{205F}' || c == '\u{3000}'
}

fn is_space(c: char) -> (r: bool)
    ensures
        r == is_space_char(c),
{
    c == ' ' || c == '\t' || c == '\n' || c == '\u{0B}' || c == '\u{0C}' || c == '\r' || c
        == '\u{85}' || c == '\u{A0}' || c == '\u{1680}' || c == '\u{2000}' || c == '\u{2001}' || c
        == '\u{2002}' || c == '\u{2003}' || c == '\u{2004}' || c == '\u{2005}' || c == '\u{2006}'
        || c == '\u{2007}' || c == '\u{2008}' || c == '\u{2009}' || c == '\u{200A}' || c
        == '\u{2028}' || c == '\u{2029}' || c == '\u{202F}' || c == '\u{205F}' || c == '\u{3000}'
}

/// Whether `c` is a decimal digit.
pub open spec fn is_digit_char(c: char) -> bool {
    c == '0' || c == '1' || c == '2' || c == '3' || c == '4' || c == '5' || c == '6' || c == '7'
        || c == '8' || c == '9'
}

fn is_digit(c: char) -> (r: bool)
    ensures
        r == is_digit_char(c),
{
    c == '0' || c == '1' || c == '2' || c == '3' || c == '4' || c == '5' || c == '6' || c == '7'
        || c == '8' || c == '9'
}

/// The value of the decimal digit `c` (zero for a non-digit).
pub open spec fn digit_val(c: char) -> nat {
    if c == '1' {
        1
    } else if c == '2' {
        2
    } else if c == '3' {
        3
    } else if c == '4' {
        4
    } else if c == '5' {
        5
    } else if c == '6' {
        6
    } else if c == '7' {
        7
    } else if c == '8' {
        8
    } else if c == '9' {
        9
    } else {
        0
    }
}

fn digit_value(c: char) -> (r: u64)
    requires
        is_digit_char(c),
    ensures
        r == digit_val(c),
        r <= 9,
{
    if c == '1' {
        1
    } else if c == '2' {
        2
    } else if c == '3' {
        3
    } else if c == '4' {
        4
    } else if c == '5' {
        5
    } else if c == '6' {
        6
    } else if c == '7' {
        7
    } else if c == '8' {
        8
    } else if c == '9' {
        9
    } else {
        0
    }
}

/// Whether every character of `s` is a decimal digit.
pub open spec fn all_digits(s: Seq<char>) -> bool {
    forall|i: int| 0 <= i < s.len() ==> is_digit_char(s[i])
}

/// The value of the digit string `s` read as a decimal numeral (non-digit
/// characters count as zero).
pub open spec fn digits_value(s: Seq<char>) -> nat
    decreases s.len(),
{
    if s.len() == 0 {
        0
    } else {
        digits_value(s.drop_last()) * 10 + digit_val(s.last())
    }
}

/// Whether `c` is a recognized unit character.
pub open spec fn is_unit_char(c: char) -> bool {
    c == 's' || c == 'm' || c == 'h'
}

/// The number of seconds in one unit `c` (zero for an unrecognized unit).
pub open spec fn unit_seconds(c: char) -> nat {
    if c == 's' {
        1
    } else if c == 'm' {
        60
    } else if c == 'h' {
        3600
    } else {
        0
    }
}

/// The index of the first non-whitespace character of `s` at or after `i`
/// (`s.len()` if there is none).
pub open spec fn scan_front(s: Seq<char>, i: int) -> int
    decreases s.len() - i,
    when 0 <= i <= s.len()
{
    if i < s.len() && is_space_char(s[i]) {
        scan_front(s, i + 1)
    } else {
        i
    }
}

/// One past the index of the last non-whitespace character of `s` strictly
/// before `j` (zero if there is none).
pub open spec fn scan_back(s: Seq<char>, j: int) -> int
    decreases j,
    when 0 <= j <= s.len()
{
    if j > 0 && is_space_char(s[j - 1]) {
        scan_back(s, j - 1)
    } else {
        j
    }
}

/// `s` with leading and trailing whitespace removed.
pub open spec fn spec_trim(s: Seq<char>) -> Seq<char> {
    let a = scan_front(s, 0);
    let b = scan_back(s, s.len() as int);
    if a <= b {
        s.subrange(a, b)
    } else {
        Seq::empty()
    }
}

/// What parsing a timer specification yields.
///
/// The literal `now` denotes zero seconds. Any other input is trimmed and
/// split into a magnitude (all characters but the last) and a unit (the
/// last character); it is rejected as `InvalidFormat` when the magnitude is
/// empty, has a leading zero without being exactly `0`, is not a decimal
/// numeral fitting an unsigned 64-bit integer, or when the unit is none of
/// `s`, `m`, `h`; it is rejected as `Overflow` when magnitude times unit
/// seconds exceeds `u64::MAX`; otherwise it denotes magnitude times unit
/// seconds.
pub open spec fn spec_parse_timer(s: Seq<char>) -> Result<u64, ParseError> {
    if s == seq!['n', 'o', 'w'] {
        Ok(0)
    } else {
        let t = spec_trim(s);
        if t.len() < 2 {
            Err(ParseError::InvalidFormat)
        } else {
            let magnitude = t.drop_last();
            let unit = t.last();
            if magnitude[0] == '0' && magnitude.len() > 1 {
                Err(ParseError::InvalidFormat)
            } else if !all_digits(magnitude) {
                Err(ParseError::InvalidFormat)
            } else if digits_value(magnitude) > u64::MAX {
                Err(ParseError::InvalidFormat)
            } else if !is_unit_char(unit) {
                Err(ParseError::InvalidFormat)
            } else if digits_value(magnitude) > u64::MAX as nat / unit_seconds(unit) {
                Err(ParseError::Overflow)
            } else {
                Ok((digits_value(magnitude) * unit_seconds(unit)) as u64)
            }
        }
    }
}

/// Appending characters to a decimal numeral never decreases its value:
/// the value of `s.subrange(0, i)` is at most the value of all of `s`.
proof fn lemma_digits_value_prefix_le(s: Seq<char>, i: int)
    requires
        0 <= i <= s.len(),
    ensures
        digits_value(s.subrange(0, i)) <= digits_value(s),
    decreases s.len() - i,
{
    if i == s.len() {
        assert(s.subrange(0, i) =~= s);
    } else {
        let shorter = s.subrange(0, i);
        let longer = s.subrange(0, i + 1);
        assert(longer.drop_last() =~= shorter);
        lemma_digits_value_prefix_le(s, i + 1);
    }
}

/// A string without whitespace is its own trimmed form.
proof fn lemma_trim_no_space(s: Seq<char>)
    requires
        forall|i: int| 0 <= i < s.len() ==> !is_space_char(s[i]),
    ensures
        spec_trim(s) == s,
{
    assert(scan_front(s, 0) == 0);
    assert(scan_back(s, s.len() as int) == s.len() as int);
    assert(s.subrange(0, s.len() as int) =~= s);
}

/// A magnitude with a leading zero is rejected as `InvalidFormat` unless it
/// is exactly `0`: any input whose trimmed form starts with `0` and still
/// has characters besides that zero and the unit fails to parse.
pub proof fn lemma_leading_zero_rejected(s: Seq<char>)
    requires
        spec_trim(s).len() > 2,
        spec_trim(s)[0] == '0',
    ensures
        spec_parse_timer(s) == Err::<u64, ParseError>(ParseError::InvalidFormat),
{
    if s == seq!['n', 'o', 'w'] {
        assert(forall|i: int| 0 <= i < s.len() ==> !is_space_char(s[i]));
        lemma_trim_no_space(s);
        assert(spec_trim(s)[0] == 'n');
    }
    assert(spec_trim(s).drop_last()[0] == '0');
}

/// An input (other than the literal `now`) whose trimmed form ends in a
/// character that is not a recognized unit is rejected as `InvalidFormat`.
pub proof fn lemma_unknown_unit_rejected(s: Seq<char>)
    requires
        s != seq!['n', 'o', 'w'],
        spec_trim(s).len() > 0,
        !is_unit_char(spec_trim(s).last()),
    ensures
        spec_parse_timer(s) == Err::<u64, ParseError>(ParseError::InvalidFormat),
{
}

/// An input (other than the literal `now`) whose magnitude is absent — the
/// trimmed form holds at most one character — is rejected as
/// `InvalidFormat`.
pub proof fn lemma_missing_magnitude_rejected(s: Seq<char>)
    requires
        s != seq!['n', 'o', 'w'],
        spec_trim(s).len() <= 1,
    ensures
        spec_parse_timer(s) == Err::<u64, ParseError>(ParseError::InvalidFormat),
{
}

/// The overflow boundary is exact. For a well-formed magnitude `M` (decimal
/// digits, no leading zero unless exactly `0`, value at most `u64::MAX`)
/// followed by a recognized unit of `U` seconds: when `M > u64::MAX / U`
/// parsing fails with `Overflow`, and when `M <= u64::MAX / U` — the
/// boundary value `M == u64::MAX / U` included — it succeeds with `M * U`.
pub proof fn lemma_overflow_boundary(magnitude: Seq<char>, unit: char)
    requires
        magnitude.len() > 0,
        all_digits(magnitude),
        magnitude[0] == '0' ==> magnitude.len() == 1,
        digits_value(magnitude) <= u64::MAX,
        is_unit_char(unit),
    ensures
        digits_value(magnitude) > u64::MAX as nat / unit_seconds(unit) ==> spec_parse_timer(
            magnitude.push(unit),
        ) == Err::<u64, ParseError>(ParseError::Overflow),
        digits_value(magnitude) <= u64::MAX as nat / unit_seconds(unit) ==> spec_parse_timer(
            magnitude.push(unit),
        ) == Ok::<u64, ParseError>((digits_value(magnitude) * unit_seconds(unit)) as u64),
{
    let s = magnitude.push(unit);
    assert forall|i: int| 0 <= i < s.len() implies !is_space_char(s[i]) by {
        if i < magnitude.len() {
            assert(is_digit_char(magnitude[i]));
        } else {
            assert(s[i] == unit);
        }
    }
    lemma_trim_no_space(s);
    if s == seq!['n', 'o', 'w'] {
        assert(is_digit_char('n'));
    }
    assert(s.drop_last() =~= magnitude);
    assert(s.last() == unit);
}

/// Parsing is a pure function of the input string: two results obtained
/// from the same character sequence — as `parse_timer` ensures for each of
/// its calls — are equal.
pub proof fn lemma_parse_timer_deterministic(
    s: Seq<char>,
    r1: Result<u64, ParseError>,
    r2: Result<u64, ParseError>,
)
    requires
        r1 == spec_parse_timer(s),
        r2 == spec_parse_timer(s),
    ensures
        r1 == r2,
{
}

/// Parses a timer specification: the literal `now`, or a decimal magnitude
/// (no leading zeros unless exactly `0`) followed by a unit `s`, `m` or
/// `h`, with surrounding whitespace ignored. Returns the total number of
/// seconds, or the reason the input is rejected, exactly as
/// `spec_parse_timer` states.
#[verifier::loop_isolation(false)]
pub fn parse_timer(set_timer: String) -> (r: Result<u64, ParseError>)
    ensures
        r == spec_parse_timer(set_timer@),
{
    let s: &str = set_timer.as_str();
    let ghost sv = s@;
    let n: usize = s.unicode_len();

    if n == 3 && s.get_char(0) == 'n' && s.get_char(1) == 'o' && s.get_char(2) == 'w' {
        proof {
            assert(sv =~= seq!['n', 'o', 'w']);
        }
        return Ok(0);
    }
    proof {
        assert(sv != seq!['n', 'o', 'w']);
    }

    // Trim: a is the first non-whitespace index, b one past the last.
    let mut a: usize = 0;
    while a < n && is_space(s.get_char(a))
        invariant
            0 <= a <= n,
            n == sv.len(),
            scan_front(sv, 0) == scan_front(sv, a as int),
        decreases n - a,
    {
        a = a + 1;
    }
    assert(scan_front(sv, 0) == a as int);

    let mut b: usize = n;
    while b > 0 && is_space(s.get_char(b - 1))
        invariant
            0 <= b <= n,
            n == sv.len(),
            scan_back(sv, n as int) == scan_back(sv, b as int),
        decreases b,
    {
        b = b - 1;
    }
    assert(scan_back(sv, n as int) == b as int);

    let ghost t = spec_trim(sv);

    if b <= a || b - a < 2 {
        assert(t.len() < 2);
        return Err(ParseError::InvalidFormat);
    }
    assert(t =~= sv.subrange(a as int, b as int));
    let ghost magnitude = t.drop_last();
    assert(magnitude =~= sv.subrange(a as int, b as int - 1));
    assert(t.last() == sv[b as int - 1]);

    // Leading zero: a magnitude longer than one character may not start
    // with '0'.
    if s.get_char(a) == '0' && b - a > 2 {
        return Err(ParseError::InvalidFormat);
    }

    // The magnitude must consist of decimal digits only.
    let mut i: usize = a;
    while i < b - 1
        invariant
            a <= i <= b - 1 < n,
            n == sv.len(),
            forall|k: int| a <= k < i ==> is_digit_char(sv[k]),
        decreases b - 1 - i,
    {
        if !is_digit(s.get_char(i)) {
            assert(!is_digit_char(magnitude[i - a]));
            return Err(ParseError::InvalidFormat);
        }
        i = i + 1;
    }
    assert(all_digits(magnitude));

    // Accumulate the magnitude's value, watching for 64-bit overflow.
    let mut acc: u64 = 0;
    let mut j: usize = a;
    while j < b - 1
        invariant
            a <= j <= b - 1 < n,
            n == sv.len(),
            magnitude =~= sv.subrange(a as int, b as int - 1),
            acc as nat == digits_value(sv.subrange(a as int, j as int)),
            forall|k: int| a <= k < b - 1 ==> is_digit_char(sv[k]),
        decreases b - 1 - j,
    {
        let d = digit_value(s.get_char(j));
        proof {
            assert(sv.subrange(a as int, j as int + 1).drop_last() =~= sv.subrange(
                a as int,
                j as int,
            ));
            assert(sv.subrange(a as int, j as int + 1).last() == sv[j as int]);
        }
        if acc > u64::MAX / 10 || (acc == u64::MAX / 10 && d > u64::MAX % 10) {
            proof {
                assert(digits_value(sv.subrange(a as int, j as int + 1)) > u64::MAX);
                lemma_digits_value_prefix_le(magnitude, j as int + 1 - a);
                assert(magnitude.subrange(0, j as int + 1 - a) =~= sv.subrange(
                    a as int,
                    j as int + 1,
                ));
                assert(digits_value(magnitude) > u64::MAX);
            }
            return Err(ParseError::InvalidFormat);
        }
        acc = acc * 10 + d;
        j = j + 1;
    }
    assert(acc as nat == digits_value(magnitude));

    // The unit character selects the multiplier.
    let u = s.get_char(b - 1);
    let factor: u64 = if u == 's' {
        1
    } else if u == 'm' {
        60
    } else if u == 'h' {
        3600
    } else {
        return Err(ParseError::InvalidFormat);
    };
    assert(factor as nat == unit_seconds(u));

    if acc > u64::MAX / factor {
        return Err(ParseError::Overflow);
    }
    assert(acc as nat * factor as nat <= u64::MAX) by {
        if factor == 1 {
        } else if factor == 60 {
            assert(acc <= u64::MAX / 60);
            assert(acc as nat * 60 <= (u64::MAX / 60) as nat * 60);
        } else {
            assert(acc <= u64::MAX / 3600);
            assert(acc as nat * 3600 <= (u64::MAX / 3600) as nat * 3600);
        }
    }
    Ok(acc * factor)
}

} // verus!
