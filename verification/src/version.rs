//! Firmware version timestamps.
//!
//! A firmware build is identified by a timestamp string in the fixed format
//! `YYYY-MM-DD HH:MM:SS`; the update server may append a `.bin` suffix.
//! An update is wanted exactly when the server's timestamp is strictly newer
//! than the running build's; a malformed timestamp on either side means "no
//! update", and nothing here panics.

use vstd::prelude::*;
use vstd::string::StrSliceExecFns;
use crate::textfmt::spec_digit;
use crate::textfmt::spec_is_digit;

verus! {

/// A calendar timestamp with field-by-field validity.
#[derive(Debug, Clone, Copy, PartialEq, Eq, Structural)]
pub struct Timestamp {
    pub year: u32,
    pub month: u32,
    pub day: u32,
    pub hour: u32,
    pub minute: u32,
    pub second: u32,
}

/// Leap years in the Gregorian calendar.
pub open spec fn spec_is_leap_year(year: int) -> bool {
    year % 4 == 0 && (year % 100 != 0 || year % 400 == 0)
}

/// Days in a month of the Gregorian calendar.
pub open spec fn spec_days_in_month(year: int, month: int) -> int {
    if month == 2 {
        if spec_is_leap_year(year) {
            29
        } else {
            28
        }
    } else if month == 4 || month == 6 || month == 9 || month == 11 {
        30
    } else {
        31
    }
}

impl Timestamp {
    /// Every field within its calendar range.
    pub open spec fn wf(self) -> bool {
        &&& self.year <= 9999
        &&& 1 <= self.month <= 12
        &&& 1 <= self.day <= spec_days_in_month(self.year as int, self.month as int)
        &&& self.hour <= 23
        &&& self.minute <= 59
        &&& self.second <= 59
    }

    /// The timestamp folded into one integer; later timestamps fold to
    /// strictly larger values.
    pub open spec fn value(self) -> int {
        self.second + 60 * (self.minute + 60 * (self.hour + 24 * ((self.day - 1) + 31 * ((
        self.month - 1) + 12 * self.year))))
    }
}

/// Whether `a` is strictly newer than `b`.
pub open spec fn spec_newer(a: Timestamp, b: Timestamp) -> bool {
    a.value() > b.value()
}

/// The string has the shape `YYYY-MM-DD HH:MM:SS`.
pub open spec fn spec_ts_format(s: Seq<char>) -> bool {
    &&& s.len() == 19
    &&& spec_is_digit(s[0]) && spec_is_digit(s[1]) && spec_is_digit(s[2]) && spec_is_digit(s[3])
    &&& s[4] == '-'
    &&& spec_is_digit(s[5]) && spec_is_digit(s[6])
    &&& s[7] == '-'
    &&& spec_is_digit(s[8]) && spec_is_digit(s[9])
    &&& s[10] == ' '
    &&& spec_is_digit(s[11]) && spec_is_digit(s[12])
    &&& s[13] == ':'
    &&& spec_is_digit(s[14]) && spec_is_digit(s[15])
    &&& s[16] == ':'
    &&& spec_is_digit(s[17]) && spec_is_digit(s[18])
}

/// The fields spelled by a string of that shape.
pub open spec fn spec_ts_of(s: Seq<char>) -> Timestamp {
    Timestamp {
        year: (spec_digit(s[0]) * 1000 + spec_digit(s[1]) * 100 + spec_digit(s[2]) * 10
            + spec_digit(s[3])) as u32,
        month: (spec_digit(s[5]) * 10 + spec_digit(s[6])) as u32,
        day: (spec_digit(s[8]) * 10 + spec_digit(s[9])) as u32,
        hour: (spec_digit(s[11]) * 10 + spec_digit(s[12])) as u32,
        minute: (spec_digit(s[14]) * 10 + spec_digit(s[15])) as u32,
        second: (spec_digit(s[17]) * 10 + spec_digit(s[18])) as u32,
    }
}

/// What parsing a timestamp string yields: the spelled fields when the shape
/// and the calendar both agree, nothing otherwise.
pub open spec fn spec_parse_timestamp(s: Seq<char>) -> Option<Timestamp> {
    if spec_ts_format(s) && spec_ts_of(s).wf() {
        Some(spec_ts_of(s))
    } else {
        None
    }
}

/// Reads one digit, `None` for any other character.
fn digit_of(c: char) -> (r: Option<u32>)
    ensures
        r matches Some(d) ==> spec_is_digit(c) && d == spec_digit(c) && d <= 9,
        r is None <==> !spec_is_digit(c),
{
    let v = c as u32;
    if 48 <= v && v <= 57 {
        Some(v - 48)
    } else {
        None
    }
}

/// Reads the two-digit field at `pos`.
fn two_digits(s: &str, pos: usize) -> (r: Option<u32>)
    requires
        pos + 2 <= s@.len() <= usize::MAX,
    ensures
        r matches Some(v) ==> spec_is_digit(s@[pos as int]) && spec_is_digit(s@[pos + 1]) && v
            == spec_digit(s@[pos as int]) * 10 + spec_digit(s@[pos + 1]),
        r is None <==> !(spec_is_digit(s@[pos as int]) && spec_is_digit(s@[pos + 1])),
{
    let hi = digit_of(s.get_char(pos));
    let lo = digit_of(s.get_char(pos + 1));
    match (hi, lo) {
        (Some(h), Some(l)) => Some(h * 10 + l),
        _ => None,
    }
}

/// Whether the year is a Gregorian leap year.
pub fn is_leap_year(year: u32) -> (r: bool)
    ensures
        r == spec_is_leap_year(year as int),
{
    year % 4 == 0 && (year % 100 != 0 || year % 400 == 0)
}

/// Days in the given month.
pub fn days_in_month(year: u32, month: u32) -> (r: u32)
    ensures
        r == spec_days_in_month(year as int, month as int),
{
    if month == 2 {
        if is_leap_year(year) {
            29
        } else {
            28
        }
    } else if month == 4 || month == 6 || month == 9 || month == 11 {
        30
    } else {
        31
    }
}

/// Parses a `YYYY-MM-DD HH:MM:SS` string, `None` whenever the shape or the
/// calendar is violated.
pub fn parse_timestamp(s: &str) -> (r: Option<Timestamp>)
    ensures
        r == spec_parse_timestamp(s@),
{
    if s.unicode_len() != 19 {
        return None;
    }
    if s.get_char(4) != '-' || s.get_char(7) != '-' || s.get_char(10) != ' ' || s.get_char(13)
        != ':' || s.get_char(16) != ':' {
        return None;
    }
    let y_hi = match two_digits(s, 0) {
        Some(v) => v,
        None => { return None },
    };
    let y_lo = match two_digits(s, 2) {
        Some(v) => v,
        None => { return None },
    };
    let month = match two_digits(s, 5) {
        Some(v) => v,
        None => { return None },
    };
    let day = match two_digits(s, 8) {
        Some(v) => v,
        None => { return None },
    };
    let hour = match two_digits(s, 11) {
        Some(v) => v,
        None => { return None },
    };
    let minute = match two_digits(s, 14) {
        Some(v) => v,
        None => { return None },
    };
    let second = match two_digits(s, 17) {
        Some(v) => v,
        None => { return None },
    };
    let year = y_hi * 100 + y_lo;
    let t = Timestamp { year, month, day, hour, minute, second };
    if month < 1 || month > 12 {
        return None;
    }
    if day < 1 || day > days_in_month(year, month) {
        return None;
    }
    if hour > 23 || minute > 59 || second > 59 {
        return None;
    }
    Some(t)
}

/// The string ends in `.bin`.
pub open spec fn spec_has_bin_suffix(s: Seq<char>) -> bool {
    s.len() >= 4 && s.subrange(s.len() - 4, s.len() as int) =~= seq!['.', 'b', 'i', 'n']
}

/// The string with one trailing `.bin` removed, if it carries one.
pub open spec fn spec_strip_bin_suffix(s: Seq<char>) -> Seq<char> {
    if spec_has_bin_suffix(s) {
        s.subrange(0, s.len() - 4)
    } else {
        s
    }
}

/// Removes one trailing `.bin` from a server version string.
pub fn strip_bin_suffix(s: &str) -> (r: &str)
    ensures
        r@ == spec_strip_bin_suffix(s@),
{
    let n = s.unicode_len();
    if n >= 4 && s.get_char(n - 4) == '.' && s.get_char(n - 3) == 'b' && s.get_char(n - 2) == 'i'
        && s.get_char(n - 1) == 'n' {
        let r = s.substring_char(0, n - 4);
        proof {
            assert(s@.subrange(s@.len() - 4, s@.len() as int) =~= seq!['.', 'b', 'i', 'n']);
        }
        r
    } else {
        proof {
            if s@.len() >= 4 {
                assert(s@.subrange(s@.len() - 4, s@.len() as int).len() == 4);
                if s@.subrange(s@.len() - 4, s@.len() as int) =~= seq!['.', 'b', 'i', 'n'] {
                    assert(s@[s@.len() - 4] == '.');
                    assert(s@[s@.len() - 3] == 'b');
                    assert(s@[s@.len() - 2] == 'i');
                    assert(s@[s@.len() - 1] == 'n');
                }
            }
        }
        s
    }
}

/// What the version comparison decides: an update is wanted exactly when
/// both timestamps are well formed and the remote one is strictly newer.
pub open spec fn spec_judge_version(remote: Seq<char>, build: Seq<char>) -> bool {
    match (spec_parse_timestamp(spec_strip_bin_suffix(remote)), spec_parse_timestamp(build)) {
        (Some(r), Some(b)) => spec_newer(r, b),
        _ => false,
    }
}

/// Compares the server's advertised version timestamp (possibly suffixed
/// `.bin`) against the running build's timestamp. `true` exactly when both
/// parse and the server's is strictly newer; malformed input on either side
/// is fail-safe `false`.
pub fn judge_version(remote_time: &str, build_time: &str) -> (r: bool)
    ensures
        r == spec_judge_version(remote_time@, build_time@),
{
    let stripped = strip_bin_suffix(remote_time);
    let remote = parse_timestamp(stripped);
    let build = parse_timestamp(build_time);
    match (remote, build) {
        (Some(r), Some(b)) => newer(r, b),
        _ => false,
    }
}

/// Whether `a` is strictly newer than `b`, field by field.
pub fn newer(a: Timestamp, b: Timestamp) -> (r: bool)
    requires
        a.wf(),
        b.wf(),
    ensures
        r == spec_newer(a, b),
{
    let r = if a.year != b.year {
        a.year > b.year
    } else if a.month != b.month {
        a.month > b.month
    } else if a.day != b.day {
        a.day > b.day
    } else if a.hour != b.hour {
        a.hour > b.hour
    } else if a.minute != b.minute {
        a.minute > b.minute
    } else {
        a.second > b.second
    };
    proof {
        lemma_value_order(a, b);
    }
    r
}

/// Folding to an integer respects lexicographic field order: the fold of
/// `a` exceeds the fold of `b` exactly when `a`'s first differing field
/// exceeds `b`'s.
pub proof fn lemma_value_order(a: Timestamp, b: Timestamp)
    requires
        a.wf(),
        b.wf(),
    ensures
        spec_newer(a, b) <==> (if a.year != b.year {
            a.year > b.year
        } else if a.month != b.month {
            a.month > b.month
        } else if a.day != b.day {
            a.day > b.day
        } else if a.hour != b.hour {
            a.hour > b.hour
        } else if a.minute != b.minute {
            a.minute > b.minute
        } else {
            a.second > b.second
        }),
{
    let av = a.value();
    let bv = b.value();
    assert(av == a.second + 60 * (a.minute + 60 * (a.hour + 24 * ((a.day - 1) + 31 * ((a.month - 1)
        + 12 * a.year)))));
    lemma_mixed_radix_order(
        a.year as int,
        a.month as int,
        a.day as int,
        a.hour as int,
        a.minute as int,
        a.second as int,
        b.year as int,
        b.month as int,
        b.day as int,
        b.hour as int,
        b.minute as int,
        b.second as int,
    );
}

/// Mixed-radix packing of bounded fields is order preserving.
proof fn lemma_mixed_radix_order(
    y1: int,
    mo1: int,
    d1: int,
    h1: int,
    mi1: int,
    s1: int,
    y2: int,
    mo2: int,
    d2: int,
    h2: int,
    mi2: int,
    s2: int,
)
    requires
        0 <= y1 <= 9999,
        1 <= mo1 <= 12,
        1 <= d1 <= 31,
        0 <= h1 <= 23,
        0 <= mi1 <= 59,
        0 <= s1 <= 59,
        0 <= y2 <= 9999,
        1 <= mo2 <= 12,
        1 <= d2 <= 31,
        0 <= h2 <= 23,
        0 <= mi2 <= 59,
        0 <= s2 <= 59,
    ensures
        (s1 + 60 * (mi1 + 60 * (h1 + 24 * ((d1 - 1) + 31 * ((mo1 - 1) + 12 * y1)))) > s2 + 60 * (
        mi2 + 60 * (h2 + 24 * ((d2 - 1) + 31 * ((mo2 - 1) + 12 * y2))))) <==> (if y1 != y2 {
            y1 > y2
        } else if mo1 != mo2 {
            mo1 > mo2
        } else if d1 != d2 {
            d1 > d2
        } else if h1 != h2 {
            h1 > h2
        } else if mi1 != mi2 {
            mi1 > mi2
        } else {
            s1 > s2
        }),
{
    let p1 = (d1 - 1) + 31 * ((mo1 - 1) + 12 * y1);
    let p2 = (d2 - 1) + 31 * ((mo2 - 1) + 12 * y2);
    let q1 = mi1 + 60 * (h1 + 24 * p1);
    let q2 = mi2 + 60 * (h2 + 24 * p2);
    assert((mo1 - 1) + 12 * y1 > (mo2 - 1) + 12 * y2 <==> (if y1 != y2 {
        y1 > y2
    } else {
        mo1 > mo2
    })) by (nonlinear_arith)
        requires
            0 <= y1 <= 9999,
            1 <= mo1 <= 12,
            0 <= y2 <= 9999,
            1 <= mo2 <= 12,
    ;
    assert(p1 > p2 <==> (if y1 != y2 {
        y1 > y2
    } else if mo1 != mo2 {
        mo1 > mo2
    } else {
        d1 > d2
    })) by (nonlinear_arith)
        requires
            0 <= y1 <= 9999,
            1 <= mo1 <= 12,
            1 <= d1 <= 31,
            0 <= y2 <= 9999,
            1 <= mo2 <= 12,
            1 <= d2 <= 31,
            p1 == (d1 - 1) + 31 * ((mo1 - 1) + 12 * y1),
            p2 == (d2 - 1) + 31 * ((mo2 - 1) + 12 * y2),
            ((mo1 - 1) + 12 * y1 > (mo2 - 1) + 12 * y2 <==> (if y1 != y2 {
                y1 > y2
            } else {
                mo1 > mo2
            })),
            ((mo1 - 1) + 12 * y1 == (mo2 - 1) + 12 * y2 <==> y1 == y2 && mo1 == mo2),
    ;
    assert(((mo1 - 1) + 12 * y1 == (mo2 - 1) + 12 * y2 <==> y1 == y2 && mo1 == mo2))
        by (nonlinear_arith)
        requires
            0 <= y1 <= 9999,
            1 <= mo1 <= 12,
            0 <= y2 <= 9999,
            1 <= mo2 <= 12,
    ;
    assert(p1 == p2 <==> y1 == y2 && mo1 == mo2 && d1 == d2) by (nonlinear_arith)
        requires
            0 <= y1 <= 9999,
            1 <= mo1 <= 12,
            1 <= d1 <= 31,
            0 <= y2 <= 9999,
            1 <= mo2 <= 12,
            1 <= d2 <= 31,
            p1 == (d1 - 1) + 31 * ((mo1 - 1) + 12 * y1),
            p2 == (d2 - 1) + 31 * ((mo2 - 1) + 12 * y2),
            ((mo1 - 1) + 12 * y1 == (mo2 - 1) + 12 * y2 <==> y1 == y2 && mo1 == mo2),
    ;
    assert(h1 + 24 * p1 > h2 + 24 * p2 <==> (if p1 != p2 {
        p1 > p2
    } else {
        h1 > h2
    })) by (nonlinear_arith)
        requires
            0 <= h1 <= 23,
            0 <= h2 <= 23,
    ;
    assert(h1 + 24 * p1 == h2 + 24 * p2 <==> p1 == p2 && h1 == h2) by (nonlinear_arith)
        requires
            0 <= h1 <= 23,
            0 <= h2 <= 23,
    ;
    assert(q1 > q2 <==> (if h1 + 24 * p1 != h2 + 24 * p2 {
        h1 + 24 * p1 > h2 + 24 * p2
    } else {
        mi1 > mi2
    })) by (nonlinear_arith)
        requires
            0 <= mi1 <= 59,
            0 <= mi2 <= 59,
            q1 == mi1 + 60 * (h1 + 24 * p1),
            q2 == mi2 + 60 * (h2 + 24 * p2),
    ;
    assert(q1 == q2 <==> h1 + 24 * p1 == h2 + 24 * p2 && mi1 == mi2) by (nonlinear_arith)
        requires
            0 <= mi1 <= 59,
            0 <= mi2 <= 59,
            q1 == mi1 + 60 * (h1 + 24 * p1),
            q2 == mi2 + 60 * (h2 + 24 * p2),
    ;
    assert(s1 + 60 * q1 > s2 + 60 * q2 <==> (if q1 != q2 {
        q1 > q2
    } else {
        s1 > s2
    })) by (nonlinear_arith)
        requires
            0 <= s1 <= 59,
            0 <= s2 <= 59,
    ;
}

/// The comparison is irreflexive: no timestamp is newer than itself, so a
/// build never reports an update for its own version.
pub proof fn lemma_newer_irreflexive(t: Timestamp)
    ensures
        !spec_newer(t, t),
{
}

/// The comparison is asymmetric: of two timestamps, at most one is newer.
pub proof fn lemma_newer_asymmetric(a: Timestamp, b: Timestamp)
    ensures
        spec_newer(a, b) ==> !spec_newer(b, a),
{
}

/// The comparison is transitive.
pub proof fn lemma_newer_transitive(a: Timestamp, b: Timestamp, c: Timestamp)
    ensures
        spec_newer(a, b) && spec_newer(b, c) ==> spec_newer(a, c),
{
}

/// The comparison is total: two well-formed timestamps that fold to the same
/// value are the same timestamp, so either one is newer or they are equal.
pub proof fn lemma_newer_total(a: Timestamp, b: Timestamp)
    requires
        a.wf(),
        b.wf(),
    ensures
        spec_newer(a, b) || spec_newer(b, a) || a == b,
{
    lemma_value_order(a, b);
    lemma_value_order(b, a);
}

} // verus!
