//! Plain text shared across the crate: digit classification, decimal
//! rendering of numbers, and character-wise string comparison.

use vstd::prelude::*;
use vstd::string::StrSliceExecFns;
use vstd::string::StringExecFns;

verus! {

/// Decimal digit value of a character, meaningful for `'0'..='9'`.
pub open spec fn spec_digit(c: char) -> int {
    c as int - 48
}

/// Whether a character is a decimal digit.
pub open spec fn spec_is_digit(c: char) -> bool {
    48 <= c as int <= 57
}

/// Whether two strings spell the same characters.
pub fn str_equal(a: &str, b: &str) -> (r: bool)
    ensures
        r == (a@ == b@),
{
    let n = a.unicode_len();
    if n != b.unicode_len() {
        assert(a@.len() != b@.len());
        return false;
    }
    let mut i: usize = 0;
    while i < n
        invariant
            n == a@.len(),
            n == b@.len(),
            i <= n,
            forall|j: int| 0 <= j < i ==> a@[j] == b@[j],
        decreases n - i,
    {
        if a.get_char(i) != b.get_char(i) {
            return false;
        }
        i = i + 1;
    }
    proof {
        assert(a@ =~= b@);
    }
    true
}

/// The decimal digit character for a value below ten.
pub open spec fn spec_digit_char(d: int) -> char {
    if d == 0 {
        '0'
    } else if d == 1 {
        '1'
    } else if d == 2 {
        '2'
    } else if d == 3 {
        '3'
    } else if d == 4 {
        '4'
    } else if d == 5 {
        '5'
    } else if d == 6 {
        '6'
    } else if d == 7 {
        '7'
    } else if d == 8 {
        '8'
    } else {
        '9'
    }
}

/// The decimal spelling of a non-negative integer, most significant digit
/// first, without leading zeros (just `0` for zero).
pub open spec fn spec_dec_digits(n: int) -> Seq<char>
    decreases n,
{
    if n <= 9 {
        seq![spec_digit_char(n)]
    } else {
        spec_dec_digits(n / 10).push(spec_digit_char(n % 10))
    }
}

/// One digit as a borrowed string.
fn digit_str(d: u32) -> (r: &'static str)
    requires
        d <= 9,
    ensures
        r@ =~= seq![spec_digit_char(d as int)],
{
    let r = match d {
        0 => "0",
        1 => "1",
        2 => "2",
        3 => "3",
        4 => "4",
        5 => "5",
        6 => "6",
        7 => "7",
        8 => "8",
        _ => "9",
    };
    proof {
        reveal_strlit("0");
        reveal_strlit("1");
        reveal_strlit("2");
        reveal_strlit("3");
        reveal_strlit("4");
        reveal_strlit("5");
        reveal_strlit("6");
        reveal_strlit("7");
        reveal_strlit("8");
        reveal_strlit("9");
    }
    r
}

/// Appends the decimal spelling of `n` to `out`.
pub fn push_u32(out: &mut String, n: u32)
    ensures
        final(out)@ == old(out)@ + spec_dec_digits(n as int),
    decreases n,
{
    if n > 9 {
        push_u32(out, n / 10);
        out.append(digit_str(n % 10));
    } else {
        out.append(digit_str(n));
    }
}

/// The decimal spelling of `n` as a fresh string.
pub fn u32_string(n: u32) -> (r: String)
    ensures
        r@ == spec_dec_digits(n as int),
{
    let mut out = String::new();
    push_u32(&mut out, n);
    proof {
        assert(Seq::<char>::empty() + spec_dec_digits(n as int) =~= spec_dec_digits(n as int));
    }
    out
}

/// The spelling of a sensor value held in hundredths, with sign, one
/// truncated decimal place: the integer part, a dot, then tenths.
pub open spec fn spec_centi_chars(v: int) -> Seq<char> {
    let sign: Seq<char> = if v < 0 {
        seq!['-']
    } else {
        Seq::<char>::empty()
    };
    let m = if v < 0 {
        -v
    } else {
        v
    };
    sign + spec_dec_digits(m / 100) + seq!['.'] + seq![spec_digit_char((m % 100) / 10)]
}

/// Renders a value held in hundredths with one truncated decimal place,
/// as the sensor page shows temperature and humidity.
pub fn centi_string(v: i32) -> (r: String)
    requires
        v > i32::MIN,
    ensures
        r@ == spec_centi_chars(v as int),
{
    let mut out = String::new();
    let m: u32 = if v < 0 {
        out.append("-");
        proof {
            reveal_strlit("-");
        }
        (-v) as u32
    } else {
        v as u32
    };
    push_u32(&mut out, m / 100);
    out.append(".");
    proof {
        reveal_strlit(".");
    }
    out.append(digit_str((m % 100) / 10));
    proof {
        assert(out@ =~= spec_centi_chars(v as int));
    }
    out
}

} // verus!
