//! The text layer of the persisted-configuration format: JSON string
//! escaping, quoted-string scanning and number scanning, with the lemmas
//! that make the encoder and the parser inverses of each other.

use vstd::prelude::*;
use vstd::string::StrSliceExecFns;
use vstd::string::StringExecFns;
use crate::textfmt::spec_dec_digits;
use crate::textfmt::spec_digit;
use crate::textfmt::spec_is_digit;

verus! {

/// How one character is written inside a quoted string: a quote or a
/// backslash gets a backslash before it, anything else stands for itself.
pub open spec fn spec_escape_char(c: char) -> Seq<char> {
    if c == '"' || c == '\\' {
        seq!['\\', c]
    } else {
        seq![c]
    }
}

/// A string's characters written inside quotes.
pub open spec fn spec_escape(s: Seq<char>) -> Seq<char>
    decreases s.len(),
{
    if s.len() == 0 {
        Seq::<char>::empty()
    } else {
        spec_escape_char(s[0]) + spec_escape(s.subrange(1, s.len() as int))
    }
}

/// Escaping distributes over concatenation.
pub proof fn lemma_escape_concat(a: Seq<char>, b: Seq<char>)
    ensures
        spec_escape(a + b) =~= spec_escape(a) + spec_escape(b),
    decreases a.len(),
{
    if a.len() == 0 {
        assert(a + b =~= b);
    } else {
        let a1 = a.subrange(1, a.len() as int);
        lemma_escape_concat(a1, b);
        assert((a + b)[0] == a[0]);
        assert((a + b).subrange(1, (a + b).len() as int) =~= a1 + b);
    }
}

/// A string written with its surrounding quotes.
pub open spec fn spec_quote(s: Seq<char>) -> Seq<char> {
    seq!['"'] + spec_escape(s) + seq!['"']
}

/// Scans the inside of a quoted string, starting just after the opening
/// quote: characters up to the closing quote, a backslash taking the next
/// character literally. Yields the value and how many characters were
/// consumed, the closing quote included; nothing if the text ends first.
pub open spec fn spec_scan_quoted(s: Seq<char>) -> Option<(Seq<char>, int)>
    decreases s.len(),
{
    if s.len() == 0 {
        None
    } else if s[0] == '"' {
        Some((Seq::<char>::empty(), 1))
    } else if s[0] == '\\' {
        if s.len() < 2 {
            None
        } else {
            match spec_scan_quoted(s.subrange(2, s.len() as int)) {
                Some((v, n)) => Some((seq![s[1]] + v, n + 2)),
                None => None,
            }
        }
    } else {
        match spec_scan_quoted(s.subrange(1, s.len() as int)) {
            Some((v, n)) => Some((seq![s[0]] + v, n + 1)),
            None => None,
        }
    }
}

/// Scanning what the escaper wrote gives the original string back and
/// stops exactly at the closing quote.
pub proof fn lemma_scan_escape(v: Seq<char>, rest: Seq<char>)
    ensures
        spec_scan_quoted(spec_escape(v) + seq!['"'] + rest) == Some(
            (v, spec_escape(v).len() + 1 as int),
        ),
    decreases v.len(),
{
    let s = spec_escape(v) + seq!['"'] + rest;
    if v.len() == 0 {
        assert(s[0] == '"');
    } else {
        let v1 = v.subrange(1, v.len() as int);
        lemma_scan_escape(v1, rest);
        let tail = spec_escape(v1) + seq!['"'] + rest;
        if v[0] == '"' || v[0] == '\\' {
            assert(s[0] == '\\');
            assert(s[1] == v[0]);
            assert(s.subrange(2, s.len() as int) =~= tail);
            assert(seq![s[1]] + v1 =~= v);
        } else {
            assert(s[0] == v[0]);
            assert(s[0] != '"' && s[0] != '\\');
            assert(s.subrange(1, s.len() as int) =~= tail);
            assert(seq![s[0]] + v1 =~= v);
        }
    }
}

/// Scans a run of decimal digits, folding them onto `acc` most significant
/// first; yields the value and how many digits were consumed.
pub open spec fn spec_num_run(s: Seq<char>, acc: int) -> (int, int)
    decreases s.len(),
{
    if s.len() == 0 || !spec_is_digit(s[0]) {
        (acc, 0)
    } else {
        let folded = spec_num_run(s.subrange(1, s.len() as int), acc * 10 + spec_digit(s[0]));
        (folded.0, folded.1 + 1)
    }
}

/// The accumulator a decimal spelling folds to: `acc` shifted one place
/// per digit, plus the value.
pub open spec fn spec_shift(acc: int, m: int) -> int
    decreases m,
{
    if m <= 9 {
        acc * 10
    } else {
        spec_shift(acc, m / 10) * 10
    }
}

/// Scanning a decimal spelling folds it onto the accumulator and goes on
/// with what follows.
pub proof fn lemma_num_run_digits(m: int, rest: Seq<char>, acc: int)
    requires
        m >= 0,
    ensures
        spec_num_run(spec_dec_digits(m) + rest, acc).0 == spec_num_run(
            rest,
            spec_shift(acc, m) + m,
        ).0,
        spec_num_run(spec_dec_digits(m) + rest, acc).1 == spec_dec_digits(m).len() + spec_num_run(
            rest,
            spec_shift(acc, m) + m,
        ).1,
    decreases m,
{
    if m <= 9 {
        let s = spec_dec_digits(m) + rest;
        assert(spec_dec_digits(m) =~= seq![crate::textfmt::spec_digit_char(m)]);
        assert(spec_is_digit(s[0]) && spec_digit(s[0]) == m);
        assert(s.subrange(1, s.len() as int) =~= rest);
    } else {
        let hi = spec_dec_digits(m / 10);
        let d = crate::textfmt::spec_digit_char(m % 10);
        assert(spec_dec_digits(m) =~= hi + seq![d]);
        assert(spec_dec_digits(m) + rest =~= hi + (seq![d] + rest));
        lemma_num_run_digits(m / 10, seq![d] + rest, acc);
        let mid = spec_shift(acc, m / 10) + m / 10;
        let s2 = seq![d] + rest;
        assert(spec_is_digit(s2[0]) && spec_digit(s2[0]) == m % 10);
        assert(s2.subrange(1, s2.len() as int) =~= rest);
        assert(spec_num_run(s2, mid).0 == spec_num_run(rest, mid * 10 + m % 10).0);
        vstd::arithmetic::div_mod::lemma_fundamental_div_mod(m, 10);
        assert(mid * 10 + m % 10 == spec_shift(acc, m) + m) by (nonlinear_arith)
            requires
                mid == spec_shift(acc, m / 10) + m / 10,
                spec_shift(acc, m) == spec_shift(acc, m / 10) * 10,
                m == 10 * (m / 10) + m % 10,
        ;
    }
}

/// Shifting zero stays zero: the fold of a spelling onto an empty
/// accumulator is the value itself.
pub proof fn lemma_shift_zero(m: int)
    ensures
        spec_shift(0, m) == 0,
    decreases m,
{
    if m > 9 {
        lemma_shift_zero(m / 10);
    }
}

/// Whether `lit` stands at position `pos` of `s`.
pub fn expect_lit(s: &str, pos: usize, lit: &str) -> (r: Option<usize>)
    requires
        pos <= s@.len() <= usize::MAX,
    ensures
        r matches Some(p) ==> p == pos + lit@.len() && p <= s@.len() && s@.subrange(
            pos as int,
            p as int,
        ) == lit@,
        r is None <==> !(pos + lit@.len() <= s@.len() && s@.subrange(
            pos as int,
            pos + lit@.len(),
        ) == lit@),
{
    let n = s.unicode_len();
    let m = lit.unicode_len();
    if m > n - pos {
        proof {
            if pos + lit@.len() <= s@.len() {
                assert(false);
            }
        }
        return None;
    }
    let mut i: usize = 0;
    while i < m
        invariant
            pos + m <= n,
            n == s@.len(),
            m == lit@.len(),
            i <= m,
            forall|j: int| 0 <= j < i ==> s@[pos + j] == lit@[j],
        decreases m - i,
    {
        if s.get_char(pos + i) != lit.get_char(i) {
            proof {
                assert(s@.subrange(pos as int, pos + lit@.len())[i as int] == s@[pos + i]);
            }
            return None;
        }
        i = i + 1;
    }
    proof {
        assert(s@.subrange(pos as int, pos + lit@.len()) =~= lit@);
    }
    Some(pos + m)
}

/// Reads the quoted string starting at `pos` (which must hold the opening
/// quote for the read to succeed): the unescaped value and the position
/// after the closing quote.
pub fn parse_quoted(s: &str, pos: usize) -> (r: Option<(String, usize)>)
    requires
        pos <= s@.len() <= usize::MAX,
    ensures
        r matches Some(t) ==> ({
            &&& pos < s@.len()
            &&& s@[pos as int] == '"'
            &&& spec_scan_quoted(s@.subrange(pos + 1, s@.len() as int)) matches Some(sc)
            &&& t.0@ == sc.0
            &&& t.1 == pos + 1 + sc.1
            &&& t.1 <= s@.len()
        }),
        r is None <==> !(pos < s@.len() && s@[pos as int] == '"' && spec_scan_quoted(
            s@.subrange(pos + 1, s@.len() as int),
        ) is Some),
{
    let n = s.unicode_len();
    if pos >= n || s.get_char(pos) != '"' {
        return None;
    }
    let mut out = String::new();
    let mut i: usize = pos + 1;
    loop
        invariant
            n == s@.len() <= usize::MAX,
            pos + 1 <= i <= n,
            s@[pos as int] == '"',
            ({
                let whole = spec_scan_quoted(s@.subrange(pos + 1, n as int));
                let here = spec_scan_quoted(s@.subrange(i as int, n as int));
                match here {
                    Some(sc) => whole matches Some(w) && w.0 == out@ + sc.0 && pos + 1 + w.1 == i
                        + sc.1,
                    None => whole is None,
                }
            }),
        decreases n - i,
    {
        if i >= n {
            return None;
        }
        let c = s.get_char(i);
        if c == '"' {
            proof {
                let here = spec_scan_quoted(s@.subrange(i as int, n as int));
                assert(s@.subrange(i as int, n as int)[0] == '"');
                assert(here == Some((Seq::<char>::empty(), 1int)));
                assert(out@ + Seq::<char>::empty() =~= out@);
            }
            return Some((out, i + 1));
        }
        if c == '\\' {
            if i + 1 >= n {
                proof {
                    let cur = s@.subrange(i as int, n as int);
                    assert(cur[0] == '\\' && cur.len() < 2);
                }
                return None;
            }
            let lit = s.get_char(i + 1);
            let one = s.substring_char(i + 1, i + 2);
            out.append(one);
            proof {
                let cur = s@.subrange(i as int, n as int);
                assert(cur[0] == '\\' && cur.len() >= 2 && cur[1] == lit);
                assert(cur.subrange(2, cur.len() as int) =~= s@.subrange(i + 2, n as int));
                assert(one@ =~= seq![lit]);
                match spec_scan_quoted(s@.subrange(i + 2, n as int)) {
                    Some(sc) => {
                        assert((out@ + sc.0) =~= (out@.subrange(0, out@.len() - 1) + (seq![lit]
                            + sc.0)));
                    },
                    None => {},
                }
            }
            i = i + 2;
        } else {
            let one = s.substring_char(i, i + 1);
            out.append(one);
            proof {
                let cur = s@.subrange(i as int, n as int);
                assert(cur[0] == c && c != '"' && c != '\\');
                assert(cur.subrange(1, cur.len() as int) =~= s@.subrange(i + 1, n as int));
                assert(one@ =~= seq![c]);
                match spec_scan_quoted(s@.subrange(i + 1, n as int)) {
                    Some(sc) => {
                        assert((out@ + sc.0) =~= (out@.subrange(0, out@.len() - 1) + (seq![c]
                            + sc.0)));
                    },
                    None => {},
                }
            }
            i = i + 1;
        }
    }
}

/// Reads the run of decimal digits starting at `pos` as a `u32`: the value
/// and the position after the digits. Nothing if no digit stands at `pos`
/// or the value exceeds the type.
pub fn parse_u32_at(s: &str, pos: usize) -> (r: Option<(u32, usize)>)
    requires
        pos <= s@.len() <= usize::MAX,
    ensures
        ({
            let run = spec_num_run(s@.subrange(pos as int, s@.len() as int), 0);
            &&& (r matches Some(t) ==> t.0 == run.0 && t.1 == pos + run.1 && run.1 >= 1 && t.1
                <= s@.len())
            &&& (r is None <==> (run.1 == 0 || run.0 > u32::MAX))
        }),
{
    let n = s.unicode_len();
    let mut value: u32 = 0;
    let mut i: usize = pos;
    loop
        invariant
            n == s@.len() <= usize::MAX,
            pos <= i <= n,
            ({
                let whole = spec_num_run(s@.subrange(pos as int, n as int), 0);
                let here = spec_num_run(s@.subrange(i as int, n as int), value as int);
                whole.0 == here.0 && pos + whole.1 == i + here.1
            }),
        ensures
            n == s@.len(),
            pos <= i <= n,
            ({
                let whole = spec_num_run(s@.subrange(pos as int, n as int), 0);
                let here = spec_num_run(s@.subrange(i as int, n as int), value as int);
                whole.0 == here.0 && pos + whole.1 == i + here.1
            }),
            i == n || !spec_is_digit(s@[i as int]),
        decreases n - i,
    {
        proof {
            if i < n {
                assert(s@.subrange(i as int, n as int)[0] == s@[i as int]);
            }
        }
        if i >= n {
            break ;
        }
        let c = s.get_char(i);
        let v = c as u32;
        if v < 48 || v > 57 {
            break ;
        }
        let d = v - 48;
        proof {
            let cur = s@.subrange(i as int, n as int);
            assert(spec_is_digit(cur[0]) && spec_digit(cur[0]) == d);
            assert(cur.subrange(1, cur.len() as int) =~= s@.subrange(i + 1, n as int));
        }
        if value > (u32::MAX - d) / 10 {
            proof {
                let here = spec_num_run(s@.subrange(i as int, n as int), value as int);
                lemma_num_run_lower_bound(
                    s@.subrange(i + 1, s@.len() as int),
                    value as int * 10 + d,
                );
                assert(value as int * 10 + d > u32::MAX) by (nonlinear_arith)
                    requires
                        value as int > (u32::MAX - d) / 10,
                        0 <= d <= 9,
                        value as int <= u32::MAX,
                ;
            }
            return None;
        }
        value = value * 10 + d;
        i = i + 1;
    }
    proof {
        let here = spec_num_run(s@.subrange(i as int, n as int), value as int);
        assert(here.1 == 0);
    }
    if i == pos {
        return None;
    }
    Some((value, i))
}

/// A digit run's fold never falls below its accumulator.
proof fn lemma_num_run_lower_bound(s: Seq<char>, acc: int)
    requires
        acc >= 0,
    ensures
        spec_num_run(s, acc).0 >= acc,
    decreases s.len(),
{
    if s.len() > 0 && spec_is_digit(s[0]) {
        lemma_num_run_lower_bound(s.subrange(1, s.len() as int), acc * 10 + spec_digit(s[0]));
    }
}

/// Appends a string's characters in their escaped form.
pub fn push_escaped(out: &mut String, s: &str)
    ensures
        final(out)@ == old(out)@ + spec_escape(s@),
{
    let n = s.unicode_len();
    let mut i: usize = 0;
    while i < n
        invariant
            n == s@.len(),
            i <= n,
            out@ == old(out)@ + spec_escape(s@.subrange(0, i as int)),
        decreases n - i,
    {
        let c = s.get_char(i);
        if c == '"' {
            out.append("\\\"");
        } else if c == '\\' {
            out.append("\\\\");
        } else {
            let one = s.substring_char(i, i + 1);
            out.append(one);
        }
        proof {
            reveal_strlit("\\\"");
            reveal_strlit("\\\\");
            let pre = s@.subrange(0, i as int);
            let post = s@.subrange(0, i + 1);
            assert(post =~= pre + seq![c]);
            lemma_escape_concat(pre, seq![c]);
            assert(seq![c].subrange(1, 1) =~= Seq::<char>::empty());
            assert(spec_escape(Seq::<char>::empty()) =~= Seq::<char>::empty());
            assert(spec_escape(seq![c]) =~= spec_escape_char(c) + spec_escape(
                seq![c].subrange(1, 1),
            ));
            assert(spec_escape(seq![c]) =~= spec_escape_char(c));
            assert(out@ =~= old(out)@ + spec_escape(post));
        }
        i = i + 1;
    }
    proof {
        assert(s@.subrange(0, n as int) =~= s@);
    }
}

/// Appends a string in its quoted, escaped form.
pub fn push_quoted(out: &mut String, s: &str)
    ensures
        final(out)@ == old(out)@ + spec_quote(s@),
{
    proof {
        reveal_strlit("\"");
    }
    out.append("\"");
    push_escaped(out, s);
    out.append("\"");
    proof {
        assert(out@ =~= old(out)@ + spec_quote(s@));
    }
}

/// What remains of `s` after `lit`, when `s` starts with `lit`.
pub open spec fn spec_eat_lit(s: Seq<char>, lit: Seq<char>) -> Option<Seq<char>> {
    if lit.len() <= s.len() && s.subrange(0, lit.len() as int) == lit {
        Some(s.subrange(lit.len() as int, s.len() as int))
    } else {
        None
    }
}

/// The value of the quoted string `s` starts with, and what follows it.
pub open spec fn spec_eat_quoted(s: Seq<char>) -> Option<(Seq<char>, Seq<char>)> {
    if s.len() >= 1 && s[0] == '"' {
        match spec_scan_quoted(s.subrange(1, s.len() as int)) {
            Some((v, k)) => Some((v, s.subrange(1 + k, s.len() as int))),
            None => None,
        }
    } else {
        None
    }
}

/// The number the digit run at the head of `s` spells, and what follows
/// it; nothing without a digit or beyond the type's range.
pub open spec fn spec_eat_u32(s: Seq<char>) -> Option<(int, Seq<char>)> {
    let run = spec_num_run(s, 0);
    if run.1 >= 1 && run.0 <= u32::MAX {
        Some((run.0, s.subrange(run.1, s.len() as int)))
    } else {
        None
    }
}

/// Consumes `lit` from the head of `s`.
pub fn eat_lit<'a>(s: &'a str, lit: &str) -> (r: Option<&'a str>)
    requires
        s@.len() <= usize::MAX,
    ensures
        r matches Some(rest) ==> (spec_eat_lit(s@, lit@) matches Some(sr) && rest@ == sr && rest@.len() <= s@.len()),
        r is None <==> spec_eat_lit(s@, lit@) is None,
{
    let n = s.unicode_len();
    match expect_lit(s, 0, lit) {
        Some(p) => {
            let rest = s.substring_char(p, n);
            proof {
                assert(rest@ =~= s@.subrange(lit@.len() as int, s@.len() as int));
            }
            Some(rest)
        },
        None => None,
    }
}

/// Consumes the quoted string at the head of `s`: its unescaped value and
/// the remainder.
pub fn eat_quoted<'a>(s: &'a str) -> (r: Option<(String, &'a str)>)
    requires
        s@.len() <= usize::MAX,
    ensures
        r matches Some(t) ==> (spec_eat_quoted(s@) matches Some(sr) && t.0@ == sr.0 && t.1@
            == sr.1 && t.1@.len() <= s@.len()),
        r is None <==> spec_eat_quoted(s@) is None,
{
    let n = s.unicode_len();
    match parse_quoted(s, 0) {
        Some((v, p)) => {
            let rest = s.substring_char(p, n);
            Some((v, rest))
        },
        None => None,
    }
}

/// Consumes the digit run at the head of `s` as a `u32`.
pub fn eat_num<'a>(s: &'a str) -> (r: Option<(u32, &'a str)>)
    requires
        s@.len() <= usize::MAX,
    ensures
        r matches Some(t) ==> (spec_eat_u32(s@) matches Some(sr) && t.0 == sr.0 && t.1@ == sr.1
            && t.1@.len() <= s@.len()),
        r is None <==> spec_eat_u32(s@) is None,
{
    let n = s.unicode_len();
    proof {
        assert(s@.subrange(0, s@.len() as int) =~= s@);
    }
    match parse_u32_at(s, 0) {
        Some((v, p)) => {
            let rest = s.substring_char(p, n);
            Some((v, rest))
        },
        None => None,
    }
}

/// Eating a literal off a text that starts with it leaves the remainder.
pub proof fn lemma_eat_lit_prefix(lit: Seq<char>, rest: Seq<char>)
    ensures
        spec_eat_lit(lit + rest, lit) == Some(rest),
{
    let s = lit + rest;
    assert(s.subrange(0, lit.len() as int) =~= lit);
    assert(s.subrange(lit.len() as int, s.len() as int) =~= rest);
}

/// Eating a quoted string off its own written form gives the value back
/// and leaves the remainder.
pub proof fn lemma_eat_quoted_prefix(v: Seq<char>, rest: Seq<char>)
    ensures
        spec_eat_quoted(spec_quote(v) + rest) == Some((v, rest)),
{
    let s = spec_quote(v) + rest;
    assert(s[0] == '"');
    assert(s.subrange(1, s.len() as int) =~= spec_escape(v) + seq!['"'] + rest);
    lemma_scan_escape(v, rest);
    let k: int = spec_escape(v).len() as int + 1;
    assert(s.subrange(1 + k, s.len() as int) =~= rest);
}

/// Eating a number off its decimal spelling gives the value back and
/// leaves the remainder, as long as the remainder does not begin with
/// another digit.
pub proof fn lemma_eat_num_prefix(m: int, rest: Seq<char>)
    requires
        0 <= m <= u32::MAX,
        rest.len() == 0 || !spec_is_digit(rest[0]),
    ensures
        spec_eat_u32(spec_dec_digits(m) + rest) == Some((m, rest)),
{
    let s = spec_dec_digits(m) + rest;
    lemma_num_run_digits(m, rest, 0);
    lemma_shift_zero(m);
    assert(spec_num_run(rest, m) == (m, 0int));
    let run = spec_num_run(s, 0);
    assert(run.0 == m && run.1 == spec_dec_digits(m).len());
    assert(s.subrange(run.1, s.len() as int) =~= rest);
}

} // verus!
