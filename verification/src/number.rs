//! The text form of the floating-point numbers that a host may send: the
//! grammar that `f32`'s `FromStr` accepts, checked on characters.
use vstd::prelude::*;

use crate::text::{ascii_lower, char_vec, is_digit, is_token, is_ws, to_ascii_lower};

verus! {

/// The end of the run of ASCII digits in `s` that starts at `i`.
pub open spec fn digit_run(s: Seq<char>, i: int) -> int
    decreases s.len() - i,
{
    if 0 <= i < s.len() && is_digit(s[i]) {
        digit_run(s, i + 1)
    } else {
        i
    }
}

/// An unsigned decimal number: digits, optionally a `.` and more digits,
/// with at least one digit in all, then optionally an exponent: `e` or
/// `E`, an optional sign, and at least one digit.
pub open spec fn decimal_float(s: Seq<char>) -> bool {
    let a = digit_run(s, 0);
    let dot = a < s.len() && s[a] == '.';
    let c = if dot {
        digit_run(s, a + 1)
    } else {
        a
    };
    let mantissa_digits = if dot {
        c - 1
    } else {
        c
    };
    mantissa_digits > 0 && (c == s.len() || ((s[c] == 'e' || s[c] == 'E') && {
        let d = if c + 1 < s.len() && (s[c + 1] == '+' || s[c + 1] == '-') {
            c + 2
        } else {
            c + 1
        };
        let e = digit_run(s, d);
        e > d && e == s.len()
    }))
}

/// `inf`, `infinity` or `nan`, in any ASCII case.
pub open spec fn special_float(s: Seq<char>) -> bool {
    let l = s.map_values(|c: char| ascii_lower(c));
    l == seq!['i', 'n', 'f'] || l == seq!['i', 'n', 'f', 'i', 'n', 'i', 't', 'y'] || l == seq![
        'n',
        'a',
        'n',
    ]
}

/// A text that `f32` parses: an optional `+` or `-`, then a decimal number
/// or one of the special values.
pub open spec fn float_literal(s: Seq<char>) -> bool {
    let r = if s.len() > 0 && (s[0] == '+' || s[0] == '-') {
        s.skip(1)
    } else {
        s
    };
    r.len() > 0 && (special_float(r) || decimal_float(r))
}

proof fn lemma_digit_run_bounds(s: Seq<char>, i: int)
    requires
        0 <= i <= s.len(),
    ensures
        i <= digit_run(s, i) <= s.len(),
        forall|k: int| i <= k < digit_run(s, i) ==> is_digit(#[trigger] s[k]),
        digit_run(s, i) < s.len() ==> !is_digit(s[digit_run(s, i)]),
    decreases s.len() - i,
{
    if i < s.len() && is_digit(s[i]) {
        lemma_digit_run_bounds(s, i + 1);
    }
}

fn digit_end(cs: &Vec<char>, i: usize) -> (e: usize)
    requires
        i <= cs@.len(),
    ensures
        e == digit_run(cs@, i as int),
        i <= e <= cs@.len(),
{
    let mut j = i;
    while j < cs.len() && '0' <= cs[j] && cs[j] <= '9'
        invariant
            i <= j <= cs@.len(),
            digit_run(cs@, i as int) == digit_run(cs@, j as int),
        decreases cs@.len() - j,
    {
        j = j + 1;
    }
    j
}

fn is_special(cs: &Vec<char>, start: usize) -> (b: bool)
    requires
        start <= cs@.len(),
    ensures
        b == special_float(cs@.skip(start as int)),
{
    let ghost r = cs@.skip(start as int);
    let ghost l = r.map_values(|c: char| ascii_lower(c));
    let total = cs.len();
    let n = total - start;
    let mut low: Vec<char> = Vec::new();
    let mut i: usize = 0;
    while i < n
        invariant
            n == r.len(),
            r == cs@.skip(start as int),
            total == cs@.len(),
            start + n == total,
            i <= n,
            low@ == l.take(i as int),
            l == r.map_values(|c: char| ascii_lower(c)),
        decreases n - i,
    {
        low.push(to_ascii_lower(cs[start + i]));
        assert(low@ =~= l.take(i + 1));
        i = i + 1;
    }
    assert(low@ =~= l);
    let inf = n == 3 && low[0] == 'i' && low[1] == 'n' && low[2] == 'f';
    let infinity = n == 8 && low[0] == 'i' && low[1] == 'n' && low[2] == 'f' && low[3] == 'i'
        && low[4] == 'n' && low[5] == 'i' && low[6] == 't' && low[7] == 'y';
    let nan = n == 3 && low[0] == 'n' && low[1] == 'a' && low[2] == 'n';
    proof {
        let a = seq!['i', 'n', 'f'];
        let b = seq!['i', 'n', 'f', 'i', 'n', 'i', 't', 'y'];
        let c = seq!['n', 'a', 'n'];
        if inf {
            assert(l =~= a);
        }
        if l == a {
            assert(l[0] == a[0] && l[1] == a[1] && l[2] == a[2]);
        }
        if infinity {
            assert(l =~= b);
        }
        if l == b {
            assert(l[0] == b[0] && l[1] == b[1] && l[2] == b[2] && l[3] == b[3]);
            assert(l[4] == b[4] && l[5] == b[5] && l[6] == b[6] && l[7] == b[7]);
        }
        if nan {
            assert(l =~= c);
        }
        if l == c {
            assert(l[0] == c[0] && l[1] == c[1] && l[2] == c[2]);
        }
    }
    inf || infinity || nan
}

proof fn lemma_digit_run_shift(s: Seq<char>, k: int, i: int)
    requires
        0 <= k <= s.len(),
        0 <= i <= s.len() - k,
    ensures
        digit_run(s.skip(k), i) == digit_run(s, i + k) - k,
    decreases s.len() - k - i,
{
    if i < s.len() - k && is_digit(s[i + k]) {
        lemma_digit_run_shift(s, k, i + 1);
    }
}

fn is_decimal_float(cs: &Vec<char>, start: usize) -> (b: bool)
    requires
        start <= cs@.len(),
    ensures
        b == decimal_float(cs@.skip(start as int)),
{
    let ghost r = cs@.skip(start as int);
    let n = cs.len();
    let ghost k = start as int;
    let a = digit_end(cs, start);
    proof {
        lemma_digit_run_shift(cs@, k, 0);
    }
    let dot = a < n && cs[a] == '.';
    let c = if dot {
        let c = digit_end(cs, a + 1);
        proof {
            lemma_digit_run_shift(cs@, k, a + 1 - k);
        }
        c
    } else {
        a
    };
    let mantissa_digits = if dot {
        c - 1 - start
    } else {
        c - start
    };
    if mantissa_digits == 0 {
        return false;
    }
    if c == n {
        return true;
    }
    if !(cs[c] == 'e' || cs[c] == 'E') {
        return false;
    }
    let d = if c + 1 < n && (cs[c + 1] == '+' || cs[c + 1] == '-') {
        c + 2
    } else {
        c + 1
    };
    let e = digit_end(cs, d);
    proof {
        lemma_digit_run_shift(cs@, k, d - k);
    }
    e > d && e == n
}

/// Whether `f32` parses the text `s`.
pub fn is_float_literal(s: &str) -> (b: bool)
    ensures
        b == float_literal(s@),
{
    let cs = char_vec(s);
    let start: usize = if cs.len() > 0 && (cs[0] == '+' || cs[0] == '-') {
        1
    } else {
        0
    };
    assert(cs@.skip(0) =~= cs@);
    if start == cs.len() {
        return false;
    }
    is_special(&cs, start) || is_decimal_float(&cs, start)
}

proof fn lemma_decimal_char(r: Seq<char>, j: int)
    requires
        decimal_float(r),
        0 <= j < r.len(),
    ensures
        !is_ws(r[j]),
{
    lemma_digit_run_bounds(r, 0);
    let a = digit_run(r, 0);
    let dot = a < r.len() && r[a] == '.';
    if j < a {
        assert(is_digit(r[j]));
    } else if j == a && dot {
    } else {
        let c = if dot {
            lemma_digit_run_bounds(r, a + 1);
            digit_run(r, a + 1)
        } else {
            a
        };
        if j < c {
            assert(is_digit(r[j]));
        } else {
            assert(c < r.len());
            assert(r[c] == 'e' || r[c] == 'E');
            let d = if c + 1 < r.len() && (r[c + 1] == '+' || r[c + 1] == '-') {
                c + 2
            } else {
                c + 1
            };
            lemma_digit_run_bounds(r, d);
            if j >= d {
                assert(is_digit(r[j]));
            }
        }
    }
}

proof fn lemma_letter_not_ws(x: char)
    requires
        'a' <= ascii_lower(x) <= 'z',
    ensures
        !is_ws(x),
{
    if 'A' <= x && x <= 'Z' {
        assert(65 <= (x as u32) <= 90);
    } else {
        assert(97 <= (x as u32) <= 122);
    }
}

proof fn lemma_special_char(r: Seq<char>, j: int)
    requires
        special_float(r),
        0 <= j < r.len(),
    ensures
        !is_ws(r[j]),
{
    let l = r.map_values(|c: char| ascii_lower(c));
    assert(l.len() == r.len());
    assert(l[j] == ascii_lower(r[j]));
    let a = seq!['i', 'n', 'f'];
    let b = seq!['i', 'n', 'f', 'i', 'n', 'i', 't', 'y'];
    let c = seq!['n', 'a', 'n'];
    assert(a.len() == 3 && b.len() == 8 && c.len() == 3);
    if l == a {
        assert(a[0] == 'i' && a[1] == 'n' && a[2] == 'f');
        assert(j == 0 || j == 1 || j == 2);
    } else if l == b {
        assert(b[0] == 'i' && b[1] == 'n' && b[2] == 'f' && b[3] == 'i');
        assert(b[4] == 'n' && b[5] == 'i' && b[6] == 't' && b[7] == 'y');
        assert(j == 0 || j == 1 || j == 2 || j == 3 || j == 4 || j == 5 || j == 6 || j == 7);
    } else {
        assert(c[0] == 'n' && c[1] == 'a' && c[2] == 'n');
        assert(j == 0 || j == 1 || j == 2);
    }
    lemma_letter_not_ws(r[j]);
}

/// A number's text is a single word.
pub proof fn lemma_float_literal_token(s: Seq<char>)
    requires
        float_literal(s),
    ensures
        is_token(s),
{
    let signed = s.len() > 0 && (s[0] == '+' || s[0] == '-');
    let k: int = if signed {
        1
    } else {
        0
    };
    let r = s.skip(k);
    assert(r =~= if signed {
        s.skip(1)
    } else {
        s
    });
    assert forall|i: int| 0 <= i < s.len() implies !is_ws(#[trigger] s[i]) by {
        if i >= k {
            assert(r[i - k] == s[i]);
            if special_float(r) {
                lemma_special_char(r, i - k);
            } else {
                lemma_decimal_char(r, i - k);
            }
        }
    }
}

} // verus!
