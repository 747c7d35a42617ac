//! Character-level helpers on strings: whitespace, tokens, trimming,
//! ASCII case folding and decimal numbers.
use vstd::prelude::*;

verus! {

/// The characters of `s`, in order.
pub fn char_vec(s: &str) -> (v: Vec<char>)
    ensures
        v@ == s@,
{
    let mut v: Vec<char> = Vec::new();
    for c in iter: s.chars()
        invariant
            v@ == iter.seq().take(iter.index()),
    {
        v.push(c);
    }
    v
}

/// Appends one character to a string.
#[verifier::external_body]
fn push_char(s: &mut String, c: char)
    ensures
        final(s)@ == old(s)@.push(c),
{
    s.push(c);
}

/// A string holding exactly the characters of `cs`.
pub fn string_from_chars(cs: &[char]) -> (s: String)
    ensures
        s@ == cs@,
{
    let s = string_from_range(cs, 0, cs.len());
    assert(cs@.subrange(0, cs@.len() as int) =~= cs@);
    s
}

/// A string holding the characters `cs[lo..hi]`.
pub fn string_from_range(cs: &[char], lo: usize, hi: usize) -> (s: String)
    requires
        lo <= hi <= cs@.len(),
    ensures
        s@ == cs@.subrange(lo as int, hi as int),
{
    let mut s = String::new();
    let mut i: usize = lo;
    while i < hi
        invariant
            lo <= i <= hi <= cs@.len(),
            s@ == cs@.subrange(lo as int, i as int),
        decreases hi - i,
    {
        push_char(&mut s, cs[i]);
        assert(cs@.subrange(lo as int, i as int).push(cs@[i as int]) =~= cs@.subrange(
            lo as int,
            i + 1,
        ));
        i = i + 1;
    }
    s
}

/// The characters that carry the Unicode `White_Space` property.
pub open spec fn is_ws(c: char) -> bool {
    let u = c as u32;
    ||| 0x09 <= u <= 0x0D
    ||| u == 0x20
    ||| u == 0x85
    ||| u == 0xA0
    ||| u == 0x1680
    ||| 0x2000 <= u <= 0x200A
    ||| u == 0x2028
    ||| u == 0x2029
    ||| u == 0x202F
    ||| u == 0x205F
    ||| u == 0x3000
}

/// Whether `c` is whitespace in the Unicode sense.
pub fn is_whitespace(c: char) -> (b: bool)
    ensures
        b == is_ws(c),
{
    let u = c as u32;
    (0x09 <= u && u <= 0x0D) || u == 0x20 || u == 0x85 || u == 0xA0 || u == 0x1680 || (0x2000
        <= u && u <= 0x200A) || u == 0x2028 || u == 0x2029 || u == 0x202F || u == 0x205F || u
        == 0x3000
}

/// The maximal runs of non-whitespace characters of `s`, left to right.
pub open spec fn tokens(s: Seq<char>) -> Seq<Seq<char>>
    decreases s.len(),
{
    if s.len() == 0 {
        seq![]
    } else if is_ws(s.last()) {
        tokens(s.drop_last())
    } else if s.len() >= 2 && !is_ws(s[s.len() - 2]) {
        let t = tokens(s.drop_last());
        t.update(t.len() - 1, t.last().push(s.last()))
    } else {
        tokens(s.drop_last()).push(seq![s.last()])
    }
}

/// Every token is non-empty and free of whitespace.
pub open spec fn is_token(t: Seq<char>) -> bool {
    t.len() > 0 && forall|i: int| 0 <= i < t.len() ==> !is_ws(#[trigger] t[i])
}

/// `tokens` yields only proper tokens; a non-empty result when the text
/// ends in a non-whitespace character has that character at the end of
/// its last token.
pub proof fn lemma_tokens_wf(s: Seq<char>)
    ensures
        forall|k: int| 0 <= k < tokens(s).len() ==> is_token(#[trigger] tokens(s)[k]),
        s.len() > 0 && !is_ws(s.last()) ==> tokens(s).len() > 0,
    decreases s.len(),
{
    if s.len() > 0 {
        lemma_tokens_wf(s.drop_last());
        let t = tokens(s.drop_last());
        if !is_ws(s.last()) && s.len() >= 2 && !is_ws(s[s.len() - 2]) {
            assert(s.drop_last().last() == s[s.len() - 2]);
            let nt = t.last().push(s.last());
            assert forall|i: int| 0 <= i < nt.len() implies !is_ws(#[trigger] nt[i]) by {
                if i < t.last().len() {
                    assert(is_token(t[t.len() - 1]));
                }
            }
        }
    }
}

/// Splitting text at a space: the words of `a`, then those of `b`.
pub proof fn lemma_tokens_split(a: Seq<char>, b: Seq<char>)
    ensures
        tokens(a + seq![' '] + b) == tokens(a) + tokens(b),
    decreases b.len(),
{
    let z = a + seq![' '] + b;
    if b.len() == 0 {
        assert(z.drop_last() =~= a);
        assert(tokens(b) =~= Seq::<Seq<char>>::empty());
        assert(tokens(a) + tokens(b) =~= tokens(a));
    } else {
        lemma_tokens_split(a, b.drop_last());
        assert(z.drop_last() =~= a + seq![' '] + b.drop_last());
        assert(z.last() == b.last());
        let tp = tokens(b.drop_last());
        if is_ws(b.last()) {
        } else if z.len() >= 2 && !is_ws(z[z.len() - 2]) {
            assert(b.len() >= 2);
            assert(z[z.len() - 2] == b[b.len() - 2]);
            assert(b.drop_last().last() == b[b.len() - 2]);
            lemma_tokens_wf(b.drop_last());
            assert(tp.len() > 0);
            assert(tokens(b) == tp.update(tp.len() - 1, tp.last().push(b.last())));
            assert((tokens(a) + tp).update(tokens(a).len() + tp.len() - 1, tp.last().push(b.last()))
                =~= tokens(a) + tp.update(tp.len() - 1, tp.last().push(b.last())));
        } else {
            if b.len() >= 2 {
                assert(z[z.len() - 2] == b[b.len() - 2]);
            }
            assert(tokens(b) == tp.push(seq![b.last()]));
            assert((tokens(a) + tp).push(seq![b.last()]) =~= tokens(a) + tp.push(seq![b.last()]));
        }
    }
}

/// A token splits into itself alone.
pub proof fn lemma_tokens_token(w: Seq<char>)
    requires
        is_token(w),
    ensures
        tokens(w) == seq![w],
    decreases w.len(),
{
    if w.len() == 1 {
        assert(w.drop_last() =~= Seq::<char>::empty());
        assert(!is_ws(w[0]));
        assert(seq![w.last()] =~= w);
        assert(tokens(w.drop_last()) =~= Seq::<Seq<char>>::empty());
        assert(tokens(w) == tokens(w.drop_last()).push(seq![w.last()]));
        assert(Seq::<Seq<char>>::empty().push(seq![w.last()]) =~= seq![w]);
    } else {
        let p = w.drop_last();
        assert(is_token(p)) by {
            assert forall|i: int| 0 <= i < p.len() implies !is_ws(#[trigger] p[i]) by {
                assert(p[i] == w[i]);
            }
        }
        lemma_tokens_token(p);
        assert(!is_ws(w.last()));
        assert(!is_ws(w[w.len() - 2]));
        assert(p.push(w.last()) =~= w);
        assert(w[w.len() - 2] == p.last());
        assert(tokens(w) == tokens(p).update(tokens(p).len() - 1, tokens(p).last().push(w.last())));
        assert(seq![p].update(0, p.push(w.last())) =~= seq![w]);
    }
}

/// The spaced joining of words gives back the words when splitting.
pub proof fn lemma_tokens_join(ws: Seq<Seq<char>>)
    requires
        forall|i: int| 0 <= i < ws.len() ==> is_token(#[trigger] ws[i]),
    ensures
        tokens(join_space(ws)) == ws,
    decreases ws.len(),
{
    if ws.len() == 0 {
        assert(tokens(Seq::<char>::empty()) =~= ws);
    } else if ws.len() == 1 {
        lemma_tokens_token(ws[0]);
        assert(seq![ws[0]] =~= ws);
    } else {
        let p = ws.drop_last();
        assert forall|i: int| 0 <= i < p.len() implies is_token(#[trigger] p[i]) by {
            assert(p[i] == ws[i]);
        }
        lemma_tokens_join(p);
        lemma_tokens_split(join_space(p), ws.last());
        lemma_tokens_token(ws.last());
        assert(p + seq![ws.last()] =~= ws);
    }
}

/// Decimal spellings are single words.
pub proof fn lemma_decimal_token(n: nat)
    ensures
        is_token(decimal(n)),
{
    lemma_decimal_digits(n);
}

/// Signed decimal spellings are single words.
pub proof fn lemma_signed_decimal_token(x: int)
    ensures
        is_token(signed_decimal(x)),
{
    if x < 0 {
        lemma_decimal_digits((-x) as nat);
        let s = signed_decimal(x);
        assert forall|i: int| 0 <= i < s.len() implies !is_ws(#[trigger] s[i]) by {
            if i > 0 {
                assert(s[i] == decimal((-x) as nat)[i - 1]);
                assert(is_digit(decimal((-x) as nat)[i - 1]));
            }
        }
    } else {
        lemma_decimal_digits(x as nat);
    }
}

/// Tokens of `s`, as strings.
pub fn split_whitespace(s: &str) -> (toks: Vec<String>)
    ensures
        toks@.len() == tokens(s@).len(),
        forall|k: int| 0 <= k < toks@.len() ==> (#[trigger] toks@[k])@ == tokens(s@)[k],
{
    let cs = char_vec(s);
    let mut out: Vec<String> = Vec::new();
    let mut cur: Vec<char> = Vec::new();
    let mut i: usize = 0;
    while i < cs.len()
        invariant
            cs@ == s@,
            i <= cs@.len(),
            ({
                let t = tokens(cs@.take(i as int));
                if cur@.len() == 0 {
                    &&& out@.len() == t.len()
                    &&& forall|k: int| 0 <= k < out@.len() ==> (#[trigger] out@[k])@ == t[k]
                } else {
                    &&& out@.len() + 1 == t.len()
                    &&& forall|k: int| 0 <= k < out@.len() ==> (#[trigger] out@[k])@ == t[k]
                    &&& cur@ == t.last()
                }
            }),
            cur@.len() > 0 <==> (i > 0 && !is_ws(cs@[i - 1])),
        decreases cs@.len() - i,
    {
        let c = cs[i];
        let ghost pre = cs@.take(i as int);
        let ghost nxt = cs@.take(i + 1);
        assert(nxt.drop_last() =~= pre);
        assert(nxt.last() == c);
        if is_whitespace(c) {
            if cur.len() > 0 {
                out.push(string_from_chars(cur.as_slice()));
                cur = Vec::new();
            }
        } else {
            if cur.len() > 0 {
                assert(nxt[nxt.len() - 2] == cs@[i - 1]);
            }
            cur.push(c);
        }
        i = i + 1;
    }
    assert(cs@.take(cs@.len() as int) =~= cs@);
    if cur.len() > 0 {
        out.push(string_from_chars(cur.as_slice()));
    }
    out
}

/// The views of a sequence of strings.
pub open spec fn views(v: Seq<String>) -> Seq<Seq<char>> {
    v.map_values(|s: String| s@)
}

/// Words joined by single spaces.
pub open spec fn join_space(t: Seq<Seq<char>>) -> Seq<char>
    decreases t.len(),
{
    if t.len() == 0 {
        seq![]
    } else if t.len() == 1 {
        t[0]
    } else {
        join_space(t.drop_last()) + seq![' '] + t.last()
    }
}

/// Whether the string `s` holds exactly the text `lit`.
pub fn str_eq(s: &str, lit: &str) -> (b: bool)
    ensures
        b == (s@ == lit@),
{
    let a = char_vec(s);
    let c = char_vec(lit);
    if a.len() != c.len() {
        return false;
    }
    let mut i: usize = 0;
    while i < a.len()
        invariant
            a@ == s@,
            c@ == lit@,
            a@.len() == c@.len(),
            i <= a@.len(),
            forall|j: int| 0 <= j < i ==> a@[j] == c@[j],
        decreases a@.len() - i,
    {
        if a[i] != c[i] {
            return false;
        }
        i = i + 1;
    }
    assert(a@ =~= c@);
    true
}

/// Whether the characters `v` start with the text `lit`.
pub fn chars_start_with(v: &Vec<char>, lit: &str) -> (b: bool)
    ensures
        b == (v@.len() >= lit@.len() && v@.take(lit@.len() as int) == lit@),
{
    let c = char_vec(lit);
    if v.len() < c.len() {
        return false;
    }
    let mut i: usize = 0;
    while i < c.len()
        invariant
            c@ == lit@,
            v@.len() >= c@.len(),
            i <= c@.len(),
            forall|j: int| 0 <= j < i ==> v@[j] == c@[j],
        decreases c@.len() - i,
    {
        if v[i] != c[i] {
            assert(v@.take(c@.len() as int)[i as int] != c@[i as int]);
            return false;
        }
        i = i + 1;
    }
    assert(v@.take(c@.len() as int) =~= c@);
    true
}

/// Whether the characters `v` are exactly the text `lit`.
pub fn chars_eq(v: &Vec<char>, lit: &str) -> (b: bool)
    ensures
        b == (v@ == lit@),
{
    let p = chars_start_with(v, lit);
    let c = char_vec(lit);
    let r = p && v.len() == c.len();
    proof {
        if r {
            assert(v@ =~= v@.take(lit@.len() as int));
        }
        if v@ == lit@ {
            assert(v@.take(lit@.len() as int) =~= v@);
        }
    }
    r
}

/// The strings `toks[k..]` joined by single spaces.
pub fn join_from(toks: &Vec<String>, k: usize) -> (s: String)
    requires
        k <= toks@.len(),
    ensures
        s@ == join_space(views(toks@).skip(k as int)),
{
    let mut out: Vec<char> = Vec::new();
    let mut i: usize = k;
    while i < toks.len()
        invariant
            k <= i <= toks@.len(),
            out@ == join_space(views(toks@).subrange(k as int, i as int)),
        decreases toks@.len() - i,
    {
        let ghost before = views(toks@).subrange(k as int, i as int);
        let ghost after = views(toks@).subrange(k as int, i + 1);
        assert(after.drop_last() =~= before);
        assert(after.last() == toks@[i as int]@);
        if i > k {
            out.push(' ');
        }
        let mut cs = char_vec(toks[i].as_str());
        out.append(&mut cs);
        proof {
            if i == k {
                assert(before.len() == 0);
                assert(after.len() == 1);
            }
        }
        i = i + 1;
    }
    assert(views(toks@).subrange(k as int, toks@.len() as int) =~= views(toks@).skip(k as int));
    string_from_chars(out.as_slice())
}

/// `s` without its leading whitespace.
pub open spec fn trim_start(s: Seq<char>) -> Seq<char>
    decreases s.len(),
{
    if s.len() > 0 && is_ws(s[0]) {
        trim_start(s.drop_first())
    } else {
        s
    }
}

/// `s` without its trailing whitespace.
pub open spec fn trim_end(s: Seq<char>) -> Seq<char>
    decreases s.len(),
{
    if s.len() > 0 && is_ws(s.last()) {
        trim_end(s.drop_last())
    } else {
        s
    }
}

/// `s` without leading and trailing whitespace.
pub open spec fn trim(s: Seq<char>) -> Seq<char> {
    trim_end(trim_start(s))
}

proof fn lemma_trim_start_skip(s: Seq<char>, i: int)
    requires
        0 <= i <= s.len(),
        forall|j: int| 0 <= j < i ==> is_ws(#[trigger] s[j]),
    ensures
        trim_start(s) == trim_start(s.subrange(i, s.len() as int)),
    decreases i,
{
    if i > 0 {
        assert(s.drop_first().subrange(i - 1, s.drop_first().len() as int) =~= s.subrange(
            i,
            s.len() as int,
        ));
        assert forall|j: int| 0 <= j < i - 1 implies is_ws(#[trigger] s.drop_first()[j]) by {
            assert(s.drop_first()[j] == s[j + 1]);
        }
        lemma_trim_start_skip(s.drop_first(), i - 1);
    } else {
        assert(s.subrange(0, s.len() as int) =~= s);
    }
}

proof fn lemma_trim_end_skip(s: Seq<char>, i: int)
    requires
        0 <= i <= s.len(),
        forall|j: int| i <= j < s.len() ==> is_ws(#[trigger] s[j]),
    ensures
        trim_end(s) == trim_end(s.subrange(0, i)),
    decreases s.len() - i,
{
    if i < s.len() {
        assert(s.drop_last().subrange(0, i) =~= s.subrange(0, i));
        assert forall|j: int| i <= j < s.drop_last().len() implies is_ws(
            #[trigger] s.drop_last()[j],
        ) by {
            assert(s.drop_last()[j] == s[j]);
        }
        lemma_trim_end_skip(s.drop_last(), i);
    } else {
        assert(s.subrange(0, i) =~= s);
    }
}

/// The bounds `(lo, hi)` of `cs` with leading and trailing whitespace removed.
pub fn trim_bounds(cs: &[char]) -> (r: (usize, usize))
    ensures
        r.0 <= r.1 <= cs@.len(),
        cs@.subrange(r.0 as int, r.1 as int) == trim(cs@),
{
    let mut lo: usize = 0;
    while lo < cs.len() && is_whitespace(cs[lo])
        invariant
            lo <= cs@.len(),
            forall|j: int| 0 <= j < lo ==> is_ws(#[trigger] cs@[j]),
        decreases cs@.len() - lo,
    {
        lo = lo + 1;
    }
    let ghost rest = cs@.subrange(lo as int, cs@.len() as int);
    proof {
        lemma_trim_start_skip(cs@, lo as int);
        if lo < cs@.len() {
            assert(rest[0] == cs@[lo as int]);
        }
    }
    assert(trim_start(cs@) == rest);
    let mut hi: usize = cs.len();
    while hi > lo && is_whitespace(cs[hi - 1])
        invariant
            lo <= hi <= cs@.len(),
            forall|j: int| hi <= j < cs@.len() ==> is_ws(#[trigger] cs@[j]),
        decreases hi,
    {
        hi = hi - 1;
    }
    proof {
        let k = (hi - lo) as int;
        assert forall|j: int| k <= j < rest.len() implies is_ws(#[trigger] rest[j]) by {
            assert(rest[j] == cs@[lo + j]);
        }
        lemma_trim_end_skip(rest, k);
        let kept = rest.subrange(0, k);
        if k > 0 {
            assert(kept.last() == cs@[hi - 1]);
        }
        assert(kept =~= cs@.subrange(lo as int, hi as int));
    }
    (lo, hi)
}

/// ASCII upper-case letters folded to lower case; other characters unchanged.
pub open spec fn ascii_lower(c: char) -> char {
    if 'A' <= c && c <= 'Z' {
        ((c as u32) + 32) as char
    } else {
        c
    }
}

/// `c` folded to ASCII lower case.
pub fn to_ascii_lower(c: char) -> (r: char)
    ensures
        r == ascii_lower(c),
{
    if 'A' <= c && c <= 'Z' {
        let b = (c as u8) + 32;
        b as char
    } else {
        c
    }
}

/// Whether `c` is an ASCII decimal digit.
pub open spec fn is_digit(c: char) -> bool {
    '0' <= c && c <= '9'
}

/// The value of an ASCII digit.
pub open spec fn digit_value(c: char) -> int {
    (c as u32) - ('0' as u32)
}

/// The character of a digit value below ten.
pub open spec fn digit_char(d: int) -> char {
    (('0' as u32) + d) as char
}

/// Every character of `s` is a decimal digit.
pub open spec fn all_digits(s: Seq<char>) -> bool {
    forall|i: int| 0 <= i < s.len() ==> is_digit(#[trigger] s[i])
}

/// The number that the decimal digits `s` denote (leading zeros allowed).
pub open spec fn digits_value(s: Seq<char>) -> nat
    decreases s.len(),
{
    if s.len() == 0 {
        0
    } else {
        (digits_value(s.drop_last()) * 10 + digit_value(s.last())) as nat
    }
}

/// The shortest decimal spelling of `n`.
pub open spec fn decimal(n: nat) -> Seq<char>
    decreases n,
{
    if n < 10 {
        seq![digit_char(n as int)]
    } else {
        decimal(n / 10).push(digit_char((n % 10) as int))
    }
}

/// The decimal spelling of a signed number: a minus sign before negative ones.
pub open spec fn signed_decimal(x: int) -> Seq<char> {
    if x < 0 {
        seq!['-'] + decimal((-x) as nat)
    } else {
        decimal(x as nat)
    }
}

/// What parsing `s` as a `u32` gives: an optional `+` followed by at
/// least one digit, of a value that fits.
pub open spec fn parse_u32_spec(s: Seq<char>) -> Option<u32> {
    let digits = if s.len() > 0 && s[0] == '+' {
        s.drop_first()
    } else {
        s
    };
    if digits.len() > 0 && all_digits(digits) && digits_value(digits) <= u32::MAX {
        Some(digits_value(digits) as u32)
    } else {
        None
    }
}

/// What parsing `s` as an `i32` gives: an optional `+` or `-` followed by
/// at least one digit, of a value in range.
pub open spec fn parse_i32_spec(s: Seq<char>) -> Option<i32> {
    let neg = s.len() > 0 && s[0] == '-';
    let digits = if s.len() > 0 && (s[0] == '+' || s[0] == '-') {
        s.drop_first()
    } else {
        s
    };
    let v: int = if neg {
        -digits_value(digits)
    } else {
        digits_value(digits) as int
    };
    if digits.len() > 0 && all_digits(digits) && i32::MIN <= v <= i32::MAX {
        Some(v as i32)
    } else {
        None
    }
}

proof fn lemma_digits_value_prefix(s: Seq<char>, i: int)
    requires
        0 <= i <= s.len(),
        all_digits(s),
    ensures
        digits_value(s.take(i)) <= digits_value(s),
    decreases s.len() - i,
{
    if i < s.len() {
        lemma_digits_value_prefix(s, i + 1);
        assert(s.take(i + 1).drop_last() =~= s.take(i));
        assert(s.take(i + 1).last() == s[i]);
        assert(is_digit(s[i]));
    } else {
        assert(s.take(i) =~= s);
    }
}

/// The value of the all-digit text `cs[lo..]`, if it fits in `limit`.
fn digits_up_to(cs: &[char], lo: usize, limit: u64) -> (r: Option<u64>)
    requires
        lo <= cs@.len(),
        limit >= 9,
    ensures
        ({
            let d = cs@.subrange(lo as int, cs@.len() as int);
            match r {
                Some(v) => d.len() > 0 && all_digits(d) && v == digits_value(d) && v <= limit,
                None => !(d.len() > 0 && all_digits(d) && digits_value(d) <= limit),
            }
        }),
{
    let ghost d = cs@.subrange(lo as int, cs@.len() as int);
    if lo == cs.len() {
        return None;
    }
    let mut i: usize = lo;
    let mut v: u64 = 0;
    while i < cs.len()
        invariant
            lo <= i <= cs@.len(),
            d == cs@.subrange(lo as int, cs@.len() as int),
            all_digits(d.take(i - lo)),
            v == digits_value(d.take(i - lo)),
            v <= limit,
            limit >= 9,
        decreases cs@.len() - i,
    {
        let c = cs[i];
        assert(d[i - lo] == c);
        if !('0' <= c && c <= '9') {
            assert(!all_digits(d));
            return None;
        }
        let dv = (c as u32 - '0' as u32) as u64;
        assert(d.take(i - lo + 1).drop_last() =~= d.take(i - lo));
        if v > (limit - dv) / 10 {
            proof {
                assert(v * 10 + dv > limit) by (nonlinear_arith)
                    requires
                        v > (limit - dv) / 10,
                        dv <= limit,
                ;
                if all_digits(d) {
                    lemma_digits_value_prefix(d, i - lo + 1);
                }
            }
            return None;
        }
        assert(v * 10 + dv <= limit) by (nonlinear_arith)
            requires
                v <= (limit - dv) / 10,
                dv <= limit,
        ;
        v = v * 10 + dv;
        i = i + 1;
        assert forall|j: int| 0 <= j < i - lo implies is_digit(#[trigger] d.take(i - lo)[j]) by {
            if j < i - lo - 1 {
                assert(d.take(i - lo)[j] == d.take(i - lo - 1)[j]);
            }
        }
    }
    assert(d.take(i - lo) =~= d);
    Some(v)
}

/// Parses `s` as a `u32` the way `str::parse::<u32>` does.
pub fn parse_u32(s: &str) -> (r: Option<u32>)
    ensures
        r == parse_u32_spec(s@),
{
    let cs = char_vec(s);
    let lo: usize = if cs.len() > 0 && cs[0] == '+' {
        1
    } else {
        0
    };
    assert(cs@.subrange(lo as int, cs@.len() as int) =~= (if cs@.len() > 0 && cs@[0] == '+' {
        cs@.drop_first()
    } else {
        cs@
    }));
    match digits_up_to(cs.as_slice(), lo, 0xffff_ffff) {
        Some(v) => Some(v as u32),
        None => None,
    }
}

/// Parses `s` as an `i32` the way `str::parse::<i32>` does.
pub fn parse_i32(s: &str) -> (r: Option<i32>)
    ensures
        r == parse_i32_spec(s@),
{
    let cs = char_vec(s);
    let neg = cs.len() > 0 && cs[0] == '-';
    let lo: usize = if cs.len() > 0 && (cs[0] == '+' || cs[0] == '-') {
        1
    } else {
        0
    };
    let ghost digits = cs@.subrange(lo as int, cs@.len() as int);
    assert(digits =~= (if cs@.len() > 0 && (cs@[0] == '+' || cs@[0] == '-') {
        cs@.drop_first()
    } else {
        cs@
    }));
    let limit: u64 = if neg {
        0x8000_0000
    } else {
        0x7fff_ffff
    };
    match digits_up_to(cs.as_slice(), lo, limit) {
        Some(v) => {
            if neg {
                Some((0 - (v as i64)) as i32)
            } else {
                Some(v as i32)
            }
        },
        None => None,
    }
}

proof fn lemma_digit_char(d: nat)
    requires
        d < 10,
    ensures
        is_digit(digit_char(d as int)),
        digit_value(digit_char(d as int)) == d,
{
}

proof fn lemma_decimal_digits(n: nat)
    ensures
        decimal(n).len() > 0,
        all_digits(decimal(n)),
        digits_value(decimal(n)) == n,
    decreases n,
{
    lemma_digit_char(n % 10);
    if n < 10 {
        assert(n % 10 == n);
        assert(decimal(n).drop_last() =~= Seq::<char>::empty());
        assert(decimal(n).last() == digit_char(n as int));
        assert(digits_value(Seq::<char>::empty()) == 0);
    } else {
        lemma_decimal_digits(n / 10);
        let d = decimal(n);
        assert(d.drop_last() =~= decimal(n / 10));
        assert(n == (n / 10) * 10 + n % 10) by (nonlinear_arith);
        assert(d.last() == digit_char((n % 10) as int));
        assert forall|i: int| 0 <= i < d.len() implies is_digit(#[trigger] d[i]) by {
            if i < d.len() - 1 {
                assert(d[i] == decimal(n / 10)[i]);
            }
        }
    }
}

/// Reading back the decimal spelling of a `u32` gives the number.
pub proof fn lemma_parse_u32_decimal(n: u32)
    ensures
        parse_u32_spec(decimal(n as nat)) == Some(n),
{
    lemma_decimal_digits(n as nat);
    assert(is_digit(decimal(n as nat)[0]));
}

/// Reading back the decimal spelling of an `i32` gives the number.
pub proof fn lemma_parse_i32_decimal(x: i32)
    ensures
        parse_i32_spec(signed_decimal(x as int)) == Some(x),
{
    if x < 0 {
        let m = (-x) as nat;
        lemma_decimal_digits(m);
        let s = signed_decimal(x as int);
        assert(s.drop_first() =~= decimal(m));
    } else {
        lemma_decimal_digits(x as nat);
        assert(is_digit(decimal(x as nat)[0]));
    }
}

/// The decimal digits of `n`, most significant first.
fn decimal_chars(n: u64) -> (v: Vec<char>)
    ensures
        v@ == decimal(n as nat),
    decreases n,
{
    let d = (n % 10) as u32;
    let c = char_from_digit(d);
    if n < 10 {
        let mut v = Vec::new();
        v.push(c);
        v
    } else {
        let mut v = decimal_chars(n / 10);
        v.push(c);
        v
    }
}

fn char_from_digit(d: u32) -> (c: char)
    requires
        d < 10,
    ensures
        c == digit_char(d as int),
{
    let b = (d as u8) + 48;
    b as char
}

/// The decimal spelling of `n`, as `u32::to_string` writes it.
pub fn u32_to_text(n: u32) -> (s: String)
    ensures
        s@ == decimal(n as nat),
{
    let v = decimal_chars(n as u64);
    string_from_chars(v.as_slice())
}

/// The decimal spelling of `x`, as `i32::to_string` writes it.
pub fn i32_to_text(x: i32) -> (s: String)
    ensures
        s@ == signed_decimal(x as int),
{
    if x < 0 {
        let mag = (0 - (x as i64)) as u64;
        let mut v: Vec<char> = Vec::new();
        v.push('-');
        let mut d = decimal_chars(mag);
        v.append(&mut d);
        string_from_chars(v.as_slice())
    } else {
        let v = decimal_chars(x as u64);
        string_from_chars(v.as_slice())
    }
}

} // verus!
