//! Looking up timestamped analysis results of a media file, and reading
//! the band magnitudes out of the text of a spectrum message.
use vstd::prelude::*;

use crate::text::{char_vec, string_from_range, trim, trim_bounds};

verus! {

/// The keys are in ascending order.
pub open spec fn ascending(keys: Seq<u64>) -> bool {
    forall|i: int, j: int| 0 <= i <= j < keys.len() ==> keys[i] <= keys[j]
}

/// The number of keys at or before `t`.
pub open spec fn count_at_or_before(keys: Seq<u64>, t: u64) -> int
    decreases keys.len(),
{
    if keys.len() == 0 {
        0
    } else if keys.last() <= t {
        keys.len() as int
    } else {
        count_at_or_before(keys.drop_last(), t)
    }
}

/// The event to use at time `t`: the last one at or before `t`, or the
/// first one when `t` comes before them all; `None` when there is none.
pub open spec fn latest_spec(keys: Seq<u64>, t: u64) -> Option<usize> {
    if keys.len() == 0 {
        None
    } else {
        let lo = count_at_or_before(keys, t);
        if lo == 0 {
            Some(0)
        } else {
            Some((lo - 1) as usize)
        }
    }
}

proof fn lemma_count(keys: Seq<u64>, t: u64, lo: int)
    requires
        ascending(keys),
        0 <= lo <= keys.len(),
        forall|i: int| 0 <= i < lo ==> keys[i] <= t,
        forall|i: int| lo <= i < keys.len() ==> keys[i] > t,
    ensures
        count_at_or_before(keys, t) == lo,
    decreases keys.len(),
{
    if keys.len() > 0 {
        if lo == keys.len() {
        } else {
            lemma_count(keys.drop_last(), t, lo);
        }
    }
}

/// Finds, by binary search over ascending times, the event to use at
/// time `t`: the last one at or before `t`, or the first when `t` comes
/// before them all.  Over times that are not ascending the search still
/// ends at an event that is at or before `t` with the next one after it,
/// or at the first event when that one comes after `t`.
pub fn latest_at_or_before(keys: &[u64], t: u64) -> (r: Option<usize>)
    ensures
        r is None <==> keys@.len() == 0,
        r matches Some(i) ==> {
            &&& i < keys@.len()
            &&& keys@[i as int] > t ==> i == 0
            &&& keys@[i as int] <= t ==> (i + 1 == keys@.len() || keys@[i + 1] > t)
        },
        ascending(keys@) ==> r == latest_spec(keys@, t),
{
    if keys.len() == 0 {
        return None;
    }
    let mut lo: usize = 0;
    let mut hi: usize = keys.len();
    while lo < hi
        invariant
            0 <= lo <= hi <= keys@.len(),
            lo > 0 ==> keys@[lo - 1] <= t,
            hi < keys@.len() ==> keys@[hi as int] > t,
            ascending(keys@) ==> forall|i: int| 0 <= i < lo ==> keys@[i] <= t,
            ascending(keys@) ==> forall|i: int| hi <= i < keys@.len() ==> keys@[i] > t,
        decreases hi - lo,
    {
        let mid = lo + (hi - lo) / 2;
        if keys[mid] <= t {
            lo = mid + 1;
        } else {
            hi = mid;
        }
    }
    proof {
        if ascending(keys@) {
            lemma_count(keys@, t, lo as int);
        }
    }
    if lo == 0 {
        Some(0)
    } else {
        Some(lo - 1)
    }
}

/// The events to use for an offline sample at time `t`: the spectrum
/// event and, when there are level events, the level event that
/// [`latest_at_or_before`] picks; `None` without spectrum events.  Times
/// are in clock ticks (the media clock's nanoseconds), ascending as the
/// analysis records them.
pub fn sample_events(spectrum_times: &[u64], level_times: &[u64], t: u64) -> (r: Option<(usize, Option<usize>)>)
    ensures
        r is None <==> spectrum_times@.len() == 0,
        r matches Some((s, l)) ==> {
            &&& s < spectrum_times@.len()
            &&& l is None <==> level_times@.len() == 0
            &&& l matches Some(j) ==> j < level_times@.len()
            &&& ascending(spectrum_times@) ==> latest_spec(spectrum_times@, t) == Some(s)
            &&& ascending(level_times@) ==> latest_spec(level_times@, t) == l
        },
{
    match latest_at_or_before(spectrum_times, t) {
        Some(s) => Some((s, latest_at_or_before(level_times, t))),
        None => None,
    }
}

/// Whether `pat` occurs in `s` at position `i`.
pub open spec fn occurs_at(s: Seq<char>, pat: Seq<char>, i: int) -> bool {
    0 <= i && i + pat.len() <= s.len() && s.subrange(i, i + pat.len()) == pat
}

/// The first position at which `pat` occurs in `s`.
#[verifier::opaque]
pub open spec fn first_occurrence(s: Seq<char>, pat: Seq<char>) -> Option<int> {
    if exists|i: int| occurs_at(s, pat, i) {
        Some(choose|i: int| occurs_at(s, pat, i) && forall|j: int| 0 <= j < i ==> !occurs_at(s, pat, j))
    } else {
        None
    }
}

/// The text between `magnitude=(float){` and the next `}` of a spectrum
/// message's text, if both are there.
pub open spec fn magnitude_field(s: Seq<char>) -> Option<Seq<char>> {
    let pat = "magnitude=(float){"@;
    match first_occurrence(s, pat) {
        Some(i) => match first_occurrence(s.skip(i), seq!['}']) {
            Some(j) => Some(s.subrange(i + pat.len(), i + j)),
            None => None,
        },
        None => None,
    }
}

/// `s` split at every `,` (an empty text is one empty piece).
pub open spec fn split_commas(s: Seq<char>) -> Seq<Seq<char>>
    decreases s.len(),
{
    if s.len() == 0 {
        seq![seq![]]
    } else if s.last() == ',' {
        split_commas(s.drop_last()).push(seq![])
    } else {
        let p = split_commas(s.drop_last());
        p.update(p.len() - 1, p.last().push(s.last()))
    }
}

proof fn lemma_split_nonempty(s: Seq<char>)
    ensures
        split_commas(s).len() >= 1,
    decreases s.len(),
{
    if s.len() > 0 {
        lemma_split_nonempty(s.drop_last());
    }
}

fn matches_at(cs: &Vec<char>, pat: &Vec<char>, i: usize) -> (r: bool)
    requires
        i + pat@.len() <= cs@.len(),
    ensures
        r == occurs_at(cs@, pat@, i as int),
{
    let n = cs.len();
    let mut k: usize = 0;
    while k < pat.len()
        invariant
            n == cs@.len(),
            i + pat@.len() <= cs@.len(),
            k <= pat@.len(),
            forall|m: int| 0 <= m < k ==> cs@[i + m] == pat@[m],
        decreases pat@.len() - k,
    {
        if cs[i + k] != pat[k] {
            assert(cs@.subrange(i as int, i + pat@.len())[k as int] != pat@[k as int]);
            return false;
        }
        k = k + 1;
    }
    assert(cs@.subrange(i as int, i + pat@.len()) =~= pat@);
    true
}

fn find_from(cs: &Vec<char>, pat: &Vec<char>, from: usize) -> (r: Option<usize>)
    requires
        from <= cs@.len(),
        pat@.len() > 0,
    ensures
        match r {
            Some(i) => from <= i && occurs_at(cs@, pat@, i as int) && forall|j: int|
                from <= j < i ==> !occurs_at(cs@, pat@, j),
            None => forall|j: int| from <= j ==> !occurs_at(cs@, pat@, j),
        },
{
    let mut i = from;
    while pat.len() <= cs.len() - i
        invariant
            from <= i <= cs@.len(),
            pat@.len() > 0,
            forall|j: int| from <= j < i ==> !occurs_at(cs@, pat@, j),
        decreases cs@.len() - i,
    {
        if matches_at(cs, pat, i) {
            return Some(i);
        }
        i = i + 1;
    }
    None
}

proof fn lemma_first(s: Seq<char>, pat: Seq<char>, i: int)
    requires
        occurs_at(s, pat, i),
        forall|j: int| 0 <= j < i ==> !occurs_at(s, pat, j),
    ensures
        first_occurrence(s, pat) == Some(i),
{
    reveal(first_occurrence);
    assert(occurs_at(s, pat, i) && forall|j: int| 0 <= j < i ==> !occurs_at(s, pat, j));
    let c = choose|c: int| occurs_at(s, pat, c) && forall|j: int| 0 <= j < c ==> !occurs_at(s, pat, j);
    assert(occurs_at(s, pat, c) && forall|j: int| 0 <= j < c ==> !occurs_at(s, pat, j));
    if c < i {
        assert(!occurs_at(s, pat, c));
    } else if c > i {
        assert(!occurs_at(s, pat, i));
    }
}

proof fn lemma_absent(s: Seq<char>, pat: Seq<char>)
    requires
        forall|j: int| 0 <= j ==> !occurs_at(s, pat, j),
    ensures
        first_occurrence(s, pat) is None,
{
    reveal(first_occurrence);
}

proof fn lemma_close_in_rest(s: Seq<char>, i: int, e: int)
    requires
        0 <= i <= e,
        occurs_at(s, seq!['}'], e),
        forall|j: int| i <= j < e ==> !occurs_at(s, seq!['}'], j),
    ensures
        first_occurrence(s.skip(i), seq!['}']) == Some(e - i),
{
    let rest = s.skip(i);
    assert(rest.subrange(e - i, e - i + 1) =~= s.subrange(e, e + 1));
    assert forall|j: int| 0 <= j < e - i implies !occurs_at(rest, seq!['}'], j) by {
        assert(rest.subrange(j, j + 1) =~= s.subrange(i + j, i + j + 1));
        assert(!occurs_at(s, seq!['}'], i + j));
    }
    lemma_first(rest, seq!['}'], e - i);
}

#[verifier::spinoff_prover]
proof fn lemma_no_close(s: Seq<char>, i: int)
    requires
        0 <= i <= s.len(),
        forall|j: int| i <= j ==> !occurs_at(s, seq!['}'], j),
    ensures
        first_occurrence(s.skip(i), seq!['}']) is None,
{
    reveal(first_occurrence);
    let rest = s.skip(i);
    if exists|j: int| occurs_at(rest, seq!['}'], j) {
        let j = choose|j: int| occurs_at(rest, seq!['}'], j);
        assert(rest.subrange(j, j + 1) =~= s.subrange(i + j, i + j + 1));
        assert(occurs_at(s, seq!['}'], i + j));
    }
}

proof fn lemma_field(s: Seq<char>, pat: Seq<char>, i: int, e: int)
    requires
        pat == "magnitude=(float){"@,
        first_occurrence(s, pat) == Some(i),
        first_occurrence(s.skip(i), seq!['}']) == Some(e - i),
    ensures
        magnitude_field(s) == Some(s.subrange(i + pat.len(), e)),
{
}

/// The text of the magnitude field of a spectrum message's text, if any.
pub fn magnitude_text(s: &str) -> (r: Option<String>)
    ensures
        match r {
            Some(t) => magnitude_field(s@) == Some(t@),
            None => magnitude_field(s@) is None,
        },
{
    let cs = char_vec(s);
    let pat = char_vec("magnitude=(float){");
    proof {
        reveal_strlit("magnitude=(float){");
    }
    let close = vec!['}'];
    assert(close@ =~= seq!['}']);
    match find_from(&cs, &pat, 0) {
        Some(i) => {
            proof {
                lemma_first(cs@, pat@, i as int);
            }
            match find_from(&cs, &close, i) {
                Some(e) => {
                    proof {
                        lemma_close_in_rest(cs@, i as int, e as int);
                        lemma_field(cs@, pat@, i as int, e as int);
                        assert(e >= i + 18) by {
                            if e < i + 18 {
                                assert(cs@.subrange(e as int, e + 1)[0] == '}');
                                assert(cs@.subrange(i as int, i + 18)[e - i] == pat@[e - i]);
                            }
                        }
                    }
                    Some(string_from_range(cs.as_slice(), i + 18, e))
                },
                None => {
                    proof {
                        lemma_no_close(cs@, i as int);
                    }
                    None
                },
            }
        },
        None => {
            proof {
                lemma_absent(cs@, pat@);
            }
            None
        },
    }
}

/// The trimmed pieces of the magnitude field, in order: the texts of the
/// band values.
pub fn magnitude_tokens(field: &str) -> (v: Vec<String>)
    ensures
        v@.len() == split_commas(field@).len(),
        forall|i: int| 0 <= i < v@.len() ==> (#[trigger] v@[i])@ == trim(split_commas(field@)[i]),
{
    let cs = char_vec(field);
    let mut pieces: Vec<Vec<char>> = Vec::new();
    pieces.push(Vec::new());
    let mut i: usize = 0;
    assert(cs@.take(0) =~= seq![]);
    while i < cs.len()
        invariant
            i <= cs@.len(),
            cs@ == field@,
            pieces@.len() == split_commas(cs@.take(i as int)).len(),
            forall|k: int| 0 <= k < pieces@.len() ==> (#[trigger] pieces@[k])@ == split_commas(cs@.take(i as int))[k],
        decreases cs@.len() - i,
    {
        let c = cs[i];
        let ghost before = split_commas(cs@.take(i as int));
        proof {
            lemma_split_nonempty(cs@.take(i as int));
            assert(cs@.take(i + 1).drop_last() =~= cs@.take(i as int));
        }
        if c == ',' {
            pieces.push(Vec::new());
        } else {
            let last = pieces.len() - 1;
            let mut p = pieces.pop().unwrap();
            p.push(c);
            pieces.push(p);
            proof {
                assert(split_commas(cs@.take(i + 1)) == before.update(last as int, before[last as int].push(c)));
            }
        }
        i = i + 1;
    }
    assert(cs@.take(cs@.len() as int) =~= cs@);
    let mut out: Vec<String> = Vec::new();
    let mut k: usize = 0;
    while k < pieces.len()
        invariant
            k <= pieces@.len(),
            cs@ == field@,
            pieces@.len() == split_commas(field@).len(),
            forall|m: int| 0 <= m < pieces@.len() ==> (#[trigger] pieces@[m])@ == split_commas(field@)[m],
            out@.len() == k,
            forall|m: int| 0 <= m < k ==> (#[trigger] out@[m])@ == trim(split_commas(field@)[m]),
        decreases pieces@.len() - k,
    {
        let (lo, hi) = trim_bounds(pieces[k].as_slice());
        out.push(string_from_range(pieces[k].as_slice(), lo, hi));
        k = k + 1;
    }
    out
}

} // verus!
