//! Per-buffer ping-pong bookkeeping of multi-pass compute shaders: each
//! buffer is a pair of textures, and each buffer remembers which of its two
//! sides was written last, so that any pass can read any buffer's latest
//! output while the next write goes to the other side.
use vstd::prelude::*;

use crate::text::str_eq;

verus! {

/// The index of the first buffer named `name` in `names`.
pub open spec fn name_index(names: Seq<String>, name: Seq<char>) -> int {
    choose|i: int| 0 <= i < names.len() && (#[trigger] names[i])@ == name
}

/// Whether `names` holds a buffer named `name`.
pub open spec fn has_name(names: Seq<String>, name: Seq<char>) -> bool {
    exists|i: int| 0 <= i < names.len() && (#[trigger] names[i])@ == name
}

/// No name occurs twice.
pub open spec fn names_distinct(names: Seq<String>) -> bool {
    forall|i: int, j: int|
        0 <= i < names.len() && 0 <= j < names.len() && i != j ==> (#[trigger] names[i])@ != (
        #[trigger] names[j])@
}

/// Whether buffer `name`'s last write went to side 0 (`false` for a buffer
/// that is not there).
pub open spec fn wrote_side0(m: Map<Seq<char>, bool>, name: Seq<char>) -> bool {
    m.contains_key(name) && m[name]
}

/// The side that the next write of buffer `name` goes to: the one not
/// written last.
pub open spec fn write_index(m: Map<Seq<char>, bool>, name: Seq<char>) -> u8 {
    if wrote_side0(m, name) {
        1
    } else {
        0
    }
}

/// The side that a read of buffer `name` returns: the one written last.
pub open spec fn read_index(m: Map<Seq<char>, bool>, name: Seq<char>) -> u8 {
    if wrote_side0(m, name) {
        0
    } else {
        1
    }
}

/// The sides after buffer `name` was written: its side flips.
pub open spec fn marked(m: Map<Seq<char>, bool>, name: Seq<char>) -> Map<Seq<char>, bool> {
    if m.contains_key(name) {
        m.insert(name, !m[name])
    } else {
        m
    }
}

/// The sides after every buffer was flipped.
pub open spec fn flipped(m: Map<Seq<char>, bool>) -> Map<Seq<char>, bool> {
    Map::new(|k: Seq<char>| m.contains_key(k), |k: Seq<char>| !m[k])
}

/// The sides after a reset: every buffer next writes side 0.
pub open spec fn reset(m: Map<Seq<char>, bool>) -> Map<Seq<char>, bool> {
    Map::new(|k: Seq<char>| m.contains_key(k), |k: Seq<char>| false)
}

/// The write sides of a set of named ping-pong buffers.
pub struct PingPong {
    names: Vec<String>,
    sides: Vec<bool>,
}

impl View for PingPong {
    type V = Map<Seq<char>, bool>;

    closed spec fn view(&self) -> Map<Seq<char>, bool> {
        Map::new(
            |k: Seq<char>| has_name(self.names@, k),
            |k: Seq<char>| self.sides@[name_index(self.names@, k)],
        )
    }
}

impl PingPong {
    /// The bookkeeping's invariant.
    pub closed spec fn wf(&self) -> bool {
        self.names@.len() == self.sides@.len() && names_distinct(self.names@)
    }

    proof fn lemma_index(&self, k: Seq<char>, i: int)
        requires
            self.wf(),
            0 <= i < self.names@.len(),
            self.names@[i]@ == k,
        ensures
            has_name(self.names@, k),
            name_index(self.names@, k) == i,
    {
        assert(has_name(self.names@, k));
        let j = name_index(self.names@, k);
        assert(self.names@[j]@ == k);
    }

    fn find(&self, name: &str) -> (r: Option<usize>)
        requires
            self.wf(),
        ensures
            match r {
                Some(i) => i < self.names@.len() && self.names@[i as int]@ == name@
                    && self@.contains_key(name@) && name_index(self.names@, name@) == i,
                None => !self@.contains_key(name@),
            },
    {
        let mut i: usize = 0;
        while i < self.names.len()
            invariant
                self.wf(),
                i <= self.names@.len(),
                forall|j: int| 0 <= j < i ==> (#[trigger] self.names@[j])@ != name@,
            decreases self.names@.len() - i,
        {
            if str_eq(self.names[i].as_str(), name) {
                proof {
                    self.lemma_index(name@, i as int);
                }
                return Some(i);
            }
            i = i + 1;
        }
        None
    }

    /// Bookkeeping for the buffers `buffer_names` (a name given twice
    /// makes one buffer), each of which next writes side 0.
    pub fn new(buffer_names: &[String]) -> (p: Self)
        ensures
            p.wf(),
            forall|k: Seq<char>| #[trigger] p@.contains_key(k) <==> exists|i: int|
                0 <= i < buffer_names@.len() && (#[trigger] buffer_names@[i])@ == k,
            forall|k: Seq<char>| p@.contains_key(k) ==> !(#[trigger] p@[k]),
    {
        let mut p = PingPong { names: Vec::new(), sides: Vec::new() };
        let mut i: usize = 0;
        while i < buffer_names.len()
            invariant
                p.wf(),
                i <= buffer_names@.len(),
                forall|j: int| 0 <= j < p.sides@.len() ==> !(#[trigger] p.sides@[j]),
                forall|k: Seq<char>| #[trigger] has_name(p.names@, k) <==> exists|j: int|
                    0 <= j < i && (#[trigger] buffer_names@[j])@ == k,
            decreases buffer_names@.len() - i,
        {
            let ghost k = buffer_names@[i as int]@;
            match p.find(buffer_names[i].as_str()) {
                Some(_) => {
                    assert(has_name(p.names@, k));
                    assert forall|q: Seq<char>| #[trigger] has_name(p.names@, q) <==> exists|j: int|
                        0 <= j < i + 1 && (#[trigger] buffer_names@[j])@ == q by {
                        if q == k {
                            assert(buffer_names@[i as int]@ == q);
                        }
                    }
                },
                None => {
                    let ghost old_names = p.names@;
                    p.names.push(buffer_names[i].as_str().to_owned());
                    p.sides.push(false);
                    proof {
                        let n = old_names.len() as int;
                        assert(p.names@[n]@ == k);
                        assert forall|a: int, b: int|
                            0 <= a < p.names@.len() && 0 <= b < p.names@.len() && a != b implies (
                            #[trigger] p.names@[a])@ != (#[trigger] p.names@[b])@ by {
                            if a < n && b < n {
                                assert(p.names@[a] == old_names[a] && p.names@[b] == old_names[b]);
                            } else if a == n {
                                assert(p.names@[b] == old_names[b]);
                                assert(!has_name(old_names, k));
                            } else {
                                assert(p.names@[a] == old_names[a]);
                                assert(!has_name(old_names, k));
                            }
                        }
                        assert forall|q: Seq<char>| #[trigger] has_name(p.names@, q) <==> exists|j: int|
                            0 <= j < i + 1 && (#[trigger] buffer_names@[j])@ == q by {
                            if has_name(p.names@, q) {
                                let a = choose|a: int| 0 <= a < p.names@.len() && (#[trigger] p.names@[a])@ == q;
                                if a < n {
                                    assert(old_names[a]@ == q);
                                    assert(has_name(old_names, q));
                                } else {
                                    assert(buffer_names@[i as int]@ == q);
                                }
                            }
                            if exists|j: int| 0 <= j < i + 1 && (#[trigger] buffer_names@[j])@ == q {
                                if q == k {
                                    assert(p.names@[n]@ == q);
                                } else {
                                    assert(has_name(old_names, q));
                                    let a = choose|a: int| 0 <= a < old_names.len() && (#[trigger] old_names[a])@ == q;
                                    assert(p.names@[a] == old_names[a]);
                                }
                            }
                        }
                    }
                },
            }
            i = i + 1;
        }
        proof {
            assert forall|k: Seq<char>| p@.contains_key(k) implies !(#[trigger] p@[k]) by {
                let j = name_index(p.names@, k);
                assert(0 <= j < p.sides@.len());
            }
        }
        p
    }
    /// Whether buffer `name`'s last write went to side 0 (`false` for an
    /// unknown buffer).
    pub fn get_write_side(&self, name: &str) -> (b: bool)
        requires
            self.wf(),
        ensures
            b == wrote_side0(self@, name@),
    {
        match self.find(name) {
            Some(i) => self.sides[i],
            None => false,
        }
    }

    /// The side that the next write of buffer `name` goes to.
    pub fn write_side_index(&self, name: &str) -> (r: u8)
        requires
            self.wf(),
        ensures
            r == write_index(self@, name@),
    {
        if self.get_write_side(name) {
            1
        } else {
            0
        }
    }

    /// The side that a read of buffer `name` returns.
    pub fn read_side_index(&self, name: &str) -> (r: u8)
        requires
            self.wf(),
        ensures
            r == read_index(self@, name@),
    {
        if self.get_write_side(name) {
            0
        } else {
            1
        }
    }

    /// Records that buffer `name` was written: its side flips, so that the
    /// next read returns what was just written and the next write goes to
    /// the other side.  Other buffers are untouched.
    pub fn mark_written(&mut self, name: &str)
        requires
            old(self).wf(),
        ensures
            final(self).wf(),
            final(self)@ == marked(old(self)@, name@),
    {
        match self.find(name) {
            Some(i) => {
                let ghost before = self@;
                let v = self.sides[i];
                self.sides.set(i, !v);
                proof {
                    assert(self@ =~= before.insert(name@, !v));
                }
            },
            None => {},
        }
    }

    /// Flips every buffer (between frames, for feedback effects).
    pub fn flip_buffers(&mut self)
        requires
            old(self).wf(),
        ensures
            final(self).wf(),
            final(self)@ == flipped(old(self)@),
    {
        let ghost before = self.sides@;
        let ghost names0 = self.names@;
        let mut i: usize = 0;
        while i < self.sides.len()
            invariant
                self.wf(),
                self.names@ == names0,
                i <= self.sides@.len(),
                self.sides@.len() == before.len(),
                forall|j: int| 0 <= j < i ==> self.sides@[j] == !before[j],
                forall|j: int| i <= j < self.sides@.len() ==> self.sides@[j] == before[j],
            decreases self.sides@.len() - i,
        {
            let v = self.sides[i];
            self.sides.set(i, !v);
            i = i + 1;
        }
        proof {
            let old_view = Map::new(
                |k: Seq<char>| has_name(self.names@, k),
                |k: Seq<char>| before[name_index(self.names@, k)],
            );
            assert(old(self)@ =~= old_view);
            assert(self@ =~= flipped(old_view)) by {
                assert forall|k: Seq<char>| has_name(self.names@, k) implies 0 <= name_index(
                    self.names@,
                    k,
                ) < self.sides@.len() by {}
            }
        }
    }

    /// Resets every buffer to write side 0 next.
    pub fn clear_all(&mut self)
        requires
            old(self).wf(),
        ensures
            final(self).wf(),
            final(self)@ == reset(old(self)@),
    {
        let ghost before = self@;
        let ghost names0 = self.names@;
        let mut i: usize = 0;
        while i < self.sides.len()
            invariant
                self.wf(),
                self.names@ == names0,
                i <= self.sides@.len(),
                forall|j: int| 0 <= j < i ==> !self.sides@[j],
                self@.dom() == before.dom(),
            decreases self.sides@.len() - i,
        {
            self.sides.set(i, false);
            assert(self@.dom() =~= before.dom());
            i = i + 1;
        }
        proof {
            assert forall|k: Seq<char>| has_name(self.names@, k) implies 0 <= name_index(
                self.names@,
                k,
            ) < self.sides@.len() by {}
            assert(self@ =~= reset(before));
        }
    }
}

/// Reading a buffer right after it was written returns the side that the
/// write went to.
pub proof fn lemma_read_after_write(m: Map<Seq<char>, bool>, name: Seq<char>)
    requires
        m.contains_key(name),
    ensures
        read_index(marked(m, name), name) == write_index(m, name),
{
}

/// A read never returns the side that the next write goes to.
pub proof fn lemma_sides_differ(m: Map<Seq<char>, bool>, name: Seq<char>)
    ensures
        read_index(m, name) != write_index(m, name),
        read_index(m, name) <= 1 && write_index(m, name) <= 1,
{
}

/// Writing a buffer twice brings its sides back to where they were, and
/// a write leaves every other buffer as it was.
pub proof fn lemma_mark_twice(m: Map<Seq<char>, bool>, name: Seq<char>, other: Seq<char>)
    ensures
        marked(marked(m, name), name) == m,
        other != name ==> wrote_side0(marked(m, name), other) == wrote_side0(m, other),
{
    if m.contains_key(name) {
        assert(marked(marked(m, name), name) =~= m);
    }
}

/// Flipping every buffer twice brings them back; a flip is a write of
/// each buffer.
pub proof fn lemma_flip_twice(m: Map<Seq<char>, bool>, name: Seq<char>)
    ensures
        flipped(flipped(m)) == m,
        wrote_side0(flipped(m), name) == (m.contains_key(name) && !wrote_side0(m, name)),
{
    assert(flipped(flipped(m)) =~= m);
}

/// After a reset every buffer writes side 0 next and reads side 1.
pub proof fn lemma_reset_sides(m: Map<Seq<char>, bool>, name: Seq<char>)
    ensures
        write_index(reset(m), name) == 0,
        read_index(reset(m), name) == 1,
{
}

} // verus!
