//! Planning the dispatches of compute shaders: workgroup counts, the
//! one-shot frame gate, and for multi-pass shaders the order of passes,
//! the side of each buffer a pass writes, and the key that selects the
//! cached input bindings matching the buffers' current sides.
use vstd::arithmetic::div_mod::lemma_div_denominator;
use vstd::prelude::*;

use crate::builder::PassDescription;
use crate::pingpong::{marked, read_index, wrote_side0, PingPong};
use crate::radix::{ceil_div, div_ceil_u32};

verus! {

/// `2^i`.
pub open spec fn weight(i: nat) -> nat
    decreases i,
{
    if i == 0 {
        1
    } else {
        2 * weight((i - 1) as nat)
    }
}

/// The views of a list of buffer names.
pub open spec fn name_views(v: Seq<String>) -> Seq<Seq<char>> {
    v.map_values(|s: String| s@)
}

/// The buffer that input slot `i` of a pass reads: its `i`-th input, its
/// first input for slots past its inputs, and `fallback` when it has none.
pub open spec fn slot_name(deps: Seq<Seq<char>>, fallback: Seq<char>, i: int) -> Seq<char> {
    if deps.len() == 0 {
        fallback
    } else if i < deps.len() {
        deps[i]
    } else {
        deps[0]
    }
}

/// Bit `i` of a pass's input key: whether the buffer of slot `i` last
/// wrote side 0.
pub open spec fn slot_bit(m: Map<Seq<char>, bool>, deps: Seq<Seq<char>>, fallback: Seq<char>, i: int) -> nat {
    if wrote_side0(m, slot_name(deps, fallback, i)) {
        1
    } else {
        0
    }
}

/// The key bits of slots `i..n`, slot `i` lowest.
pub open spec fn key_from(
    m: Map<Seq<char>, bool>,
    deps: Seq<Seq<char>>,
    fallback: Seq<char>,
    i: int,
    n: int,
) -> nat
    decreases n - i,
{
    if i >= n {
        0
    } else {
        slot_bit(m, deps, fallback, i) + 2 * key_from(m, deps, fallback, i + 1, n)
    }
}

/// The input key of a pass with `n` input slots: bit `i` is set when the
/// buffer of slot `i` last wrote side 0.
pub open spec fn input_key(m: Map<Seq<char>, bool>, deps: Seq<Seq<char>>, fallback: Seq<char>, n: int) -> nat {
    key_from(m, deps, fallback, 0, n)
}

/// The side that the cached input bindings for `key` bind for slot `i`:
/// side 0 when bit `i` is set, else side 1.
pub open spec fn cached_side(key: nat, i: nat) -> u8 {
    if (key / weight(i)) % 2 == 1 {
        0
    } else {
        1
    }
}

proof fn lemma_weight_pos(i: nat)
    ensures
        weight(i) >= 1,
    decreases i,
{
    if i > 0 {
        lemma_weight_pos((i - 1) as nat);
    }
}

proof fn lemma_key_bound(m: Map<Seq<char>, bool>, deps: Seq<Seq<char>>, fallback: Seq<char>, i: int, n: int)
    requires
        0 <= i <= n,
    ensures
        key_from(m, deps, fallback, i, n) < weight((n - i) as nat),
    decreases n - i,
{
    if i < n {
        lemma_key_bound(m, deps, fallback, i + 1, n);
        assert(weight((n - i) as nat) == 2 * weight((n - i - 1) as nat));
    }
}

proof fn lemma_key_bit(m: Map<Seq<char>, bool>, deps: Seq<Seq<char>>, fallback: Seq<char>, i: int, j: nat, n: int)
    requires
        0 <= i,
        i + j < n,
    ensures
        (key_from(m, deps, fallback, i, n) / weight(j)) % 2 == slot_bit(m, deps, fallback, i + j),
    decreases j,
{
    let k = key_from(m, deps, fallback, i, n);
    let rest = key_from(m, deps, fallback, i + 1, n);
    let b = slot_bit(m, deps, fallback, i);
    assert(k == b + 2 * rest);
    if j == 0 {
        assert(weight(0) == 1);
        assert(k / 1 == k);
        assert((b + 2 * rest) % 2 == b) by (nonlinear_arith)
            requires
                b == 0 || b == 1,
                rest >= 0,
        ;
    } else {
        lemma_weight_pos((j - 1) as nat);
        assert(k / 2 == rest) by (nonlinear_arith)
            requires
                k == b + 2 * rest,
                b == 0 || b == 1,
                rest >= 0,
        ;
        lemma_div_denominator(k as int, 2, weight((j - 1) as nat) as int);
        assert(weight(j) == 2 * weight((j - 1) as nat));
        lemma_key_bit(m, deps, fallback, i + 1, (j - 1) as nat, n);
        assert(k / weight(j) == rest / weight((j - 1) as nat));
        assert(i + 1 + (j - 1) == i + j);
    }
}

/// The cached input bindings that a pass's key selects bind, for every
/// slot, the side of its buffer that a read returns: the side written
/// last.
pub proof fn lemma_key_selects_read_sides(
    m: Map<Seq<char>, bool>,
    deps: Seq<Seq<char>>,
    fallback: Seq<char>,
    n: int,
    i: nat,
)
    requires
        i < n,
    ensures
        cached_side(input_key(m, deps, fallback, n), i) == read_index(m, slot_name(deps, fallback, i as int)),
{
    lemma_key_bit(m, deps, fallback, 0, i, n);
}

/// The buffer that input slot `i` of a pass reads.
pub fn slot_buffer<'a>(deps: &'a [String], fallback: &'a str, i: usize) -> (r: &'a str)
    ensures
        r@ == slot_name(name_views(deps@), fallback@, i as int),
{
    if deps.len() == 0 {
        fallback
    } else if i < deps.len() {
        deps[i].as_str()
    } else {
        deps[0].as_str()
    }
}

/// The input key of a pass whose inputs are `deps`, for `n` input slots.
pub fn input_key_of(state: &PingPong, deps: &[String], fallback: &str, n: usize) -> (k: usize)
    requires
        state.wf(),
        weight(n as nat) <= usize::MAX + 1,
    ensures
        k == input_key(state@, name_views(deps@), fallback@, n as int),
{
    let ghost ds = name_views(deps@);
    let mut k: usize = 0;
    let mut i: usize = n;
    while i > 0
        invariant
            state.wf(),
            i <= n,
            weight(n as nat) <= usize::MAX + 1,
            ds == name_views(deps@),
            k == key_from(state@, ds, fallback@, i as int, n as int),
        decreases i,
    {
        i = i - 1;
        let b = state.get_write_side(slot_buffer(deps, fallback, i));
        proof {
            lemma_key_bound(state@, ds, fallback@, i as int, n as int);
            lemma_weight_mono((n - i) as nat, n as nat);
        }
        k = 2 * k + if b {
            1
        } else {
            0
        };
    }
    k
}

proof fn lemma_weight_mono(a: nat, b: nat)
    requires
        a <= b,
    ensures
        weight(a) <= weight(b),
    decreases b,
{
    if a < b {
        lemma_weight_mono(a, (b - 1) as nat);
        lemma_weight_pos((b - 1) as nat);
    }
}

/// The workgroups that cover a `width` by `height` image with tiles of
/// `tile[0]` by `tile[1]` invocations.
pub open spec fn workgroups_for(width: u32, height: u32, tile: [u32; 3]) -> [u32; 3] {
    [ceil_div(width as int, tile[0] as int) as u32, ceil_div(height as int, tile[1] as int) as u32, 1]
}

/// The workgroups that cover a `width` by `height` image.
pub fn workgroup_count_for(width: u32, height: u32, tile: [u32; 3]) -> (r: [u32; 3])
    requires
        tile[0] > 0,
        tile[1] > 0,
    ensures
        r == workgroups_for(width, height, tile),
{
    [div_ceil_u32(width, tile[0]), div_ceil_u32(height, tile[1]), 1]
}

/// The workgroups of a pass of a single-pass dispatch: its own override,
/// else the screen-based count.
pub open spec fn single_pass_groups(pass: Option<PassDescription>, default: [u32; 3]) -> [u32; 3] {
    match pass {
        Some(p) => match p.workgroup_size {
            Some(w) => w,
            None => default,
        },
        None => default,
    }
}

/// The workgroups of pass `pass` (if it has a description) when passes
/// are dispatched one after the other on shared resources.
pub fn single_pass_workgroups(pass: Option<&PassDescription>, default: [u32; 3]) -> (r: [u32; 3])
    ensures
        r == single_pass_groups(
            match pass {
                Some(p) => Some(*p),
                None => None,
            },
            default,
        ),
{
    match pass {
        Some(p) => match p.workgroup_size {
            Some(w) => w,
            None => default,
        },
        None => default,
    }
}

/// The workgroups of a multi-pass pass: its own override first, then the
/// count that covers its buffer when the buffer has its own resolution or
/// scale, else the screen-based count.
pub open spec fn multipass_groups(
    pass: Option<PassDescription>,
    default: [u32; 3],
    buffer: (u32, u32),
    tile: [u32; 3],
) -> [u32; 3] {
    match pass {
        Some(p) => match p.workgroup_size {
            Some(w) => w,
            None => if p.resolution is Some || p.resolution_scale_bits is Some {
                workgroups_for(buffer.0, buffer.1, tile)
            } else {
                default
            },
        },
        None => default,
    }
}

/// The workgroups of a pass of a multi-pass dispatch, given the size of
/// the pass's buffer.
pub fn multipass_workgroups(
    pass: Option<&PassDescription>,
    default: [u32; 3],
    buffer: (u32, u32),
    tile: [u32; 3],
) -> (r: [u32; 3])
    requires
        tile[0] > 0,
        tile[1] > 0,
    ensures
        r == multipass_groups(
            match pass {
                Some(p) => Some(*p),
                None => None,
            },
            default,
            buffer,
            tile,
        ),
{
    match pass {
        Some(p) => match p.workgroup_size {
            Some(w) => w,
            None => if p.resolution.is_some() || p.resolution_scale_bits.is_some() {
                workgroup_count_for(buffer.0, buffer.1, tile)
            } else {
                default
            },
        },
        None => default,
    }
}

/// One pass of a multi-pass dispatch: its workgroups, the key of the
/// cached input bindings it uses, and whether its buffer last wrote side
/// 0 (which picks the side it writes now).
#[derive(Clone, Copy, Debug)]
pub struct PassDispatch {
    pub workgroups: [u32; 3],
    pub input_key: usize,
    pub wrote_side0: bool,
}

/// The dispatches of the first `k` passes, and the buffer sides after
/// them: each pass reads its inputs' current sides, and every pass but
/// the last then marks its buffer written.
pub open spec fn plan_prefix(
    m: Map<Seq<char>, bool>,
    passes: Seq<PassDescription>,
    groups: Seq<[u32; 3]>,
    fallback: Seq<char>,
    n: int,
    k: int,
) -> (Seq<PassDispatch>, Map<Seq<char>, bool>)
    decreases k,
{
    if k <= 0 {
        (seq![], m)
    } else {
        let (ds, mk) = plan_prefix(m, passes, groups, fallback, n, k - 1);
        let p = passes[k - 1];
        let d = PassDispatch {
            workgroups: groups[k - 1],
            input_key: input_key(mk, name_views(p.inputs@), fallback, n) as usize,
            wrote_side0: wrote_side0(mk, p.name@),
        };
        (ds.push(d), if k - 1 < passes.len() - 1 {
            marked(mk, p.name@)
        } else {
            mk
        })
    }
}

/// Plans one multi-pass dispatch: for each pass in order, its workgroups
/// (`groups[i]`), its input key over `n` slots (`fallback` stands for the
/// inputs of a pass that has none), and its write side; every pass but
/// the last marks its buffer written.
pub fn plan_multipass(
    state: &mut PingPong,
    passes: &[PassDescription],
    groups: &[[u32; 3]],
    fallback: &str,
    n: usize,
) -> (v: Vec<PassDispatch>)
    requires
        old(state).wf(),
        groups@.len() == passes@.len(),
        weight(n as nat) <= usize::MAX + 1,
    ensures
        final(state).wf(),
        v@ == plan_prefix(old(state)@, passes@, groups@, fallback@, n as int, passes@.len() as int).0,
        final(state)@ == plan_prefix(old(state)@, passes@, groups@, fallback@, n as int, passes@.len() as int).1,
{
    let ghost m0 = state@;
    let mut v: Vec<PassDispatch> = Vec::new();
    let mut i: usize = 0;
    while i < passes.len()
        invariant
            state.wf(),
            groups@.len() == passes@.len(),
            weight(n as nat) <= usize::MAX + 1,
            i <= passes@.len(),
            v@ == plan_prefix(m0, passes@, groups@, fallback@, n as int, i as int).0,
            state@ == plan_prefix(m0, passes@, groups@, fallback@, n as int, i as int).1,
        decreases passes@.len() - i,
    {
        let p = &passes[i];
        let key = input_key_of(state, p.inputs.as_slice(), fallback, n);
        let side = state.get_write_side(p.name.as_str());
        proof {
            lemma_key_bound(state@, name_views(p.inputs@), fallback@, 0, n as int);
        }
        v.push(PassDispatch { workgroups: groups[i], input_key: key, wrote_side0: side });
        if i + 1 < passes.len() {
            state.mark_written(p.name.as_str());
        }
        i = i + 1;
    }
    v
}

/// Whether a shader still dispatches: a one-shot shader dispatches only
/// in its first frame.
#[derive(Clone, Copy, Debug, PartialEq, Eq, Structural)]
pub struct FrameGate {
    pub dispatch_once: bool,
    pub current_frame: u32,
}

impl FrameGate {
    /// A gate at frame 0.
    pub fn new(dispatch_once: bool) -> (g: Self)
        ensures
            g == (FrameGate { dispatch_once, current_frame: 0 }),
    {
        FrameGate { dispatch_once, current_frame: 0 }
    }

    /// Whether this frame dispatches.
    pub open spec fn open(&self) -> bool {
        !(self.dispatch_once && self.current_frame > 0)
    }

    /// Whether this frame dispatches.
    pub fn should_dispatch(&self) -> (b: bool)
        ensures
            b == self.open(),
    {
        !(self.dispatch_once && self.current_frame > 0)
    }

    /// Counts a dispatched frame.
    pub fn advance(&mut self)
        requires
            old(self).current_frame < u32::MAX,
        ensures
            final(self).current_frame == old(self).current_frame + 1,
            final(self).dispatch_once == old(self).dispatch_once,
    {
        self.current_frame = self.current_frame + 1;
    }

    /// Starts counting again (after a resize or a clear).
    pub fn reset(&mut self)
        ensures
            final(self).current_frame == 0,
            final(self).dispatch_once == old(self).dispatch_once,
    {
        self.current_frame = 0;
    }
}

/// A one-shot shader dispatches only in its first frame: once a frame
/// has been counted, no later frame dispatches until a reset.
pub proof fn lemma_dispatch_once(g: FrameGate, later: FrameGate)
    requires
        g.dispatch_once,
        later.dispatch_once == g.dispatch_once,
        later.current_frame >= g.current_frame,
        g.current_frame > 0,
    ensures
        !later.open(),
{
}

/// The size of a pass's buffer: its fixed resolution when it has one, else
/// its scaled size when it has a scale (`scaled`: the screen sides times
/// the `f32` scale, rounded by the caller), else the screen size.  A fixed
/// or scaled side is at least 1.
pub fn buffer_dims(
    screen_width: u32,
    screen_height: u32,
    resolution: Option<[u32; 2]>,
    scaled: Option<(u32, u32)>,
) -> (r: (u32, u32))
    ensures
        r == match resolution {
            Some(res) => (
                if res[0] < 1 { 1u32 } else { res[0] },
                if res[1] < 1 { 1u32 } else { res[1] },
            ),
            None => match scaled {
                Some(s) => (if s.0 < 1 { 1u32 } else { s.0 }, if s.1 < 1 { 1u32 } else { s.1 }),
                None => (screen_width, screen_height),
            },
        },
{
    match resolution {
        Some(res) => (
            if res[0] < 1 {
                1
            } else {
                res[0]
            },
            if res[1] < 1 {
                1
            } else {
                res[1]
            },
        ),
        None => match scaled {
            Some(s) => (
                if s.0 < 1 {
                    1
                } else {
                    s.0
                },
                if s.1 < 1 {
                    1
                } else {
                    s.1
                },
            ),
            None => (screen_width, screen_height),
        },
    }
}

/// The surface size after a resize to `new`: a size with a zero side is
/// ignored.
pub fn surface_size_after_resize(current: (u32, u32), new: (u32, u32)) -> (r: (u32, u32))
    ensures
        r == if new.0 > 0 && new.1 > 0 {
            new
        } else {
            current
        },
{
    if new.0 > 0 && new.1 > 0 {
        new
    } else {
        current
    }
}

/// What happens to a request to dispatch one stage.
#[derive(Clone, Copy, Debug, PartialEq, Eq, Structural)]
pub enum StageDecision {
    /// There is no such stage; the request is reported and dropped.
    OutOfRange,
    /// A one-shot shader past its first frame; nothing is dispatched.
    Skipped,
    Dispatch,
}

/// Decides a request to dispatch stage `stage` of a shader with `stages`
/// pipelines.
pub fn stage_decision(stage: usize, stages: usize, gate: &FrameGate) -> (d: StageDecision)
    ensures
        d == if stage >= stages {
            StageDecision::OutOfRange
        } else if !gate.open() {
            StageDecision::Skipped
        } else {
            StageDecision::Dispatch
        },
{
    if stage >= stages {
        StageDecision::OutOfRange
    } else if !gate.should_dispatch() {
        StageDecision::Skipped
    } else {
        StageDecision::Dispatch
    }
}

/// The sides that the cached input bindings for `key` bind, slot by slot,
/// for `n` slots: slot `i` binds side 0 when bit `i` of the key is set,
/// else side 1.
pub fn input_sides_for_key(key: usize, n: usize) -> (sides: Vec<u8>)
    ensures
        sides@.len() == n,
        forall|i: int| 0 <= i < n ==> sides@[i] == cached_side(key as nat, i as nat),
{
    let mut sides: Vec<u8> = Vec::new();
    let mut rest: usize = key;
    let mut i: usize = 0;
    assert(weight(0) == 1);
    assert(key as nat / 1 == key);
    while i < n
        invariant
            i <= n,
            sides@.len() == i,
            forall|j: int| 0 <= j < i ==> sides@[j] == cached_side(key as nat, j as nat),
            rest == key as nat / weight(i as nat),
        decreases n - i,
    {
        proof {
            lemma_weight_pos(i as nat);
            lemma_div_denominator(key as int, weight(i as nat) as int, 2);
            assert(weight((i + 1) as nat) == 2 * weight(i as nat));
            assert(weight(i as nat) * 2 == 2 * weight(i as nat));
        }
        sides.push(if rest % 2 == 1 {
            0
        } else {
            1
        });
        rest = rest / 2;
        i = i + 1;
    }
    sides
}

/// The number of input binding combinations cached for a pass with `n`
/// slots: one per key, `2^n`.
pub fn input_combinations(n: usize) -> (r: usize)
    requires
        weight(n as nat) <= usize::MAX,
    ensures
        r == weight(n as nat),
{
    let mut r: usize = 1;
    let mut i: usize = 0;
    while i < n
        invariant
            i <= n,
            r == weight(i as nat),
            weight(n as nat) <= usize::MAX,
        decreases n - i,
    {
        proof {
            lemma_weight_mono((i + 1) as nat, n as nat);
        }
        r = r * 2;
        i = i + 1;
    }
    r
}

} // verus!
