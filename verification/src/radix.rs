//! Sizing and pass planning for the GPU radix sort of key/value pairs:
//! how many blocks each pass dispatches, how large its buffers are, and
//! the constants its shader is built with.
use vstd::prelude::*;

verus! {

pub const HISTOGRAM_WG_SIZE: u32 = 256;
pub const PREFIX_WG_SIZE: u32 = 128;
pub const SCATTER_WG_SIZE: u32 = 256;
pub const RS_RADIX_LOG2: u32 = 8;
pub const RS_RADIX_SIZE: u32 = 256;
pub const RS_KEYVAL_SIZE: u32 = 4;
pub const RS_HISTOGRAM_BLOCK_ROWS: u32 = 15;
pub const RS_SCATTER_BLOCK_ROWS: u32 = 15;
/// Keys handled by one histogram block: `HISTOGRAM_WG_SIZE * RS_HISTOGRAM_BLOCK_ROWS`.
pub const HISTO_BLOCK_KVS: u32 = 3840;
/// Keys handled by one scatter block: `SCATTER_WG_SIZE * RS_SCATTER_BLOCK_ROWS`.
pub const SCATTER_BLOCK_KVS: u32 = 3840;
/// The largest key count whose padded size fits in a `u32`.
pub const MAX_SORT_KEYS: u32 = 4294967040;

/// `ceil(n / d)`.
pub open spec fn ceil_div(n: int, d: int) -> int {
    (n + d - 1) / d
}

/// `n` rounded up to a multiple of `d`.
pub open spec fn round_up(n: int, d: int) -> int {
    ceil_div(n, d) * d
}

proof fn lemma_round_up(n: int, d: int)
    requires
        n >= 0,
        d > 0,
    ensures
        round_up(n, d) % d == 0,
        n <= round_up(n, d) < n + d,
        ceil_div(n, d) >= 0,
        n > 0 ==> ceil_div(n, d) > 0,
{
    let q = (n + d - 1) / d;
    let r = (n + d - 1) % d;
    assert(n + d - 1 == q * d + r && 0 <= r < d) by (nonlinear_arith)
        requires
            d > 0,
            q == (n + d - 1) / d,
            r == (n + d - 1) % d,
    ;
    assert((q * d) % d == 0) by (nonlinear_arith)
        requires
            d > 0,
    ;
    assert(q >= 0) by (nonlinear_arith)
        requires
            d > 0,
            n >= 0,
            q == (n + d - 1) / d,
    ;
    if n > 0 {
        assert(q > 0) by (nonlinear_arith)
            requires
                d > 0,
                n > 0,
                q == (n + d - 1) / d,
        ;
    }
}

/// The ceiling of `n / d` for a positive `d`, without overflow.
pub fn div_ceil_u32(n: u32, d: u32) -> (r: u32)
    requires
        d > 0,
    ensures
        r == ceil_div(n as int, d as int),
{
    let q = n / d;
    let extra: u32 = if n % d != 0 {
        1
    } else {
        0
    };
    proof {
        let qi = n as int / d as int;
        let ri = n as int % d as int;
        assert(n as int == qi * d + ri && 0 <= ri < d) by (nonlinear_arith)
            requires
                d > 0,
                qi == n as int / d as int,
                ri == n as int % d as int,
        ;
        if ri == 0 {
            assert((n as int + d - 1) / (d as int) == qi) by (nonlinear_arith)
                requires
                    d > 0,
                    n as int == qi * d,
            ;
        } else {
            assert((n as int + d - 1) / (d as int) == qi + 1) by (nonlinear_arith)
                requires
                    d > 0,
                    n as int == qi * d + ri,
                    0 < ri < d,
            ;
            assert(qi < u32::MAX) by (nonlinear_arith)
                requires
                    d > 0,
                    n as int == qi * d + ri,
                    0 < ri,
                    n <= u32::MAX,
            ;
        }
    }
    q + extra
}

/// The number of scatter blocks for `n` keys.
pub fn scatter_blocks_ru(n: u32) -> (r: u32)
    ensures
        r == ceil_div(n as int, SCATTER_BLOCK_KVS as int),
{
    div_ceil_u32(n, SCATTER_BLOCK_KVS)
}

/// The number of histogram blocks for `n` keys: enough to cover every
/// scatter block.
pub fn histo_blocks_ru(n: u32) -> (r: u32)
    requires
        n <= MAX_SORT_KEYS,
    ensures
        r == ceil_div(round_up(n as int, SCATTER_BLOCK_KVS as int), HISTO_BLOCK_KVS as int),
        r == ceil_div(n as int, HISTO_BLOCK_KVS as int),
{
    let s = scatter_blocks_ru(n);
    proof {
        lemma_round_up(n as int, 3840);
        assert(s * 3840 <= u32::MAX);
    }
    let r = div_ceil_u32(s * SCATTER_BLOCK_KVS, HISTO_BLOCK_KVS);
    proof {
        assert(ceil_div(s * 3840, 3840) == s) by (nonlinear_arith)
            requires
                s >= 0,
        ;
    }
    r
}

/// The padded number of keys that the sort's key buffers hold for `n`
/// keys: `n` rounded up to whole histogram blocks.
pub fn keys_buffer_size(n: u32) -> (r: u32)
    requires
        n <= MAX_SORT_KEYS,
    ensures
        r == round_up(n as int, HISTO_BLOCK_KVS as int),
        r % HISTO_BLOCK_KVS == 0,
        n <= r < n + HISTO_BLOCK_KVS,
{
    let h = histo_blocks_ru(n);
    proof {
        lemma_round_up(n as int, 3840);
    }
    h * HISTO_BLOCK_KVS
}

/// The sort's progress record, as the shader reads and writes it.
#[derive(Clone, Copy, Debug, PartialEq, Eq, Structural)]
pub struct SorterState {
    pub num_keys: u32,
    pub padded_size: u32,
    pub even_pass: u32,
    pub odd_pass: u32,
    pub sort_failed: u32,
}

impl SorterState {
    /// The record a sort of `count` keys starts from.
    pub fn initial(count: u32) -> (s: Self)
        requires
            count <= MAX_SORT_KEYS,
        ensures
            s == (SorterState {
                num_keys: count,
                padded_size: round_up(count as int, HISTO_BLOCK_KVS as int) as u32,
                even_pass: 0,
                odd_pass: 0,
                sort_failed: 0,
            }),
    {
        SorterState {
            num_keys: count,
            padded_size: keys_buffer_size(count),
            even_pass: 0,
            odd_pass: 0,
            sort_failed: 0,
        }
    }
}

/// A pipeline of the sort.
#[derive(Clone, Copy, Debug, PartialEq, Eq, Structural)]
pub enum SortStage {
    Zero,
    Histogram,
    Prefix,
    ScatterEven,
    ScatterOdd,
}

/// One dispatch of the sort: a pipeline and its workgroup count.
#[derive(Clone, Copy, Debug, PartialEq, Eq, Structural)]
pub struct SortDispatch {
    pub stage: SortStage,
    pub workgroups: u32,
}

/// The scatter dispatches: `pairs` even/odd pairs.
pub open spec fn scatter_plan(pairs: nat, blocks: u32) -> Seq<SortDispatch>
    decreases pairs,
{
    if pairs == 0 {
        seq![]
    } else {
        scatter_plan((pairs - 1) as nat, blocks).push(
            SortDispatch { stage: SortStage::ScatterEven, workgroups: blocks },
        ).push(SortDispatch { stage: SortStage::ScatterOdd, workgroups: blocks })
    }
}

/// The dispatches of one sort of `count` keys with `key_val_size`-byte
/// keys: zero and build the histograms over every histogram block, one
/// prefix workgroup per key byte, then an even and an odd scatter over
/// every scatter block per two key bytes.
pub open spec fn sort_plan(key_val_size: u32, count: u32) -> Seq<SortDispatch> {
    let hist = ceil_div(count as int, HISTO_BLOCK_KVS as int) as u32;
    let scatter = ceil_div(count as int, SCATTER_BLOCK_KVS as int) as u32;
    seq![
        SortDispatch { stage: SortStage::Zero, workgroups: hist },
        SortDispatch { stage: SortStage::Histogram, workgroups: hist },
        SortDispatch { stage: SortStage::Prefix, workgroups: key_val_size },
    ] + scatter_plan((key_val_size / 2) as nat, scatter)
}

proof fn lemma_scatter_plan(pairs: nat, blocks: u32)
    ensures
        scatter_plan(pairs, blocks).len() == 2 * pairs,
        forall|i: int|
            0 <= i < 2 * pairs ==> #[trigger] scatter_plan(pairs, blocks)[i] == (SortDispatch {
                stage: if i % 2 == 0 {
                    SortStage::ScatterEven
                } else {
                    SortStage::ScatterOdd
                },
                workgroups: blocks,
            }),
    decreases pairs,
{
    if pairs > 0 {
        lemma_scatter_plan((pairs - 1) as nat, blocks);
        let q = scatter_plan((pairs - 1) as nat, blocks);
        assert forall|i: int| 0 <= i < 2 * pairs implies #[trigger] scatter_plan(pairs, blocks)[i]
            == (SortDispatch {
            stage: if i % 2 == 0 {
                SortStage::ScatterEven
            } else {
                SortStage::ScatterOdd
            },
            workgroups: blocks,
        }) by {
            if i < 2 * pairs - 2 {
                assert(scatter_plan(pairs, blocks)[i] == q[i]);
            }
        }
    }
}

proof fn lemma_fewest_blocks(n: int, d: int)
    requires
        n >= 0,
        d > 0,
    ensures
        ceil_div(n, d) * d >= n,
        ceil_div(n, d) == 0 || (ceil_div(n, d) - 1) * d < n,
{
    lemma_round_up(n, d);
    assert((ceil_div(n, d) - 1) * d == ceil_div(n, d) * d - d) by (nonlinear_arith);
}

/// A sort covers every key: it zeroes and builds the histograms over the
/// fewest histogram blocks that hold all `count` keys, runs one prefix
/// workgroup per key byte, and then, once per key byte, scatters over the
/// fewest scatter blocks that hold all keys, alternating even and odd
/// passes.
pub proof fn lemma_sort_plan_covers(key_val_size: u32, count: u32)
    requires
        count <= MAX_SORT_KEYS,
    ensures
        ({
            let p = sort_plan(key_val_size, count);
            let h = p[0].workgroups;
            &&& p.len() == 3 + 2 * (key_val_size / 2)
            &&& p[0].stage == SortStage::Zero
            &&& p[1] == (SortDispatch { stage: SortStage::Histogram, workgroups: h })
            &&& h * HISTO_BLOCK_KVS >= count
            &&& (h == 0 || (h - 1) * HISTO_BLOCK_KVS < count)
            &&& p[2] == (SortDispatch { stage: SortStage::Prefix, workgroups: key_val_size })
            &&& forall|i: int|
                3 <= i < p.len() ==> {
                    &&& (#[trigger] p[i]).stage == if (i - 3) % 2 == 0 {
                        SortStage::ScatterEven
                    } else {
                        SortStage::ScatterOdd
                    }
                    &&& p[i].workgroups * SCATTER_BLOCK_KVS >= count
                    &&& (p[i].workgroups == 0 || (p[i].workgroups - 1) * SCATTER_BLOCK_KVS < count)
                }
        }),
{
    let p = sort_plan(key_val_size, count);
    let hist = ceil_div(count as int, HISTO_BLOCK_KVS as int);
    let scatter = ceil_div(count as int, SCATTER_BLOCK_KVS as int);
    lemma_fewest_blocks(count as int, 3840);
    lemma_round_up(count as int, 3840);
    assert(hist <= u32::MAX);
    let pairs = (key_val_size / 2) as nat;
    lemma_scatter_plan(pairs, scatter as u32);
    let head = seq![
        SortDispatch { stage: SortStage::Zero, workgroups: hist as u32 },
        SortDispatch { stage: SortStage::Histogram, workgroups: hist as u32 },
        SortDispatch { stage: SortStage::Prefix, workgroups: key_val_size },
    ];
    assert(p == head + scatter_plan(pairs, scatter as u32));
    assert forall|i: int| 3 <= i < p.len() implies {
        &&& (#[trigger] p[i]).stage == if (i - 3) % 2 == 0 {
            SortStage::ScatterEven
        } else {
            SortStage::ScatterOdd
        }
        &&& p[i].workgroups * SCATTER_BLOCK_KVS >= count
        &&& (p[i].workgroups == 0 || (p[i].workgroups - 1) * SCATTER_BLOCK_KVS < count)
    } by {
        assert(p[i] == scatter_plan(pairs, scatter as u32)[i - 3]);
    }
}

/// The buffer sizes, in bytes, of a sort of `count` keys.
#[derive(Clone, Copy, Debug, PartialEq, Eq, Structural)]
pub struct SortBufferSizes {
    pub padded_keys: u32,
    pub keys_bytes: u64,
    pub payload_bytes: u64,
    pub internal_bytes: u64,
}

/// The sort's shader constants for a subgroup size.
#[derive(Clone, Copy, Debug, PartialEq, Eq, Structural)]
pub struct ShaderConstants {
    pub histogram_sg_size: u32,
    pub histogram_wg_size: u32,
    pub radix_log2: u32,
    pub radix_size: u32,
    pub keyval_size: u32,
    pub histogram_block_rows: u32,
    pub scatter_block_rows: u32,
    pub mem_dwords: u32,
    pub mem_sweep_1_offset: u32,
    pub mem_sweep_2_offset: u32,
}

/// The configuration of a radix sorter: how many bytes of each key it
/// sorts by (4 for 32-bit keys, 2 for 16-bit keys).
#[derive(Clone, Copy, Debug, PartialEq, Eq, Structural)]
pub struct RadixSorter {
    pub key_val_size: u32,
}

impl RadixSorter {
    /// A sorter of 32-bit keys (four passes).
    pub fn new() -> (s: Self)
        ensures
            s.key_val_size == 4,
    {
        RadixSorter { key_val_size: RS_KEYVAL_SIZE }
    }

    /// A sorter of 16-bit keys (two passes).
    pub fn new_16bit() -> (s: Self)
        ensures
            s.key_val_size == 2,
    {
        RadixSorter { key_val_size: 2 }
    }

    /// The number of key bytes sorted by.
    pub fn key_val_size(&self) -> (r: u32)
        ensures
            r == self.key_val_size,
    {
        self.key_val_size
    }

    /// The size of the sort's internal histogram buffer for `count` keys:
    /// one 256-entry `u32` histogram per key byte and per scatter block.
    pub fn internal_buffer_size(&self, count: u32) -> (r: u32)
        requires
            (self.key_val_size + ceil_div(count as int, SCATTER_BLOCK_KVS as int)) * 1024
                <= u32::MAX,
        ensures
            r == (self.key_val_size + ceil_div(count as int, SCATTER_BLOCK_KVS as int)) * 1024,
    {
        let blocks = scatter_blocks_ru(count);
        let histo_size = RS_RADIX_SIZE * 4;
        (self.key_val_size + blocks) * histo_size
    }

    /// The buffer sizes of a sort of `count` keys: keys padded to whole
    /// blocks with `key_val_size` words each, one `u32` payload per key,
    /// and the internal histograms.
    pub fn buffer_sizes(&self, count: u32) -> (r: SortBufferSizes)
        requires
            count <= MAX_SORT_KEYS,
            round_up(count as int, HISTO_BLOCK_KVS as int) * self.key_val_size * 4 <= u32::MAX,
            count * 4 <= u32::MAX,
            (self.key_val_size + ceil_div(count as int, SCATTER_BLOCK_KVS as int)) * 1024
                <= u32::MAX,
        ensures
            r.padded_keys == round_up(count as int, HISTO_BLOCK_KVS as int),
            r.keys_bytes == r.padded_keys * self.key_val_size * 4,
            r.payload_bytes == count * 4,
            r.internal_bytes == (self.key_val_size + ceil_div(count as int, SCATTER_BLOCK_KVS as int))
                * 1024,
    {
        let padded = keys_buffer_size(count);
        proof {
            assert(padded * self.key_val_size * 4 <= u32::MAX);
        }
        let keys = padded * self.key_val_size * 4;
        let payload = count * 4;
        let internal = self.internal_buffer_size(count);
        SortBufferSizes {
            padded_keys: padded,
            keys_bytes: keys as u64,
            payload_bytes: payload as u64,
            internal_bytes: internal as u64,
        }
    }

    /// The dispatches of one sort of `count` keys, in order.
    pub fn sort_dispatches(&self, count: u32) -> (v: Vec<SortDispatch>)
        requires
            count <= MAX_SORT_KEYS,
        ensures
            v@ == sort_plan(self.key_val_size, count),
    {
        let hist = histo_blocks_ru(count);
        let scatter = scatter_blocks_ru(count);
        let mut v: Vec<SortDispatch> = Vec::new();
        v.push(SortDispatch { stage: SortStage::Zero, workgroups: hist });
        v.push(SortDispatch { stage: SortStage::Histogram, workgroups: hist });
        v.push(SortDispatch { stage: SortStage::Prefix, workgroups: self.key_val_size });
        let ghost head = v@;
        let pairs = self.key_val_size / 2;
        let mut i: u32 = 0;
        assert(head + scatter_plan(0, scatter) =~= head);
        while i < pairs
            invariant
                i <= pairs,
                v@ == head + scatter_plan(i as nat, scatter),
            decreases pairs - i,
        {
            v.push(SortDispatch { stage: SortStage::ScatterEven, workgroups: scatter });
            v.push(SortDispatch { stage: SortStage::ScatterOdd, workgroups: scatter });
            assert(v@ =~= head + scatter_plan((i + 1) as nat, scatter));
            i = i + 1;
        }
        v
    }

    /// The shader constants of this sorter for a subgroup size (a size of
    /// 0 counts as 1).
    pub fn shader_constants(&self, subgroup_size: u32) -> (c: ShaderConstants)
        ensures
            c.histogram_sg_size == if subgroup_size < 1 { 1 } else { subgroup_size },
            c.keyval_size == self.key_val_size,
            c.mem_dwords == 4096,
            c.mem_sweep_1_offset == 256u32 / c.histogram_sg_size,
            c.mem_sweep_2_offset == 256u32 / c.histogram_sg_size + 256u32 / c.histogram_sg_size
                / c.histogram_sg_size,
            c.histogram_wg_size == HISTOGRAM_WG_SIZE,
            c.radix_log2 == RS_RADIX_LOG2,
            c.radix_size == RS_RADIX_SIZE,
            c.histogram_block_rows == RS_HISTOGRAM_BLOCK_ROWS,
            c.scatter_block_rows == RS_SCATTER_BLOCK_ROWS,
    {
        let sg = if subgroup_size < 1 {
            1
        } else {
            subgroup_size
        };
        let sweep0 = RS_RADIX_SIZE / sg;
        let sweep1 = sweep0 / sg;
        ShaderConstants {
            histogram_sg_size: sg,
            histogram_wg_size: HISTOGRAM_WG_SIZE,
            radix_log2: RS_RADIX_LOG2,
            radix_size: RS_RADIX_SIZE,
            keyval_size: self.key_val_size,
            histogram_block_rows: RS_HISTOGRAM_BLOCK_ROWS,
            scatter_block_rows: RS_SCATTER_BLOCK_ROWS,
            mem_dwords: RS_RADIX_SIZE + RS_SCATTER_BLOCK_ROWS * SCATTER_WG_SIZE,
            mem_sweep_1_offset: sweep0,
            mem_sweep_2_offset: sweep0 + sweep1,
        }
    }
}

/// The buffer bookkeeping of the depth sorter of Gaussian splats: the key
/// count its sort buffers were made for, whether they exist yet, and the
/// camera direction (as `f32` bit patterns) of the last sort.
#[derive(Clone, Copy, Debug)]
pub struct GaussianSorter {
    pub sorter: RadixSorter,
    pub current_count: u32,
    pub prepared: bool,
    pub last_camera_forward: Option<[u32; 3]>,
}

impl GaussianSorter {
    /// A sorter of 32-bit depth keys with no buffers yet.
    pub fn new() -> (s: Self)
        ensures
            s.sorter.key_val_size == 4,
            s.current_count == 0,
            !s.prepared,
            s.last_camera_forward is None,
    {
        GaussianSorter {
            sorter: RadixSorter::new(),
            current_count: 0,
            prepared: false,
            last_camera_forward: None,
        }
    }

    /// A sorter of 16-bit depth keys with no buffers yet.
    pub fn new_16bit() -> (s: Self)
        ensures
            s.sorter.key_val_size == 2,
            s.current_count == 0,
            !s.prepared,
            s.last_camera_forward is None,
    {
        GaussianSorter {
            sorter: RadixSorter::new_16bit(),
            current_count: 0,
            prepared: false,
            last_camera_forward: None,
        }
    }

    /// Prepares for `count` keys; returns whether the sort buffers must be
    /// made anew, which is when the count differs from the one they were
    /// made for.
    pub fn prepare(&mut self, count: u32) -> (rebuild: bool)
        ensures
            rebuild == (old(self).current_count != count),
            final(self).current_count == count,
            final(self).prepared == (old(self).prepared || rebuild),
            final(self).sorter == old(self).sorter,
    {
        if self.current_count != count {
            self.prepared = true;
            self.current_count = count;
            true
        } else {
            false
        }
    }

    /// The dispatches of a sort of `count` keys, or `None` while no sort
    /// buffers exist.
    pub fn sort(&self, count: u32) -> (r: Option<Vec<SortDispatch>>)
        requires
            count <= MAX_SORT_KEYS,
        ensures
            match r {
                Some(v) => self.prepared && v@ == sort_plan(self.sorter.key_val_size, count),
                None => !self.prepared,
            },
    {
        if self.prepared {
            Some(self.sorter.sort_dispatches(count))
        } else {
            None
        }
    }

    /// Whether the splats must be sorted again for a camera looking along
    /// `camera_forward` (`f32` bit patterns).  `aligned` says whether that
    /// direction is within the re-sort threshold of the last sorted one
    /// (their dot product above 0.9999, computed by the caller); it only
    /// counts when there is a last direction.  A sort is due when there is
    /// none or the camera turned further, and the new direction is then
    /// remembered.
    pub fn needs_sort(&mut self, camera_forward: [u32; 3], aligned: bool) -> (due: bool)
        ensures
            due == sort_due(old(self).last_camera_forward, aligned),
            final(self).last_camera_forward == checked_forward(
                old(self).last_camera_forward,
                camera_forward,
                aligned,
            ),
            final(self).sorter == old(self).sorter,
            final(self).current_count == old(self).current_count,
            final(self).prepared == old(self).prepared,
    {
        if self.last_camera_forward.is_some() && aligned {
            return false;
        }
        self.last_camera_forward = Some(camera_forward);
        true
    }

    /// Makes the next [`GaussianSorter::needs_sort`] call ask for a sort,
    /// wherever the camera looks (after new splats are loaded).
    pub fn force_sort(&mut self)
        ensures
            final(self).last_camera_forward is None,
            final(self).sorter == old(self).sorter,
            final(self).current_count == old(self).current_count,
            final(self).prepared == old(self).prepared,
    {
        self.last_camera_forward = None;
    }

    /// The key count the sort buffers were made for.
    pub fn count(&self) -> (r: u32)
        ensures
            r == self.current_count,
    {
        self.current_count
    }
}

/// Whether a camera check is due a sort: when no direction was sorted
/// for yet, or the camera turned past the threshold.
pub open spec fn sort_due(last: Option<[u32; 3]>, aligned: bool) -> bool {
    last is None || !aligned
}

/// The direction remembered after a camera check.
pub open spec fn checked_forward(last: Option<[u32; 3]>, forward: [u32; 3], aligned: bool) -> Option<
    [u32; 3],
> {
    if sort_due(last, aligned) {
        Some(forward)
    } else {
        last
    }
}

/// A forced sort makes the next check due whatever the camera does; after
/// any check a direction is remembered, so a check within the threshold of
/// it is not due.
pub proof fn lemma_sort_gate(last: Option<[u32; 3]>, forward: [u32; 3], aligned: bool)
    ensures
        sort_due(None, aligned),
        checked_forward(last, forward, aligned) is Some,
        !sort_due(checked_forward(last, forward, aligned), true),
{
}

} // verus!
