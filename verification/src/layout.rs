//! The bind group convention of compute shaders: which resources each of
//! the four groups holds and at which bindings, and how large the
//! per-pixel atomic buffer is.
use vstd::prelude::*;

verus! {

/// The bindings of group 1: the output texture at 0, the custom uniform at
/// 1 and the input texture and its sampler at 2 and 3, when present.
#[derive(Clone, Copy, Debug)]
pub struct Group1Bindings {
    pub output: u32,
    pub custom_uniform: Option<u32>,
    pub input_texture: Option<(u32, u32)>,
}

/// The bindings of group 1.
pub fn group1_bindings(has_custom_uniform: bool, has_input_texture: bool) -> (b: Group1Bindings)
    ensures
        b.output == 0,
        b.custom_uniform == if has_custom_uniform { Some(1u32) } else { None },
        b.input_texture == if has_input_texture { Some((2u32, 3u32)) } else { None },
{
    Group1Bindings {
        output: 0,
        custom_uniform: if has_custom_uniform {
            Some(1)
        } else {
            None
        },
        input_texture: if has_input_texture {
            Some((2, 3))
        } else {
            None
        },
    }
}

/// The bindings of group 2, given in a fixed order to the resources that
/// are enabled: mouse, font uniform and atlas, audio buffer, audio
/// spectrum, atomic buffer, then a texture and a sampler per channel.
#[derive(Clone, Copy, Debug)]
pub struct Group2Bindings {
    pub mouse: Option<u32>,
    pub fonts: Option<(u32, u32)>,
    pub audio: Option<u32>,
    pub audio_spectrum: Option<u32>,
    pub atomic: Option<u32>,
    /// The binding of channel 0's texture; channel `c` has its texture at
    /// `channels_start + 2c` and its sampler right after.
    pub channels_start: u32,
    pub num_channels: u32,
    /// The number of bindings.
    pub total: u32,
}

/// The bindings that group 2 assigns, in assignment order.
pub open spec fn group2_slots(b: Group2Bindings) -> Seq<u32> {
    (match b.mouse {
        Some(m) => seq![m],
        None => seq![],
    }) + (match b.fonts {
        Some((u, a)) => seq![u, a],
        None => seq![],
    }) + (match b.audio {
        Some(x) => seq![x],
        None => seq![],
    }) + (match b.audio_spectrum {
        Some(x) => seq![x],
        None => seq![],
    }) + (match b.atomic {
        Some(x) => seq![x],
        None => seq![],
    }) + Seq::new((2 * b.num_channels) as nat, |i: int| (b.channels_start + i) as u32)
}

/// The number of group 2 bindings that the enabled resources take.
pub open spec fn group2_count(
    has_mouse: bool,
    has_fonts: bool,
    has_audio: bool,
    has_audio_spectrum: bool,
    has_atomic: bool,
    num_channels: u32,
) -> int {
    (if has_mouse { 1int } else { 0 }) + (if has_fonts { 2int } else { 0 }) + (if has_audio { 1int } else { 0 })
        + (if has_audio_spectrum { 1int } else { 0 }) + (if has_atomic { 1int } else { 0 }) + 2 * num_channels
}

/// Assigns the bindings of group 2.
pub fn group2_bindings(
    has_mouse: bool,
    has_fonts: bool,
    has_audio: bool,
    has_audio_spectrum: bool,
    has_atomic: bool,
    num_channels: u32,
) -> (b: Group2Bindings)
    requires
        group2_count(has_mouse, has_fonts, has_audio, has_audio_spectrum, has_atomic, num_channels)
            <= u32::MAX,
    ensures
        b.total == group2_count(has_mouse, has_fonts, has_audio, has_audio_spectrum, has_atomic, num_channels),
        b.mouse is Some == has_mouse,
        b.fonts is Some == has_fonts,
        b.audio is Some == has_audio,
        b.audio_spectrum is Some == has_audio_spectrum,
        b.atomic is Some == has_atomic,
        b.num_channels == num_channels,
        group2_slots(b) == Seq::new(b.total as nat, |i: int| i as u32),
{
    let mut next: u32 = 0;
    let mouse = if has_mouse {
        next = next + 1;
        Some(0u32)
    } else {
        None
    };
    let fonts = if has_fonts {
        let f = (next, next + 1);
        next = next + 2;
        Some(f)
    } else {
        None
    };
    let audio = if has_audio {
        let a = next;
        next = next + 1;
        Some(a)
    } else {
        None
    };
    let audio_spectrum = if has_audio_spectrum {
        let a = next;
        next = next + 1;
        Some(a)
    } else {
        None
    };
    let atomic = if has_atomic {
        let a = next;
        next = next + 1;
        Some(a)
    } else {
        None
    };
    let channels_start = next;
    let total = next + 2 * num_channels;
    let b = Group2Bindings {
        mouse,
        fonts,
        audio,
        audio_spectrum,
        atomic,
        channels_start,
        num_channels,
        total,
    };
    assert(group2_slots(b) =~= Seq::new(b.total as nat, |i: int| i as u32));
    b
}

/// What group 3 holds: user storage buffers, the input textures of
/// multi-pass ping-pong, or nothing.
#[derive(Clone, Copy, Debug, PartialEq, Eq, Structural)]
pub enum Group3Plan {
    Empty,
    /// Storage buffer `i` at binding `i`.
    Storage { count: usize },
    /// Input texture `i` at binding `2i`, its sampler at `2i + 1`.
    PassInputs { slots: usize },
}

/// What group 3 holds: user storage buffers when there are any; else the
/// multi-pass input textures, for a multi-pass shader without an atomic
/// buffer; else nothing.
pub open spec fn group3_spec(storage_buffers: nat, has_passes: bool, has_atomic: bool, max_input_deps: usize) -> Group3Plan {
    if storage_buffers > 0 {
        Group3Plan::Storage { count: storage_buffers as usize }
    } else if has_passes && !has_atomic {
        Group3Plan::PassInputs { slots: max_input_deps }
    } else {
        Group3Plan::Empty
    }
}

/// Decides what group 3 holds.
pub fn group3_plan(storage_buffers: usize, has_passes: bool, has_atomic: bool, max_input_deps: usize) -> (g: Group3Plan)
    ensures
        g == group3_spec(storage_buffers as nat, has_passes, has_atomic, max_input_deps),
{
    if storage_buffers > 0 {
        Group3Plan::Storage { count: storage_buffers }
    } else if has_passes && !has_atomic {
        Group3Plan::PassInputs { slots: max_input_deps }
    } else {
        Group3Plan::Empty
    }
}

/// Whether a shader keeps ping-pong textures per pass: it is multi-pass,
/// asks for no storage buffers and has no atomic buffer.
pub fn uses_pingpong(storage_buffers: usize, has_passes: bool, has_atomic: bool) -> (b: bool)
    ensures
        b == (has_passes && storage_buffers == 0 && !has_atomic),
        b ==> group3_spec(storage_buffers as nat, has_passes, has_atomic, 0) is PassInputs,
{
    has_passes && storage_buffers == 0 && !has_atomic
}

/// Which of the four groups have resources (the others get empty layouts
/// so that the pipeline layout stays contiguous): groups 0 and 1 always,
/// group 2 when it has bindings, group 3 unless it is empty.
pub fn present_groups(group2_total: u32, group3: Group3Plan) -> (p: [bool; 4])
    ensures
        p[0] && p[1],
        p[2] == (group2_total > 0),
        p[3] == !(group3 is Empty),
{
    [true, true, group2_total > 0, match group3 {
        Group3Plan::Empty => false,
        _ => true,
    }]
}

/// The size in bytes of the atomic buffer: `channels` `u32` counters per
/// pixel.
pub fn atomic_buffer_size(width: u32, height: u32, channels: u32) -> (r: u64)
    requires
        width * height <= u32::MAX,
        width * height * channels <= u32::MAX,
        width * height * channels * 4 <= u32::MAX,
    ensures
        r == width * height * channels * 4,
{
    (width * height * channels * 4) as u64
}

} // verus!
