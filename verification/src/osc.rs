//! The OSC side of the remote protocol: the argument and packet model,
//! the commands that incoming messages denote, and the feedback messages
//! that a shader sends back.
use vstd::arithmetic::power2::{lemma2_to64, pow2};
use vstd::bits::{lemma_u64_shl_is_mul, lemma_u64_shr_is_div};
use vstd::prelude::*;

use crate::command::{command_opt_view, CommandV, RemoteCommand, Scalar, ScalarV};
use crate::text::{char_vec, chars_eq, chars_start_with, string_from_range};

verus! {

/// One OSC argument.  Floating-point arguments are held by their IEEE-754
/// bits; the argument kinds that the protocol never reads are `Other`.
pub enum OscArg {
    Int(i32),
    Float(u32),
    Str(String),
    Blob(Vec<u8>),
    Long(i64),
    Double(u64),
    Bool(bool),
    Other,
}

/// The model of an [`OscArg`].
pub enum OscArgV {
    Int(i32),
    Float(u32),
    Str(Seq<char>),
    Blob(Seq<u8>),
    Long(i64),
    Double(u64),
    Bool(bool),
    Other,
}

impl View for OscArg {
    type V = OscArgV;

    open spec fn view(&self) -> OscArgV {
        match self {
            OscArg::Int(v) => OscArgV::Int(*v),
            OscArg::Float(b) => OscArgV::Float(*b),
            OscArg::Str(s) => OscArgV::Str(s@),
            OscArg::Blob(b) => OscArgV::Blob(b@),
            OscArg::Long(v) => OscArgV::Long(*v),
            OscArg::Double(b) => OscArgV::Double(*b),
            OscArg::Bool(b) => OscArgV::Bool(*b),
            OscArg::Other => OscArgV::Other,
        }
    }
}

/// The views of a sequence of arguments.
pub open spec fn arg_views(v: Seq<OscArg>) -> Seq<OscArgV> {
    v.map_values(|a: OscArg| a@)
}

/// The sign bit of an `f32`.
pub open spec fn f32_negative(bits: u32) -> bool {
    bits >= 0x8000_0000
}

/// The biased exponent field of an `f32`.
pub open spec fn f32_exponent(bits: u32) -> u32 {
    (bits / 0x80_0000) % 256
}

/// The mantissa field of an `f32`.
pub open spec fn f32_mantissa(bits: u32) -> u32 {
    bits % 0x80_0000
}

/// `floor(|x|)` of a finite `f32` `x` whose biased exponent lies in
/// `127..158`: `(mantissa + 2^23) * 2^(exponent - 150)`, rounded down.
pub open spec fn f32_floor_magnitude(bits: u32) -> int {
    let e = f32_exponent(bits) as int;
    let full = f32_mantissa(bits) + 0x80_0000;
    if e >= 150 {
        full * pow2((e - 150) as nat)
    } else {
        full / (pow2((150 - e) as nat) as int)
    }
}

/// What `x as i32` gives for the `f32` `x` with these bits: NaN gives 0,
/// values are truncated toward zero and saturate at the ends of the range.
pub open spec fn f32_to_i32(bits: u32) -> i32 {
    let e = f32_exponent(bits);
    let neg = f32_negative(bits);
    if e == 255 && f32_mantissa(bits) != 0 {
        0
    } else if e >= 158 {
        if neg {
            i32::MIN
        } else {
            i32::MAX
        }
    } else if e < 127 {
        0
    } else if neg {
        (-f32_floor_magnitude(bits)) as i32
    } else {
        f32_floor_magnitude(bits) as i32
    }
}

/// Converts the `f32` with these bits to `i32` the way `as` does.
pub fn f32_bits_to_i32(bits: u32) -> (r: i32)
    ensures
        r == f32_to_i32(bits),
{
    let e = (bits >> 23) & 0xff;
    let m = bits & 0x7f_ffff;
    let neg = bits >> 31 == 1;
    assert(e == f32_exponent(bits) && m == f32_mantissa(bits) && neg == f32_negative(bits))
        by (bit_vector)
        requires
            e == (bits >> 23) & 0xff,
            m == bits & 0x7f_ffff,
            neg == (bits >> 31 == 1),
    ;
    if e == 255 && m != 0 {
        0
    } else if e >= 158 {
        if neg {
            i32::MIN
        } else {
            i32::MAX
        }
    } else if e < 127 {
        0
    } else {
        let full: u64 = (m as u64) + 0x80_0000;
        let mag: u64 = if e >= 150 {
            let sh: u64 = (e - 150) as u64;
            proof {
                lemma2_to64();
                assert(pow2(sh as nat) <= 128) by {
                    assert(sh <= 7);
                }
                assert(full * pow2(sh as nat) <= 0x8000_0000) by (nonlinear_arith)
                    requires
                        full < 0x100_0000,
                        pow2(sh as nat) <= 128,
                ;
                lemma_u64_shl_is_mul(full, sh);
            }
            full << sh
        } else {
            let sh: u64 = (150 - e) as u64;
            proof {
                lemma_u64_shr_is_div(full, sh);
                lemma2_to64();
                assert(full as nat / pow2(sh as nat) <= full) by (nonlinear_arith)
                    requires
                        pow2(sh as nat) >= 1,
                ;
            }
            full >> sh
        };
        assert(mag == f32_floor_magnitude(bits));
        assert(mag < 0x8000_0000) by {
            if e >= 150 {
                lemma2_to64();
                assert(pow2((e - 150) as nat) <= 128);
                assert(mag <= 0xffffff * 128) by (nonlinear_arith)
                    requires
                        mag == full * pow2((e - 150) as nat),
                        full <= 0xffffff,
                        pow2((e - 150) as nat) <= 128,
                ;
            }
        }
        if neg {
            (0 - (mag as i64)) as i32
        } else {
            mag as i32
        }
    }
}

/// An OSC message: an address and its arguments.
pub struct Message {
    pub addr: String,
    pub args: Vec<OscArg>,
}

/// The model of an [`Message`].
pub struct MessageV {
    pub addr: Seq<char>,
    pub args: Seq<OscArgV>,
}

impl View for Message {
    type V = MessageV;

    open spec fn view(&self) -> MessageV {
        MessageV { addr: self.addr@, args: arg_views(self.args@) }
    }
}

/// An OSC packet: one message, or a bundle of packets.
pub enum Packet {
    Message(Message),
    Bundle(Vec<Packet>),
}

/// The command of a packet: that of its message, or the first command
/// among the packets of its bundle, in order.
pub open spec fn packet_command(p: Packet) -> Option<CommandV>
    decreases p,
{
    match p {
        Packet::Message(m) => message_command(m.addr@, arg_views(m.args@)),
        Packet::Bundle(ps) => bundle_command(ps@),
    }
}

/// The first command among the packets `ps`, in order.
pub open spec fn bundle_command(ps: Seq<Packet>) -> Option<CommandV>
    decreases ps,
{
    if ps.len() == 0 {
        None
    } else {
        match packet_command(ps[0]) {
            Some(c) => Some(c),
            None => bundle_command(ps.drop_first()),
        }
    }
}

/// The `i`-th argument, when there is one.
pub open spec fn arg_at(args: Seq<OscArgV>, i: int) -> Option<OscArgV> {
    if 0 <= i < args.len() {
        Some(args[i])
    } else {
        None
    }
}

/// A string argument.
pub open spec fn osc_string_spec(a: Option<OscArgV>) -> Option<Seq<char>> {
    match a {
        Some(OscArgV::Str(s)) => Some(s),
        _ => None,
    }
}

/// A numeric argument, as a scalar.
pub open spec fn osc_scalar_spec(a: Option<OscArgV>) -> Option<ScalarV> {
    match a {
        Some(OscArgV::Float(b)) => Some(ScalarV::F32Bits(b)),
        Some(OscArgV::Double(b)) => Some(ScalarV::F64Bits(b)),
        Some(OscArgV::Int(v)) => Some(ScalarV::I32(v)),
        Some(OscArgV::Long(v)) => Some(ScalarV::I64(v)),
        _ => None,
    }
}

/// An integer argument: an `int`, or a `float` converted as `as i32` does.
pub open spec fn osc_i32_spec(a: Option<OscArgV>) -> Option<i32> {
    match a {
        Some(OscArgV::Int(v)) => Some(v),
        Some(OscArgV::Float(b)) => Some(f32_to_i32(b)),
        _ => None,
    }
}

/// A non-negative integer argument.
pub open spec fn osc_u32_spec(a: Option<OscArgV>) -> Option<u32> {
    match osc_i32_spec(a) {
        Some(v) => if v >= 0 {
            Some(v as u32)
        } else {
            None
        },
        None => None,
    }
}

/// A boolean argument: a `bool`, or an `int` or `float` other than zero
/// (either sign of zero; a NaN counts as true).
pub open spec fn osc_bool_spec(a: Option<OscArgV>) -> Option<bool> {
    match a {
        Some(OscArgV::Bool(b)) => Some(b),
        Some(OscArgV::Int(v)) => Some(v != 0),
        Some(OscArgV::Float(b)) => Some(b % 0x8000_0000 != 0),
        _ => None,
    }
}

/// `s` without its trailing slashes.
pub open spec fn trim_slashes(s: Seq<char>) -> Seq<char>
    decreases s.len(),
{
    if s.len() > 0 && s.last() == '/' {
        trim_slashes(s.drop_last())
    } else {
        s
    }
}

/// `s` with `prefix` removed, when it starts with it.
pub open spec fn strip_prefix(s: Seq<char>, prefix: Seq<char>) -> Option<Seq<char>> {
    if s.len() >= prefix.len() && s.take(prefix.len() as int) == prefix {
        Some(s.skip(prefix.len() as int))
    } else {
        None
    }
}

/// The parameter named by a parameter address.
pub open spec fn param_id(a: Seq<char>) -> Option<Seq<char>> {
    if strip_prefix(a, "/acuneus/cuneus/param/"@) is Some {
        strip_prefix(a, "/acuneus/cuneus/param/"@)
    } else if strip_prefix(a, "/acuneus/cuneus/color/"@) is Some {
        strip_prefix(a, "/acuneus/cuneus/color/"@)
    } else if strip_prefix(a, "/acuneus/cuneus/bool/"@) is Some {
        strip_prefix(a, "/acuneus/cuneus/bool/"@)
    } else {
        strip_prefix(a, "/acuneus/cuneus/checkbox/"@)
    }
}

/// The command that a message to a parameter address denotes.
pub open spec fn param_command(a: Seq<char>, args: Seq<OscArgV>) -> Option<CommandV> {
    match param_id(a) {
        None => None,
        Some(id) => {
            let first = arg_at(args, 0);
            if first matches Some(OscArgV::Str(_)) {
                Some(CommandV::SetString { id, value: osc_string_spec(first)->0 })
            } else if first matches Some(OscArgV::Bool(_)) || strip_prefix(
                a,
                "/acuneus/cuneus/bool/"@,
            ) is Some || strip_prefix(a, "/acuneus/cuneus/checkbox/"@) is Some {
                Some(
                    CommandV::SetBool {
                        id,
                        value: match osc_bool_spec(first) {
                            Some(b) => b,
                            None => true,
                        },
                    },
                )
            } else if args.len() >= 3 {
                match (osc_scalar_spec(first), osc_scalar_spec(arg_at(args, 1)), osc_scalar_spec(
                    arg_at(args, 2),
                )) {
                    (Some(r), Some(g), Some(b)) => Some(CommandV::SetColor3 { id, r, g, b }),
                    _ => None,
                }
            } else {
                match osc_scalar_spec(first) {
                    Some(v) => Some(CommandV::SetF32 { id, value: v }),
                    None => None,
                }
            }
        },
    }
}

/// The numeric arguments, in order.
pub open spec fn numeric_args(args: Seq<OscArgV>) -> Seq<ScalarV>
    decreases args.len(),
{
    if args.len() == 0 {
        seq![]
    } else {
        let rest = numeric_args(args.drop_last());
        match osc_scalar_spec(Some(args.last())) {
            Some(v) => rest.push(v),
            None => rest,
        }
    }
}

/// The command that an OSC message denotes, if any.
pub open spec fn message_command(addr: Seq<char>, args: Seq<OscArgV>) -> Option<CommandV> {
    let a = trim_slashes(addr);
    let first = arg_at(args, 0);
    let second = arg_at(args, 1);
    let third = arg_at(args, 2);
    if a == "/acuneus/cuneus/discover"@ {
        Some(CommandV::Discover)
    } else if a == "/acuneus/cuneus/subscribe"@ {
        Some(
            CommandV::Subscribe {
                enabled: match osc_bool_spec(first) {
                    Some(b) => b,
                    None => true,
                },
            },
        )
    } else if a == "/acuneus/cuneus/pulse"@ {
        match osc_scalar_spec(first) {
            Some(v) => Some(CommandV::Pulse { velocity: v }),
            None => None,
        }
    } else if a == "/acuneus/cuneus/note"@ {
        match (osc_scalar_spec(first), osc_scalar_spec(second)) {
            (Some(p), Some(v)) => Some(CommandV::Note { pitch: p, velocity: v }),
            _ => None,
        }
    } else if a == "/acuneus/cuneus/transport"@ {
        match (osc_scalar_spec(first), osc_scalar_spec(second), osc_scalar_spec(third)) {
            (Some(bpm), Some(beat), Some(measure)) => Some(
                CommandV::Transport { bpm, beat, measure },
            ),
            _ => None,
        }
    } else if a == "/acuneus/cuneus/overlay"@ {
        Some(
            CommandV::OverlayVisible {
                visible: match osc_bool_spec(first) {
                    Some(b) => b,
                    None => true,
                },
            },
        )
    } else if a == "/acuneus/cuneus/overlay/toggle"@ {
        Some(CommandV::ToggleOverlay)
    } else if a == "/acuneus/cuneus/window/titlebar"@ {
        Some(
            CommandV::TitleBarVisible {
                visible: match osc_bool_spec(first) {
                    Some(b) => b,
                    None => true,
                },
            },
        )
    } else if a == "/acuneus/cuneus/window/titlebar/hide"@ {
        Some(CommandV::HideTitleBar)
    } else if a == "/acuneus/cuneus/window/title"@ {
        match osc_string_spec(first) {
            Some(t) => Some(CommandV::WindowTitle { title: t }),
            None => None,
        }
    } else if a == "/acuneus/cuneus/window/position"@ {
        match (osc_i32_spec(first), osc_i32_spec(second)) {
            (Some(x), Some(y)) => Some(CommandV::WindowPosition { x, y }),
            _ => None,
        }
    } else if a == "/acuneus/cuneus/window/scale"@ {
        match osc_scalar_spec(first) {
            Some(v) => Some(CommandV::WindowScale { scale: v }),
            None => None,
        }
    } else if a == "/acuneus/cuneus/window/size"@ {
        match (osc_u32_spec(first), osc_u32_spec(second)) {
            (Some(w), Some(h)) => Some(CommandV::WindowSize { width: w, height: h }),
            _ => None,
        }
    } else if a == "/acuneus/cuneus/time"@ {
        match osc_scalar_spec(first) {
            Some(v) => Some(CommandV::Time { seconds: v }),
            None => None,
        }
    } else if a == "/acuneus/cuneus/fps"@ {
        match osc_scalar_spec(first) {
            Some(v) => Some(CommandV::Fps { fps: v }),
            None => None,
        }
    } else if a == "/acuneus/cuneus/resolution"@ {
        match (osc_u32_spec(first), osc_u32_spec(second)) {
            (Some(w), Some(h)) => Some(CommandV::Resolution { width: w, height: h }),
            _ => None,
        }
    } else if a == "/acuneus/cuneus/audio_spectrum"@ && numeric_args(args).len() > 0 {
        Some(CommandV::AudioSpectrum { values: numeric_args(args) })
    } else if a == "/acuneus/cuneus/action"@ {
        match osc_string_spec(first) {
            Some(id) => Some(CommandV::Action { id, value: osc_scalar_spec(second) }),
            None => None,
        }
    } else if a == "/acuneus/cuneus/media/load"@ {
        match osc_string_spec(first) {
            Some(p) => Some(CommandV::LoadMedia { path: p }),
            None => None,
        }
    } else {
        param_command(a, args)
    }
}

/// The address namespace that every command lives under.
pub open spec fn namespace() -> Seq<char> {
    "/acuneus/cuneus/"@
}

proof fn lemma_outside_namespace(l: Seq<char>, a: Seq<char>)
    requires
        l.len() >= namespace().len(),
        l.take(namespace().len() as int) == namespace(),
        strip_prefix(a, namespace()) is None,
    ensures
        a != l,
        strip_prefix(a, l) is None,
{
    if a.len() >= l.len() && a.take(l.len() as int) == l {
        assert(a.take(namespace().len() as int) =~= l.take(namespace().len() as int));
    }
}

/// The OSC namespace is strict: a message whose address, trailing slashes
/// aside, does not start with `/acuneus/cuneus/` denotes no command (there
/// is no `/cuneus/` fallback).
pub proof fn lemma_strict_namespace(addr: Seq<char>, args: Seq<OscArgV>)
    requires
        strip_prefix(trim_slashes(addr), namespace()) is None,
    ensures
        message_command(addr, args) is None,
{
    let a = trim_slashes(addr);
    reveal_strlit("/acuneus/cuneus/");
    reveal_strlit("/acuneus/cuneus/discover");
    assert("/acuneus/cuneus/discover"@.take(16) =~= namespace());
    lemma_outside_namespace("/acuneus/cuneus/discover"@, a);
    reveal_strlit("/acuneus/cuneus/subscribe");
    assert("/acuneus/cuneus/subscribe"@.take(16) =~= namespace());
    lemma_outside_namespace("/acuneus/cuneus/subscribe"@, a);
    reveal_strlit("/acuneus/cuneus/pulse");
    assert("/acuneus/cuneus/pulse"@.take(16) =~= namespace());
    lemma_outside_namespace("/acuneus/cuneus/pulse"@, a);
    reveal_strlit("/acuneus/cuneus/note");
    assert("/acuneus/cuneus/note"@.take(16) =~= namespace());
    lemma_outside_namespace("/acuneus/cuneus/note"@, a);
    reveal_strlit("/acuneus/cuneus/transport");
    assert("/acuneus/cuneus/transport"@.take(16) =~= namespace());
    lemma_outside_namespace("/acuneus/cuneus/transport"@, a);
    reveal_strlit("/acuneus/cuneus/overlay");
    assert("/acuneus/cuneus/overlay"@.take(16) =~= namespace());
    lemma_outside_namespace("/acuneus/cuneus/overlay"@, a);
    reveal_strlit("/acuneus/cuneus/overlay/toggle");
    assert("/acuneus/cuneus/overlay/toggle"@.take(16) =~= namespace());
    lemma_outside_namespace("/acuneus/cuneus/overlay/toggle"@, a);
    reveal_strlit("/acuneus/cuneus/window/titlebar");
    assert("/acuneus/cuneus/window/titlebar"@.take(16) =~= namespace());
    lemma_outside_namespace("/acuneus/cuneus/window/titlebar"@, a);
    reveal_strlit("/acuneus/cuneus/window/titlebar/hide");
    assert("/acuneus/cuneus/window/titlebar/hide"@.take(16) =~= namespace());
    lemma_outside_namespace("/acuneus/cuneus/window/titlebar/hide"@, a);
    reveal_strlit("/acuneus/cuneus/window/title");
    assert("/acuneus/cuneus/window/title"@.take(16) =~= namespace());
    lemma_outside_namespace("/acuneus/cuneus/window/title"@, a);
    reveal_strlit("/acuneus/cuneus/window/position");
    assert("/acuneus/cuneus/window/position"@.take(16) =~= namespace());
    lemma_outside_namespace("/acuneus/cuneus/window/position"@, a);
    reveal_strlit("/acuneus/cuneus/window/scale");
    assert("/acuneus/cuneus/window/scale"@.take(16) =~= namespace());
    lemma_outside_namespace("/acuneus/cuneus/window/scale"@, a);
    reveal_strlit("/acuneus/cuneus/window/size");
    assert("/acuneus/cuneus/window/size"@.take(16) =~= namespace());
    lemma_outside_namespace("/acuneus/cuneus/window/size"@, a);
    reveal_strlit("/acuneus/cuneus/time");
    assert("/acuneus/cuneus/time"@.take(16) =~= namespace());
    lemma_outside_namespace("/acuneus/cuneus/time"@, a);
    reveal_strlit("/acuneus/cuneus/fps");
    assert("/acuneus/cuneus/fps"@.take(16) =~= namespace());
    lemma_outside_namespace("/acuneus/cuneus/fps"@, a);
    reveal_strlit("/acuneus/cuneus/resolution");
    assert("/acuneus/cuneus/resolution"@.take(16) =~= namespace());
    lemma_outside_namespace("/acuneus/cuneus/resolution"@, a);
    reveal_strlit("/acuneus/cuneus/audio_spectrum");
    assert("/acuneus/cuneus/audio_spectrum"@.take(16) =~= namespace());
    lemma_outside_namespace("/acuneus/cuneus/audio_spectrum"@, a);
    reveal_strlit("/acuneus/cuneus/action");
    assert("/acuneus/cuneus/action"@.take(16) =~= namespace());
    lemma_outside_namespace("/acuneus/cuneus/action"@, a);
    reveal_strlit("/acuneus/cuneus/media/load");
    assert("/acuneus/cuneus/media/load"@.take(16) =~= namespace());
    lemma_outside_namespace("/acuneus/cuneus/media/load"@, a);
    reveal_strlit("/acuneus/cuneus/param/");
    assert("/acuneus/cuneus/param/"@.take(16) =~= namespace());
    lemma_outside_namespace("/acuneus/cuneus/param/"@, a);
    reveal_strlit("/acuneus/cuneus/color/");
    assert("/acuneus/cuneus/color/"@.take(16) =~= namespace());
    lemma_outside_namespace("/acuneus/cuneus/color/"@, a);
    reveal_strlit("/acuneus/cuneus/bool/");
    assert("/acuneus/cuneus/bool/"@.take(16) =~= namespace());
    lemma_outside_namespace("/acuneus/cuneus/bool/"@, a);
    reveal_strlit("/acuneus/cuneus/checkbox/");
    assert("/acuneus/cuneus/checkbox/"@.take(16) =~= namespace());
    lemma_outside_namespace("/acuneus/cuneus/checkbox/"@, a);
}

/// The OSC argument that carries a numeric scalar (text has none).
pub open spec fn scalar_arg(s: ScalarV) -> OscArgV {
    match s {
        ScalarV::F32Bits(b) => OscArgV::Float(b),
        ScalarV::F64Bits(b) => OscArgV::Double(b),
        ScalarV::I32(v) => OscArgV::Int(v),
        ScalarV::I64(v) => OscArgV::Long(v),
        ScalarV::Text(_) => OscArgV::Other,
    }
}

/// A pulse message's argument is its velocity.
pub proof fn lemma_osc_pulse(velocity: ScalarV)
    requires
        !(velocity is Text),
    ensures
        message_command("/acuneus/cuneus/pulse"@, seq![scalar_arg(velocity)]) == Some(CommandV::Pulse { velocity: velocity }),
{
    reveal_strlit("/acuneus/cuneus/pulse");
    assert("/acuneus/cuneus/pulse"@.len() == 21);
    assert("/acuneus/cuneus/pulse"@[20] == 'e');
    reveal_strlit("/acuneus/cuneus/discover");
    assert("/acuneus/cuneus/discover"@.len() == 24);
    reveal_strlit("/acuneus/cuneus/subscribe");
    assert("/acuneus/cuneus/subscribe"@.len() == 25);
}

/// A note message's arguments are its pitch, then its velocity.
pub proof fn lemma_osc_note(pitch: ScalarV, velocity: ScalarV)
    requires
        !(pitch is Text),
        !(velocity is Text),
    ensures
        message_command("/acuneus/cuneus/note"@, seq![scalar_arg(pitch), scalar_arg(velocity)]) == Some(CommandV::Note { pitch: pitch, velocity: velocity }),
{
    reveal_strlit("/acuneus/cuneus/note");
    assert("/acuneus/cuneus/note"@.len() == 20);
    assert("/acuneus/cuneus/note"@[19] == 'e');
    reveal_strlit("/acuneus/cuneus/discover");
    assert("/acuneus/cuneus/discover"@.len() == 24);
    reveal_strlit("/acuneus/cuneus/subscribe");
    assert("/acuneus/cuneus/subscribe"@.len() == 25);
    reveal_strlit("/acuneus/cuneus/pulse");
    assert("/acuneus/cuneus/pulse"@.len() == 21);
}

/// A transport message's arguments are its tempo, beat and measure, in that order.
pub proof fn lemma_osc_transport(bpm: ScalarV, beat: ScalarV, measure: ScalarV)
    requires
        !(bpm is Text),
        !(beat is Text),
        !(measure is Text),
    ensures
        message_command("/acuneus/cuneus/transport"@, seq![scalar_arg(bpm), scalar_arg(beat), scalar_arg(measure)]) == Some(CommandV::Transport { bpm: bpm, beat: beat, measure: measure }),
{
    reveal_strlit("/acuneus/cuneus/transport");
    assert("/acuneus/cuneus/transport"@.len() == 25);
    assert("/acuneus/cuneus/transport"@[24] == 't');
    reveal_strlit("/acuneus/cuneus/discover");
    assert("/acuneus/cuneus/discover"@.len() == 24);
    reveal_strlit("/acuneus/cuneus/subscribe");
    assert("/acuneus/cuneus/subscribe"@[16] == 's' && "/acuneus/cuneus/transport"@[16] == 't');
    reveal_strlit("/acuneus/cuneus/pulse");
    assert("/acuneus/cuneus/pulse"@.len() == 21);
    reveal_strlit("/acuneus/cuneus/note");
    assert("/acuneus/cuneus/note"@.len() == 20);
}

/// A window position message's `int`s are its x, then its y.
pub proof fn lemma_osc_window_position(x: i32, y: i32)
    ensures
        message_command("/acuneus/cuneus/window/position"@, seq![OscArgV::Int(x), OscArgV::Int(y)]) == Some(CommandV::WindowPosition { x: x, y: y }),
{
    reveal_strlit("/acuneus/cuneus/window/position");
    assert("/acuneus/cuneus/window/position"@.len() == 31);
    assert("/acuneus/cuneus/window/position"@[30] == 'n');
    reveal_strlit("/acuneus/cuneus/discover");
    assert("/acuneus/cuneus/discover"@.len() == 24);
    reveal_strlit("/acuneus/cuneus/subscribe");
    assert("/acuneus/cuneus/subscribe"@.len() == 25);
    reveal_strlit("/acuneus/cuneus/pulse");
    assert("/acuneus/cuneus/pulse"@.len() == 21);
    reveal_strlit("/acuneus/cuneus/note");
    assert("/acuneus/cuneus/note"@.len() == 20);
    reveal_strlit("/acuneus/cuneus/transport");
    assert("/acuneus/cuneus/transport"@.len() == 25);
    reveal_strlit("/acuneus/cuneus/overlay");
    assert("/acuneus/cuneus/overlay"@.len() == 23);
    reveal_strlit("/acuneus/cuneus/overlay/toggle");
    assert("/acuneus/cuneus/overlay/toggle"@.len() == 30);
    reveal_strlit("/acuneus/cuneus/window/titlebar");
    assert("/acuneus/cuneus/window/titlebar"@[23] == 't' && "/acuneus/cuneus/window/position"@[23] == 'p');
    reveal_strlit("/acuneus/cuneus/window/titlebar/hide");
    assert("/acuneus/cuneus/window/titlebar/hide"@.len() == 36);
    reveal_strlit("/acuneus/cuneus/window/title");
    assert("/acuneus/cuneus/window/title"@.len() == 28);
}

/// A window scale message's argument is the scale.
pub proof fn lemma_osc_window_scale(scale: ScalarV)
    requires
        !(scale is Text),
    ensures
        message_command("/acuneus/cuneus/window/scale"@, seq![scalar_arg(scale)]) == Some(CommandV::WindowScale { scale: scale }),
{
    reveal_strlit("/acuneus/cuneus/window/scale");
    assert("/acuneus/cuneus/window/scale"@.len() == 28);
    assert("/acuneus/cuneus/window/scale"@[27] == 'e');
    reveal_strlit("/acuneus/cuneus/discover");
    assert("/acuneus/cuneus/discover"@.len() == 24);
    reveal_strlit("/acuneus/cuneus/subscribe");
    assert("/acuneus/cuneus/subscribe"@.len() == 25);
    reveal_strlit("/acuneus/cuneus/pulse");
    assert("/acuneus/cuneus/pulse"@.len() == 21);
    reveal_strlit("/acuneus/cuneus/note");
    assert("/acuneus/cuneus/note"@.len() == 20);
    reveal_strlit("/acuneus/cuneus/transport");
    assert("/acuneus/cuneus/transport"@.len() == 25);
    reveal_strlit("/acuneus/cuneus/overlay");
    assert("/acuneus/cuneus/overlay"@.len() == 23);
    reveal_strlit("/acuneus/cuneus/overlay/toggle");
    assert("/acuneus/cuneus/overlay/toggle"@.len() == 30);
    reveal_strlit("/acuneus/cuneus/window/titlebar");
    assert("/acuneus/cuneus/window/titlebar"@.len() == 31);
    reveal_strlit("/acuneus/cuneus/window/titlebar/hide");
    assert("/acuneus/cuneus/window/titlebar/hide"@.len() == 36);
    reveal_strlit("/acuneus/cuneus/window/title");
    assert("/acuneus/cuneus/window/title"@[23] == 't' && "/acuneus/cuneus/window/scale"@[23] == 's');
    reveal_strlit("/acuneus/cuneus/window/position");
    assert("/acuneus/cuneus/window/position"@.len() == 31);
}

/// A window size message's `int`s are its width, then its height.
pub proof fn lemma_osc_window_size(width: u32, height: u32)
    requires
        width <= i32::MAX,
        height <= i32::MAX,
    ensures
        message_command("/acuneus/cuneus/window/size"@, seq![OscArgV::Int(width as i32), OscArgV::Int(height as i32)]) == Some(CommandV::WindowSize { width: width, height: height }),
{
    reveal_strlit("/acuneus/cuneus/window/size");
    assert("/acuneus/cuneus/window/size"@.len() == 27);
    assert("/acuneus/cuneus/window/size"@[26] == 'e');
    reveal_strlit("/acuneus/cuneus/discover");
    assert("/acuneus/cuneus/discover"@.len() == 24);
    reveal_strlit("/acuneus/cuneus/subscribe");
    assert("/acuneus/cuneus/subscribe"@.len() == 25);
    reveal_strlit("/acuneus/cuneus/pulse");
    assert("/acuneus/cuneus/pulse"@.len() == 21);
    reveal_strlit("/acuneus/cuneus/note");
    assert("/acuneus/cuneus/note"@.len() == 20);
    reveal_strlit("/acuneus/cuneus/transport");
    assert("/acuneus/cuneus/transport"@.len() == 25);
    reveal_strlit("/acuneus/cuneus/overlay");
    assert("/acuneus/cuneus/overlay"@.len() == 23);
    reveal_strlit("/acuneus/cuneus/overlay/toggle");
    assert("/acuneus/cuneus/overlay/toggle"@.len() == 30);
    reveal_strlit("/acuneus/cuneus/window/titlebar");
    assert("/acuneus/cuneus/window/titlebar"@.len() == 31);
    reveal_strlit("/acuneus/cuneus/window/titlebar/hide");
    assert("/acuneus/cuneus/window/titlebar/hide"@.len() == 36);
    reveal_strlit("/acuneus/cuneus/window/title");
    assert("/acuneus/cuneus/window/title"@.len() == 28);
    reveal_strlit("/acuneus/cuneus/window/position");
    assert("/acuneus/cuneus/window/position"@.len() == 31);
    reveal_strlit("/acuneus/cuneus/window/scale");
    assert("/acuneus/cuneus/window/scale"@.len() == 28);
}

/// A time message's argument is the time in seconds.
pub proof fn lemma_osc_time(seconds: ScalarV)
    requires
        !(seconds is Text),
    ensures
        message_command("/acuneus/cuneus/time"@, seq![scalar_arg(seconds)]) == Some(CommandV::Time { seconds: seconds }),
{
    reveal_strlit("/acuneus/cuneus/time");
    assert("/acuneus/cuneus/time"@.len() == 20);
    assert("/acuneus/cuneus/time"@[19] == 'e');
    reveal_strlit("/acuneus/cuneus/discover");
    assert("/acuneus/cuneus/discover"@.len() == 24);
    reveal_strlit("/acuneus/cuneus/subscribe");
    assert("/acuneus/cuneus/subscribe"@.len() == 25);
    reveal_strlit("/acuneus/cuneus/pulse");
    assert("/acuneus/cuneus/pulse"@.len() == 21);
    reveal_strlit("/acuneus/cuneus/note");
    assert("/acuneus/cuneus/note"@[16] == 'n' && "/acuneus/cuneus/time"@[16] == 't');
    reveal_strlit("/acuneus/cuneus/transport");
    assert("/acuneus/cuneus/transport"@.len() == 25);
    reveal_strlit("/acuneus/cuneus/overlay");
    assert("/acuneus/cuneus/overlay"@.len() == 23);
    reveal_strlit("/acuneus/cuneus/overlay/toggle");
    assert("/acuneus/cuneus/overlay/toggle"@.len() == 30);
    reveal_strlit("/acuneus/cuneus/window/titlebar");
    assert("/acuneus/cuneus/window/titlebar"@.len() == 31);
    reveal_strlit("/acuneus/cuneus/window/titlebar/hide");
    assert("/acuneus/cuneus/window/titlebar/hide"@.len() == 36);
    reveal_strlit("/acuneus/cuneus/window/title");
    assert("/acuneus/cuneus/window/title"@.len() == 28);
    reveal_strlit("/acuneus/cuneus/window/position");
    assert("/acuneus/cuneus/window/position"@.len() == 31);
    reveal_strlit("/acuneus/cuneus/window/scale");
    assert("/acuneus/cuneus/window/scale"@.len() == 28);
    reveal_strlit("/acuneus/cuneus/window/size");
    assert("/acuneus/cuneus/window/size"@.len() == 27);
}

/// A frame rate message's argument is the frame rate.
pub proof fn lemma_osc_fps(fps: ScalarV)
    requires
        !(fps is Text),
    ensures
        message_command("/acuneus/cuneus/fps"@, seq![scalar_arg(fps)]) == Some(CommandV::Fps { fps: fps }),
{
    reveal_strlit("/acuneus/cuneus/fps");
    assert("/acuneus/cuneus/fps"@.len() == 19);
    assert("/acuneus/cuneus/fps"@[18] == 's');
    reveal_strlit("/acuneus/cuneus/discover");
    assert("/acuneus/cuneus/discover"@.len() == 24);
    reveal_strlit("/acuneus/cuneus/subscribe");
    assert("/acuneus/cuneus/subscribe"@.len() == 25);
    reveal_strlit("/acuneus/cuneus/pulse");
    assert("/acuneus/cuneus/pulse"@.len() == 21);
    reveal_strlit("/acuneus/cuneus/note");
    assert("/acuneus/cuneus/note"@.len() == 20);
    reveal_strlit("/acuneus/cuneus/transport");
    assert("/acuneus/cuneus/transport"@.len() == 25);
    reveal_strlit("/acuneus/cuneus/overlay");
    assert("/acuneus/cuneus/overlay"@.len() == 23);
    reveal_strlit("/acuneus/cuneus/overlay/toggle");
    assert("/acuneus/cuneus/overlay/toggle"@.len() == 30);
    reveal_strlit("/acuneus/cuneus/window/titlebar");
    assert("/acuneus/cuneus/window/titlebar"@.len() == 31);
    reveal_strlit("/acuneus/cuneus/window/titlebar/hide");
    assert("/acuneus/cuneus/window/titlebar/hide"@.len() == 36);
    reveal_strlit("/acuneus/cuneus/window/title");
    assert("/acuneus/cuneus/window/title"@.len() == 28);
    reveal_strlit("/acuneus/cuneus/window/position");
    assert("/acuneus/cuneus/window/position"@.len() == 31);
    reveal_strlit("/acuneus/cuneus/window/scale");
    assert("/acuneus/cuneus/window/scale"@.len() == 28);
    reveal_strlit("/acuneus/cuneus/window/size");
    assert("/acuneus/cuneus/window/size"@.len() == 27);
    reveal_strlit("/acuneus/cuneus/time");
    assert("/acuneus/cuneus/time"@.len() == 20);
}

/// A resolution message's `int`s are its width, then its height.
pub proof fn lemma_osc_resolution(width: u32, height: u32)
    requires
        width <= i32::MAX,
        height <= i32::MAX,
    ensures
        message_command("/acuneus/cuneus/resolution"@, seq![OscArgV::Int(width as i32), OscArgV::Int(height as i32)]) == Some(CommandV::Resolution { width: width, height: height }),
{
    reveal_strlit("/acuneus/cuneus/resolution");
    assert("/acuneus/cuneus/resolution"@.len() == 26);
    assert("/acuneus/cuneus/resolution"@[25] == 'n');
    reveal_strlit("/acuneus/cuneus/discover");
    assert("/acuneus/cuneus/discover"@.len() == 24);
    reveal_strlit("/acuneus/cuneus/subscribe");
    assert("/acuneus/cuneus/subscribe"@.len() == 25);
    reveal_strlit("/acuneus/cuneus/pulse");
    assert("/acuneus/cuneus/pulse"@.len() == 21);
    reveal_strlit("/acuneus/cuneus/note");
    assert("/acuneus/cuneus/note"@.len() == 20);
    reveal_strlit("/acuneus/cuneus/transport");
    assert("/acuneus/cuneus/transport"@.len() == 25);
    reveal_strlit("/acuneus/cuneus/overlay");
    assert("/acuneus/cuneus/overlay"@.len() == 23);
    reveal_strlit("/acuneus/cuneus/overlay/toggle");
    assert("/acuneus/cuneus/overlay/toggle"@.len() == 30);
    reveal_strlit("/acuneus/cuneus/window/titlebar");
    assert("/acuneus/cuneus/window/titlebar"@.len() == 31);
    reveal_strlit("/acuneus/cuneus/window/titlebar/hide");
    assert("/acuneus/cuneus/window/titlebar/hide"@.len() == 36);
    reveal_strlit("/acuneus/cuneus/window/title");
    assert("/acuneus/cuneus/window/title"@.len() == 28);
    reveal_strlit("/acuneus/cuneus/window/position");
    assert("/acuneus/cuneus/window/position"@.len() == 31);
    reveal_strlit("/acuneus/cuneus/window/scale");
    assert("/acuneus/cuneus/window/scale"@.len() == 28);
    reveal_strlit("/acuneus/cuneus/window/size");
    assert("/acuneus/cuneus/window/size"@.len() == 27);
    reveal_strlit("/acuneus/cuneus/time");
    assert("/acuneus/cuneus/time"@.len() == 20);
    reveal_strlit("/acuneus/cuneus/fps");
    assert("/acuneus/cuneus/fps"@.len() == 19);
}

proof fn lemma_param_address(id: Seq<char>)
    requires
        id.len() > 0,
        id.last() != '/',
    ensures
        ({
            let a = "/acuneus/cuneus/param/"@ + id;
            &&& trim_slashes(a) == a
            &&& param_id(a) == Some(id)
            &&& strip_prefix(a, "/acuneus/cuneus/bool/"@) is None
            &&& strip_prefix(a, "/acuneus/cuneus/checkbox/"@) is None
            &&& a != "/acuneus/cuneus/discover"@
            &&& a != "/acuneus/cuneus/subscribe"@
            &&& a != "/acuneus/cuneus/pulse"@
            &&& a != "/acuneus/cuneus/note"@
            &&& a != "/acuneus/cuneus/transport"@
            &&& a != "/acuneus/cuneus/overlay"@
            &&& a != "/acuneus/cuneus/overlay/toggle"@
            &&& a != "/acuneus/cuneus/window/titlebar"@
            &&& a != "/acuneus/cuneus/window/titlebar/hide"@
            &&& a != "/acuneus/cuneus/window/title"@
            &&& a != "/acuneus/cuneus/window/position"@
            &&& a != "/acuneus/cuneus/window/scale"@
            &&& a != "/acuneus/cuneus/window/size"@
            &&& a != "/acuneus/cuneus/time"@
            &&& a != "/acuneus/cuneus/fps"@
            &&& a != "/acuneus/cuneus/resolution"@
            &&& a != "/acuneus/cuneus/audio_spectrum"@
            &&& a != "/acuneus/cuneus/action"@
            &&& a != "/acuneus/cuneus/media/load"@
        }),
{
    let a = "/acuneus/cuneus/param/"@ + id;
    reveal_strlit("/acuneus/cuneus/param/");
    assert("/acuneus/cuneus/param/"@.len() == 22);
    assert(a.len() == 22 + id.len());
    assert(a.last() == id.last());
    assert(a.take(22) =~= "/acuneus/cuneus/param/"@);
    assert(a.skip(22) =~= id);
    reveal_strlit("/acuneus/cuneus/param/");
    reveal_strlit("/acuneus/cuneus/color/");
    reveal_strlit("/acuneus/cuneus/bool/");
    reveal_strlit("/acuneus/cuneus/checkbox/");
    assert(a[16] == "/acuneus/cuneus/param/"@[16]);
    assert(a[16] == 'p');
    reveal_strlit("/acuneus/cuneus/discover");
    assert("/acuneus/cuneus/discover"@[16] == 'd');
    reveal_strlit("/acuneus/cuneus/subscribe");
    assert("/acuneus/cuneus/subscribe"@[16] == 's');
    reveal_strlit("/acuneus/cuneus/pulse");
    assert("/acuneus/cuneus/pulse"@.len() == 21);
    reveal_strlit("/acuneus/cuneus/note");
    assert("/acuneus/cuneus/note"@.len() == 20);
    reveal_strlit("/acuneus/cuneus/transport");
    assert("/acuneus/cuneus/transport"@[16] == 't');
    reveal_strlit("/acuneus/cuneus/overlay");
    assert("/acuneus/cuneus/overlay"@[16] == 'o');
    reveal_strlit("/acuneus/cuneus/overlay/toggle");
    assert("/acuneus/cuneus/overlay/toggle"@[16] == 'o');
    reveal_strlit("/acuneus/cuneus/window/titlebar");
    assert("/acuneus/cuneus/window/titlebar"@[16] == 'w');
    reveal_strlit("/acuneus/cuneus/window/titlebar/hide");
    assert("/acuneus/cuneus/window/titlebar/hide"@[16] == 'w');
    reveal_strlit("/acuneus/cuneus/window/title");
    assert("/acuneus/cuneus/window/title"@[16] == 'w');
    reveal_strlit("/acuneus/cuneus/window/position");
    assert("/acuneus/cuneus/window/position"@[16] == 'w');
    reveal_strlit("/acuneus/cuneus/window/scale");
    assert("/acuneus/cuneus/window/scale"@[16] == 'w');
    reveal_strlit("/acuneus/cuneus/window/size");
    assert("/acuneus/cuneus/window/size"@[16] == 'w');
    reveal_strlit("/acuneus/cuneus/time");
    assert("/acuneus/cuneus/time"@.len() == 20);
    reveal_strlit("/acuneus/cuneus/fps");
    assert("/acuneus/cuneus/fps"@.len() == 19);
    reveal_strlit("/acuneus/cuneus/resolution");
    assert("/acuneus/cuneus/resolution"@[16] == 'r');
    reveal_strlit("/acuneus/cuneus/audio_spectrum");
    assert("/acuneus/cuneus/audio_spectrum"@[16] == 'a');
    reveal_strlit("/acuneus/cuneus/action");
    assert("/acuneus/cuneus/action"@.len() == 22);
    reveal_strlit("/acuneus/cuneus/media/load");
    assert("/acuneus/cuneus/media/load"@[16] == 'm');
    assert("/acuneus/cuneus/bool/"@[16] == 'b');
    assert("/acuneus/cuneus/checkbox/"@[16] == 'c');
    if strip_prefix(a, "/acuneus/cuneus/bool/"@) is Some {
        assert(a.take(21)[16] == a[16]);
    }
    if strip_prefix(a, "/acuneus/cuneus/checkbox/"@) is Some {
        assert(a.take(25)[16] == a[16]);
    }
}

/// A message to a parameter's address with one numeric argument sets that
/// parameter to that number.
pub proof fn lemma_osc_set_f32(id: Seq<char>, value: ScalarV)
    requires
        id.len() > 0,
        id.last() != '/',
        !(value is Text),
    ensures
        message_command("/acuneus/cuneus/param/"@ + id, seq![scalar_arg(value)]) == Some(
            CommandV::SetF32 { id: id, value: value },
        ),
{
    lemma_param_address(id);
}

/// A message to a parameter's address with three numeric arguments sets
/// that colour parameter to red, green and blue, in that order.
pub proof fn lemma_osc_set_color3(id: Seq<char>, r: ScalarV, g: ScalarV, b: ScalarV)
    requires
        id.len() > 0,
        id.last() != '/',
        !(r is Text),
        !(g is Text),
        !(b is Text),
    ensures
        message_command(
            "/acuneus/cuneus/param/"@ + id,
            seq![scalar_arg(r), scalar_arg(g), scalar_arg(b)],
        ) == Some(CommandV::SetColor3 { id: id, r: r, g: g, b: b }),
{
    lemma_param_address(id);
}

/// A message to a parameter's address with a `bool` sets that parameter
/// to it.
pub proof fn lemma_osc_set_bool(id: Seq<char>, value: bool)
    requires
        id.len() > 0,
        id.last() != '/',
    ensures
        message_command("/acuneus/cuneus/param/"@ + id, seq![OscArgV::Bool(value)]) == Some(
            CommandV::SetBool { id: id, value: value },
        ),
{
    lemma_param_address(id);
}

/// A message to a parameter's address with a string sets that parameter
/// to it.
pub proof fn lemma_osc_set_string(id: Seq<char>, value: Seq<char>)
    requires
        id.len() > 0,
        id.last() != '/',
    ensures
        message_command("/acuneus/cuneus/param/"@ + id, seq![OscArgV::Str(value)]) == Some(
            CommandV::SetString { id: id, value: value },
        ),
{
    lemma_param_address(id);
}

fn arg_ref(args: &Vec<OscArg>, i: usize) -> (r: Option<&OscArg>)
    ensures
        match r {
            Some(a) => arg_at(arg_views(args@), i as int) == Some(a@),
            None => arg_at(arg_views(args@), i as int) is None,
        },
{
    if i < args.len() {
        Some(&args[i])
    } else {
        None
    }
}

/// The view of an optional argument reference.
pub open spec fn opt_arg_view(a: Option<&OscArg>) -> Option<OscArgV> {
    match a {
        Some(a) => Some(a@),
        None => None,
    }
}

/// Reads a string argument.
pub fn osc_string(a: Option<&OscArg>) -> (r: Option<String>)
    ensures
        match r {
            Some(s) => osc_string_spec(opt_arg_view(a)) == Some(s@),
            None => osc_string_spec(opt_arg_view(a)) is None,
        },
{
    match a {
        Some(OscArg::Str(s)) => Some(s.clone()),
        _ => None,
    }
}

/// Reads a numeric argument.
pub fn osc_scalar(a: Option<&OscArg>) -> (r: Option<Scalar>)
    ensures
        match r {
            Some(s) => osc_scalar_spec(opt_arg_view(a)) == Some(s@),
            None => osc_scalar_spec(opt_arg_view(a)) is None,
        },
{
    match a {
        Some(OscArg::Float(b)) => Some(Scalar::F32Bits(*b)),
        Some(OscArg::Double(b)) => Some(Scalar::F64Bits(*b)),
        Some(OscArg::Int(v)) => Some(Scalar::I32(*v)),
        Some(OscArg::Long(v)) => Some(Scalar::I64(*v)),
        _ => None,
    }
}

/// Reads an integer argument.
pub fn osc_i32(a: Option<&OscArg>) -> (r: Option<i32>)
    ensures
        r == osc_i32_spec(opt_arg_view(a)),
{
    match a {
        Some(OscArg::Int(v)) => Some(*v),
        Some(OscArg::Float(b)) => Some(f32_bits_to_i32(*b)),
        _ => None,
    }
}

/// Reads a non-negative integer argument.
pub fn osc_u32(a: Option<&OscArg>) -> (r: Option<u32>)
    ensures
        r == osc_u32_spec(opt_arg_view(a)),
{
    match osc_i32(a) {
        Some(v) => if v >= 0 {
            Some(v as u32)
        } else {
            None
        },
        None => None,
    }
}

/// Reads a boolean argument.
pub fn osc_bool(a: Option<&OscArg>) -> (r: Option<bool>)
    ensures
        r == osc_bool_spec(opt_arg_view(a)),
{
    match a {
        Some(OscArg::Bool(b)) => Some(*b),
        Some(OscArg::Int(v)) => Some(*v != 0),
        Some(OscArg::Float(b)) => Some(*b % 0x8000_0000 != 0),
        _ => None,
    }
}

fn trimmed_address(addr: &String) -> (a: Vec<char>)
    ensures
        a@ == trim_slashes(addr@),
{
    let cs = char_vec(addr.as_str());
    let mut hi = cs.len();
    assert(cs@.take(cs@.len() as int) =~= cs@);
    while hi > 0 && cs[hi - 1] == '/'
        invariant
            hi <= cs@.len(),
            trim_slashes(cs@) == trim_slashes(cs@.take(hi as int)),
        decreases hi,
    {
        assert(cs@.take(hi as int).drop_last() =~= cs@.take(hi - 1));
        hi = hi - 1;
    }
    let mut a: Vec<char> = Vec::new();
    let mut i: usize = 0;
    while i < hi
        invariant
            hi <= cs@.len(),
            i <= hi,
            a@ == cs@.take(i as int),
        decreases hi - i,
    {
        a.push(cs[i]);
        assert(cs@.take(i + 1) =~= cs@.take(i as int).push(cs@[i as int]));
        i = i + 1;
    }
    a
}

fn strip(a: &Vec<char>, prefix: &str) -> (r: Option<String>)
    ensures
        match r {
            Some(s) => strip_prefix(a@, prefix@) == Some(s@),
            None => strip_prefix(a@, prefix@) is None,
        },
{
    if chars_start_with(a, prefix) {
        let n = char_vec(prefix).len();
        let s = string_from_range(a.as_slice(), n, a.len());
        assert(a@.subrange(n as int, a@.len() as int) =~= a@.skip(n as int));
        Some(s)
    } else {
        None
    }
}

fn param_id_of(a: &Vec<char>) -> (r: Option<String>)
    ensures
        match r {
            Some(s) => param_id(a@) == Some(s@),
            None => param_id(a@) is None,
        },
{
    match strip(a, "/acuneus/cuneus/param/") {
        Some(s) => Some(s),
        None => match strip(a, "/acuneus/cuneus/color/") {
            Some(s) => Some(s),
            None => match strip(a, "/acuneus/cuneus/bool/") {
                Some(s) => Some(s),
                None => strip(a, "/acuneus/cuneus/checkbox/"),
            },
        },
    }
}

fn param_message(a: &Vec<char>, args: &Vec<OscArg>) -> (r: Option<RemoteCommand>)
    ensures
        command_opt_view(r) == param_command(a@, arg_views(args@)),
{
    let ghost av = arg_views(args@);
    let id = match param_id_of(a) {
        Some(id) => id,
        None => {
            return None;
        },
    };
    let first = arg_ref(args, 0);
    let is_str = match first {
        Some(OscArg::Str(_)) => true,
        _ => false,
    };
    let is_bool = match first {
        Some(OscArg::Bool(_)) => true,
        _ => false,
    };
    if is_str {
        match osc_string(first) {
            Some(v) => Some(RemoteCommand::SetString { id, value: v }),
            None => None,
        }
    } else if is_bool || chars_start_with(a, "/acuneus/cuneus/bool/") || chars_start_with(
        a,
        "/acuneus/cuneus/checkbox/",
    ) {
        let value = match osc_bool(first) {
            Some(b) => b,
            None => true,
        };
        Some(RemoteCommand::SetBool { id, value })
    } else if args.len() >= 3 {
        match (osc_scalar(first), osc_scalar(arg_ref(args, 1)), osc_scalar(arg_ref(args, 2))) {
            (Some(r), Some(g), Some(b)) => Some(RemoteCommand::SetColor3 { id, r, g, b }),
            _ => None,
        }
    } else {
        match osc_scalar(first) {
            Some(v) => Some(RemoteCommand::SetF32 { id, value: v }),
            None => None,
        }
    }
}

fn numeric_values(args: &Vec<OscArg>) -> (r: Vec<Scalar>)
    ensures
        crate::command::scalar_views(r@) == numeric_args(arg_views(args@)),
{
    let mut out: Vec<Scalar> = Vec::new();
    let mut i: usize = 0;
    while i < args.len()
        invariant
            i <= args@.len(),
            crate::command::scalar_views(out@) == numeric_args(arg_views(args@).take(i as int)),
        decreases args@.len() - i,
    {
        let ghost before = out@;
        assert(arg_views(args@).take(i + 1).drop_last() =~= arg_views(args@).take(i as int));
        assert(arg_views(args@).take(i + 1).last() == args@[i as int]@);
        match osc_scalar(Some(&args[i])) {
            Some(v) => {
                out.push(v);
                assert(crate::command::scalar_views(out@) =~= crate::command::scalar_views(
                    before,
                ).push(v@));
            },
            None => {},
        }
        i = i + 1;
    }
    assert(arg_views(args@).take(args@.len() as int) =~= arg_views(args@));
    out
}

/// The command that an OSC message denotes, if any.
#[verifier::rlimit(40)]
pub fn parse_osc_message(m: &Message) -> (r: Option<RemoteCommand>)
    ensures
        command_opt_view(r) == message_command(m.addr@, arg_views(m.args@)),
{
    let a = trimmed_address(&m.addr);
    let args = &m.args;
    let first = arg_ref(args, 0);
    let second = arg_ref(args, 1);
    let third = arg_ref(args, 2);
    if chars_eq(&a, "/acuneus/cuneus/discover") {
        Some(RemoteCommand::Discover)
    } else if chars_eq(&a, "/acuneus/cuneus/subscribe") {
        let enabled = match osc_bool(first) {
            Some(b) => b,
            None => true,
        };
        Some(RemoteCommand::Subscribe { enabled })
    } else if chars_eq(&a, "/acuneus/cuneus/pulse") {
        match osc_scalar(first) {
            Some(v) => Some(RemoteCommand::Pulse { velocity: v }),
            None => None,
        }
    } else if chars_eq(&a, "/acuneus/cuneus/note") {
        match (osc_scalar(first), osc_scalar(second)) {
            (Some(p), Some(v)) => Some(RemoteCommand::Note { pitch: p, velocity: v }),
            _ => None,
        }
    } else if chars_eq(&a, "/acuneus/cuneus/transport") {
        match (osc_scalar(first), osc_scalar(second), osc_scalar(third)) {
            (Some(bpm), Some(beat), Some(measure)) => Some(
                RemoteCommand::Transport { bpm, beat, measure },
            ),
            _ => None,
        }
    } else if chars_eq(&a, "/acuneus/cuneus/overlay") {
        let visible = match osc_bool(first) {
            Some(b) => b,
            None => true,
        };
        Some(RemoteCommand::OverlayVisible { visible })
    } else if chars_eq(&a, "/acuneus/cuneus/overlay/toggle") {
        Some(RemoteCommand::ToggleOverlay)
    } else if chars_eq(&a, "/acuneus/cuneus/window/titlebar") {
        let visible = match osc_bool(first) {
            Some(b) => b,
            None => true,
        };
        Some(RemoteCommand::TitleBarVisible { visible })
    } else if chars_eq(&a, "/acuneus/cuneus/window/titlebar/hide") {
        Some(RemoteCommand::HideTitleBar)
    } else if chars_eq(&a, "/acuneus/cuneus/window/title") {
        match osc_string(first) {
            Some(t) => Some(RemoteCommand::WindowTitle { title: t }),
            None => None,
        }
    } else if chars_eq(&a, "/acuneus/cuneus/window/position") {
        match (osc_i32(first), osc_i32(second)) {
            (Some(x), Some(y)) => Some(RemoteCommand::WindowPosition { x, y }),
            _ => None,
        }
    } else if chars_eq(&a, "/acuneus/cuneus/window/scale") {
        match osc_scalar(first) {
            Some(v) => Some(RemoteCommand::WindowScale { scale: v }),
            None => None,
        }
    } else if chars_eq(&a, "/acuneus/cuneus/window/size") {
        match (osc_u32(first), osc_u32(second)) {
            (Some(w), Some(h)) => Some(RemoteCommand::WindowSize { width: w, height: h }),
            _ => None,
        }
    } else if chars_eq(&a, "/acuneus/cuneus/time") {
        match osc_scalar(first) {
            Some(v) => Some(RemoteCommand::Time { seconds: v }),
            None => None,
        }
    } else if chars_eq(&a, "/acuneus/cuneus/fps") {
        match osc_scalar(first) {
            Some(v) => Some(RemoteCommand::Fps { fps: v }),
            None => None,
        }
    } else if chars_eq(&a, "/acuneus/cuneus/resolution") {
        match (osc_u32(first), osc_u32(second)) {
            (Some(w), Some(h)) => Some(RemoteCommand::Resolution { width: w, height: h }),
            _ => None,
        }
    } else if chars_eq(&a, "/acuneus/cuneus/audio_spectrum") && numeric_values(args).len() > 0 {
        Some(RemoteCommand::AudioSpectrum { values: numeric_values(args) })
    } else if chars_eq(&a, "/acuneus/cuneus/action") {
        match osc_string(first) {
            Some(id) => Some(RemoteCommand::Action { id, value: osc_scalar(second) }),
            None => None,
        }
    } else if chars_eq(&a, "/acuneus/cuneus/media/load") {
        match osc_string(first) {
            Some(p) => Some(RemoteCommand::LoadMedia { path: p }),
            None => None,
        }
    } else {
        param_message(&a, args)
    }
}

/// The command that an OSC packet carries: a message's command, or the
/// first command found among a bundle's packets.
pub fn parse_osc_packet(p: &Packet) -> (r: Option<RemoteCommand>)
    ensures
        command_opt_view(r) == packet_command(*p),
    decreases p,
{
    match p {
        Packet::Message(m) => parse_osc_message(m),
        Packet::Bundle(ps) => {
            let mut i: usize = 0;
            assert(ps@.skip(0) =~= ps@);
            while i < ps.len()
                invariant
                    i <= ps@.len(),
                    *p == Packet::Bundle(*ps),
                    packet_command(*p) == bundle_command(ps@.skip(i as int)),
                decreases ps@.len() - i,
            {
                proof {
                    assert(decreases_to!(*p => ps@[i as int]));
                }
                let r = parse_osc_packet(&ps[i]);
                assert(ps@.skip(i as int)[0] == ps@[i as int]);
                assert(ps@.skip(i as int).drop_first() =~= ps@.skip(i + 1));
                if r.is_some() {
                    return r;
                }
                i = i + 1;
            }
            None
        },
    }
}

/// `rosc::OscPacket`, carried opaquely through the decoder wrapper.
#[verifier::external_type_specification]
#[verifier::external_body]
pub struct ExRoscPacket(rosc::OscPacket);

/// `rosc::OscType`, carried opaquely through the decoder wrapper.
#[verifier::external_type_specification]
#[verifier::external_body]
pub struct ExRoscType(rosc::OscType);

/// The packet that `rosc::decoder::decode_udp` reads from a datagram,
/// `None` where it reports an error.
pub uninterp spec fn rosc_decode_udp(bytes: Seq<u8>) -> Option<Packet>;

/// Moves one `rosc::OscType` into an [`OscArg`], a float by its bits.
#[verifier::external_body]
fn arg_from_rosc(a: rosc::OscType) -> OscArg {
    match a {
        rosc::OscType::Int(v) => OscArg::Int(v),
        rosc::OscType::Float(v) => OscArg::Float(v.to_bits()),
        rosc::OscType::String(s) => OscArg::Str(s),
        rosc::OscType::Blob(b) => OscArg::Blob(b),
        rosc::OscType::Long(v) => OscArg::Long(v),
        rosc::OscType::Double(v) => OscArg::Double(v.to_bits()),
        rosc::OscType::Bool(b) => OscArg::Bool(b),
        _ => OscArg::Other,
    }
}

/// Moves one `rosc::OscPacket` into an [`Packet`], field by field.
#[verifier::external_body]
fn packet_from_rosc(p: rosc::OscPacket) -> Packet {
    match p {
        rosc::OscPacket::Message(m) => Packet::Message(
            Message { addr: m.addr, args: m.args.into_iter().map(arg_from_rosc).collect() },
        ),
        rosc::OscPacket::Bundle(b) => Packet::Bundle(
            b.content.into_iter().map(packet_from_rosc).collect(),
        ),
    }
}

/// Decodes a datagram with `rosc::decoder::decode_udp`.  The contract
/// claims only that the result is the decoder's packet (bytes after it are
/// dropped), or `None` where the decoder reports an error; what the decoder
/// accepts is its own, and is named by [`rosc_decode_udp`].
#[verifier::external_body]
fn decode_udp(bytes: &[u8]) -> (r: Option<Packet>)
    ensures
        r == rosc_decode_udp(bytes@),
{
    match rosc::decoder::decode_udp(bytes) {
        Ok((_, p)) => Some(packet_from_rosc(p)),
        Err(_) => None,
    }
}

/// The command of a datagram read as OSC.
pub open spec fn osc_datagram_command(bytes: Seq<u8>) -> Option<CommandV> {
    match rosc_decode_udp(bytes) {
        Some(p) => packet_command(p),
        None => None,
    }
}

/// Whether a datagram decodes as an OSC packet.
pub fn is_osc_packet(bytes: &[u8]) -> (b: bool)
    ensures
        b == rosc_decode_udp(bytes@) is Some,
{
    decode_udp(bytes).is_some()
}

/// The command that a datagram carries when read as OSC.
pub fn parse_osc_command(bytes: &[u8]) -> (r: Option<RemoteCommand>)
    ensures
        command_opt_view(r) == osc_datagram_command(bytes@),
{
    match decode_udp(bytes) {
        Some(p) => parse_osc_packet(&p),
        None => None,
    }
}

} // verus!
