//! The messages that a running shader sends back to its host: status,
//! the parameter catalog, parameter values, transport and audio.
use vstd::prelude::*;

use crate::command::{CommandV, ScalarV};
use crate::osc::{message_command, param_id, strip_prefix, trim_slashes, Message, MessageV, OscArg, OscArgV};
use crate::registry::{
    bin_params, f32_order_key, lemma_catalog_well_formed, param_type_name, param_type_name_spec,
    BinParamSpec,
};
use crate::text::{char_vec, string_from_chars};

verus! {

/// A parameter value as a shader reports it; `f32` values by their bits.
#[derive(Clone, Debug)]
pub enum RemoteValue {
    F32(u32),
    Color3(u32, u32, u32),
    String(String),
    Bool(bool),
}

/// The model of a [`RemoteValue`].
pub enum RemoteValueV {
    F32(u32),
    Color3(u32, u32, u32),
    String(Seq<char>),
    Bool(bool),
}

impl View for RemoteValue {
    type V = RemoteValueV;

    open spec fn view(&self) -> RemoteValueV {
        match self {
            RemoteValue::F32(b) => RemoteValueV::F32(*b),
            RemoteValue::Color3(r, g, b) => RemoteValueV::Color3(*r, *g, *b),
            RemoteValue::String(s) => RemoteValueV::String(s@),
            RemoteValue::Bool(b) => RemoteValueV::Bool(*b),
        }
    }
}

fn owned(s: &str) -> (r: String)
    ensures
        r@ == s@,
{
    s.to_owned()
}

fn concat(a: &str, b: &str) -> (r: String)
    ensures
        r@ == a@ + b@,
{
    let mut cs = char_vec(a);
    let mut bs = char_vec(b);
    cs.append(&mut bs);
    string_from_chars(cs.as_slice())
}

/// A message with one string argument.
pub open spec fn text_message(addr: Seq<char>, text: Seq<char>) -> MessageV {
    MessageV { addr, args: seq![OscArgV::Str(text)] }
}

fn text_msg(addr: &str, text: &str) -> (m: Message)
    ensures
        m@ == text_message(addr@, text@),
{
    let mut args: Vec<OscArg> = Vec::new();
    args.push(OscArg::Str(owned(text)));
    let m = Message { addr: owned(addr), args };
    assert(m@.args =~= seq![OscArgV::Str(text@)]);
    m
}

/// The status report: `/acuneus/cuneus/status` with the status text.
pub fn status_message(status: &str) -> (m: Message)
    ensures
        m@ == text_message("/acuneus/cuneus/status"@, status@),
{
    text_msg("/acuneus/cuneus/status", status)
}

/// The name of the running shader: `/acuneus/cuneus/bin`.
pub fn bin_message(bin: &str) -> (m: Message)
    ensures
        m@ == text_message("/acuneus/cuneus/bin"@, bin@),
{
    text_msg("/acuneus/cuneus/bin", bin)
}

/// The number of parameters: `/acuneus/cuneus/param_count` with an `int`
/// (the count as `i32`, as `as` converts it).
pub open spec fn param_count_message_spec(count: usize) -> MessageV {
    MessageV { addr: "/acuneus/cuneus/param_count"@, args: seq![OscArgV::Int(count as i32)] }
}

/// The number of parameters.
pub fn param_count_message(count: usize) -> (m: Message)
    ensures
        m@ == param_count_message_spec(count),
{
    let mut args: Vec<OscArg> = Vec::new();
    args.push(OscArg::Int(count as i32));
    let m = Message { addr: owned("/acuneus/cuneus/param_count"), args };
    assert(m@.args =~= param_count_message_spec(count).args);
    m
}

/// The description of parameter `index`: `/acuneus/cuneus/param_desc` with
/// the index, id, label, group, type name, bounds and default, and the
/// options when the parameter has them.
pub open spec fn param_desc_message_spec(index: usize, p: BinParamSpec) -> MessageV {
    let fixed = seq![
        OscArgV::Int(index as i32),
        OscArgV::Str(p.id@),
        OscArgV::Str(p.label@),
        OscArgV::Str(p.group@),
        OscArgV::Str(param_type_name_spec(p.param_type)),
        OscArgV::Float(p.min_value_bits),
        OscArgV::Float(p.max_value_bits),
        OscArgV::Float(p.default_value_bits),
    ];
    MessageV {
        addr: "/acuneus/cuneus/param_desc"@,
        args: match p.options {
            Some(o) => fixed.push(OscArgV::Str(o@)),
            None => fixed,
        },
    }
}

/// The description of one parameter.
pub fn param_desc_message(index: usize, p: &BinParamSpec) -> (m: Message)
    ensures
        m@ == param_desc_message_spec(index, *p),
{
    let mut args: Vec<OscArg> = Vec::new();
    args.push(OscArg::Int(index as i32));
    args.push(OscArg::Str(owned(p.id_str())));
    args.push(OscArg::Str(owned(p.label_str())));
    args.push(OscArg::Str(owned(p.group_str())));
    args.push(OscArg::Str(owned(param_type_name(p.param_type))));
    args.push(OscArg::Float(p.min_value_bits));
    args.push(OscArg::Float(p.max_value_bits));
    args.push(OscArg::Float(p.default_value_bits));
    match p.options_str() {
        Some(o) => args.push(OscArg::Str(owned(o))),
        None => {},
    }
    let m = Message { addr: owned("/acuneus/cuneus/param_desc"), args };
    assert(m@.args =~= param_desc_message_spec(index, *p).args);
    m
}

/// The descriptions of `params`, in order.
pub open spec fn desc_messages(params: Seq<BinParamSpec>) -> Seq<MessageV> {
    Seq::new(params.len(), |i: int| param_desc_message_spec(i as usize, params[i]))
}

/// The discovery sequence: status `ready`, the shader's name, the number
/// of parameters, then one description per parameter, in catalog order.
pub open spec fn discovery_spec(bin: Seq<char>, params: Seq<BinParamSpec>) -> Seq<MessageV> {
    seq![
        text_message("/acuneus/cuneus/status"@, "ready"@),
        text_message("/acuneus/cuneus/bin"@, bin),
        param_count_message_spec(params.len() as usize),
    ] + desc_messages(params)
}

/// The views of a sequence of messages.
pub open spec fn message_views(v: Seq<Message>) -> Seq<MessageV> {
    v.map_values(|m: Message| m@)
}

/// The messages that announce a shader and its parameters to a host.
pub fn discovery_messages(bin: &str, params: &[BinParamSpec]) -> (v: Vec<Message>)
    ensures
        message_views(v@) == discovery_spec(bin@, params@),
{
    let mut v: Vec<Message> = Vec::new();
    v.push(status_message("ready"));
    v.push(bin_message(bin));
    v.push(param_count_message(params.len()));
    let ghost head = seq![
        text_message("/acuneus/cuneus/status"@, "ready"@),
        text_message("/acuneus/cuneus/bin"@, bin@),
        param_count_message_spec(params@.len() as usize),
    ];
    assert(message_views(v@) =~= head + desc_messages(params@.take(0)));
    let mut i: usize = 0;
    while i < params.len()
        invariant
            i <= params@.len(),
            head == seq![
                text_message("/acuneus/cuneus/status"@, "ready"@),
                text_message("/acuneus/cuneus/bin"@, bin@),
                param_count_message_spec(params@.len() as usize),
            ],
            message_views(v@) == head + desc_messages(params@.take(i as int)),
        decreases params@.len() - i,
    {
        let m = param_desc_message(i, &params[i]);
        let ghost before = v@;
        v.push(m);
        assert(message_views(v@) =~= message_views(before).push(m@));
        assert(desc_messages(params@.take(i + 1)) =~= desc_messages(params@.take(i as int)).push(
            param_desc_message_spec(i, params@[i as int]),
        ));
        assert(message_views(v@) =~= head + desc_messages(params@.take(i + 1)));
        i = i + 1;
    }
    assert(params@.take(params@.len() as int) =~= params@);
    v
}

/// A parameter description carries, in order, the parameter's index, id,
/// label, group and type name, its lower bound, its upper bound and its
/// default (as `float`s), and then its options when it has any.
pub proof fn lemma_param_desc_layout(index: usize, p: BinParamSpec)
    ensures
        ({
            let a = param_desc_message_spec(index, p).args;
            &&& a.len() == if p.options is Some {
                9int
            } else {
                8int
            }
            &&& a[0] == OscArgV::Int(index as i32)
            &&& a[1] == OscArgV::Str(p.id@)
            &&& a[2] == OscArgV::Str(p.label@)
            &&& a[3] == OscArgV::Str(p.group@)
            &&& a[5] == OscArgV::Float(p.min_value_bits)
            &&& a[6] == OscArgV::Float(p.max_value_bits)
            &&& a[7] == OscArgV::Float(p.default_value_bits)
            &&& p.options matches Some(o) ==> a[8] == OscArgV::Str(o@)
        }),
{
}

/// The discovery of a catalog shader announces, after its three header
/// messages, each parameter in catalog order with its own id, and with a
/// range that a host can use: the lower bound (argument 5) is at most the
/// default (argument 7), which is at most the upper bound (argument 6).
pub proof fn lemma_discovery_ranges(name: Seq<char>, bin: Seq<char>)
    requires
        bin_params(name) is Some,
    ensures
        ({
            let ps = bin_params(name)->0;
            let d = discovery_spec(bin, ps);
            &&& d.len() == 3 + ps.len()
            &&& forall|i: int|
                0 <= i < ps.len() ==> {
                    let a = (#[trigger] d[3 + i]).args;
                    &&& a[0] == OscArgV::Int(i as i32)
                    &&& a[1] == OscArgV::Str(ps[i].id@)
                    &&& a[5] is Float && a[6] is Float && a[7] is Float
                    &&& f32_order_key(a[5]->Float_0) <= f32_order_key(a[7]->Float_0)
                    &&& f32_order_key(a[7]->Float_0) <= f32_order_key(a[6]->Float_0)
                }
        }),
{
    let ps = bin_params(name)->0;
    lemma_catalog_well_formed(name);
    let d = discovery_spec(bin, ps);
    assert forall|i: int| 0 <= i < ps.len() implies {
        let a = (#[trigger] d[3 + i]).args;
        &&& a[0] == OscArgV::Int(i as i32)
        &&& a[1] == OscArgV::Str(ps[i].id@)
        &&& a[5] is Float && a[6] is Float && a[7] is Float
        &&& f32_order_key(a[5]->Float_0) <= f32_order_key(a[7]->Float_0)
        &&& f32_order_key(a[7]->Float_0) <= f32_order_key(a[6]->Float_0)
    } by {
        assert(d[3 + i] == param_desc_message_spec(i as usize, ps[i]));
        lemma_param_desc_layout(i as usize, ps[i]);
        assert(crate::registry::param_well_formed(ps[i]));
    }
}

/// The address of a parameter: `/acuneus/cuneus/param/<id>`.
pub open spec fn param_address(id: Seq<char>) -> Seq<char> {
    "/acuneus/cuneus/param/"@ + id
}

/// The arguments that carry a value: one `float`, three `float`s, one
/// string or one `bool`.
pub open spec fn value_args(v: RemoteValueV) -> Seq<OscArgV> {
    match v {
        RemoteValueV::F32(b) => seq![OscArgV::Float(b)],
        RemoteValueV::Color3(r, g, b) => seq![OscArgV::Float(r), OscArgV::Float(g), OscArgV::Float(b)],
        RemoteValueV::String(s) => seq![OscArgV::Str(s)],
        RemoteValueV::Bool(b) => seq![OscArgV::Bool(b)],
    }
}

/// The message that reports a parameter's value.
pub open spec fn value_message_spec(id: Seq<char>, v: RemoteValueV) -> MessageV {
    MessageV { addr: param_address(id), args: value_args(v) }
}

/// The message that reports the value of parameter `id`.
pub fn value_message(id: &str, value: &RemoteValue) -> (m: Message)
    ensures
        m@ == value_message_spec(id@, value@),
{
    let mut args: Vec<OscArg> = Vec::new();
    match value {
        RemoteValue::F32(b) => args.push(OscArg::Float(*b)),
        RemoteValue::Color3(r, g, b) => {
            args.push(OscArg::Float(*r));
            args.push(OscArg::Float(*g));
            args.push(OscArg::Float(*b));
        },
        RemoteValue::String(s) => args.push(OscArg::Str(s.clone())),
        RemoteValue::Bool(b) => args.push(OscArg::Bool(*b)),
    }
    let m = Message { addr: concat("/acuneus/cuneus/param/", id), args };
    assert(m@.args =~= value_args(value@));
    m
}

/// The optional value views, in order.
pub open spec fn value_opt_views(v: Seq<Option<RemoteValue>>) -> Seq<Option<RemoteValueV>> {
    v.map_values(|o: Option<RemoteValue>| match o {
        Some(x) => Some(x@),
        None => None,
    })
}

/// The value reports for the parameters whose value is known, in catalog
/// order; `values[i]` is the value of `params[i]`.
pub open spec fn value_messages_spec(
    params: Seq<BinParamSpec>,
    values: Seq<Option<RemoteValueV>>,
) -> Seq<MessageV>
    decreases params.len(),
{
    if params.len() == 0 || values.len() == 0 {
        seq![]
    } else {
        let rest = value_messages_spec(params.drop_last(), values.take(params.len() - 1));
        match values[params.len() - 1] {
            Some(v) => rest.push(value_message_spec(params.last().id@, v)),
            None => rest,
        }
    }
}

/// The reports of every known parameter value.
pub fn value_messages(params: &[BinParamSpec], values: &Vec<Option<RemoteValue>>) -> (v: Vec<
    Message,
>)
    requires
        values@.len() == params@.len(),
    ensures
        message_views(v@) == value_messages_spec(params@, value_opt_views(values@)),
{
    let mut v: Vec<Message> = Vec::new();
    let mut i: usize = 0;
    assert(value_messages_spec(params@.take(0), value_opt_views(values@).take(0)) =~= seq![]);
    while i < params.len()
        invariant
            i <= params@.len(),
            values@.len() == params@.len(),
            message_views(v@) == value_messages_spec(
                params@.take(i as int),
                value_opt_views(values@).take(i as int),
            ),
        decreases params@.len() - i,
    {
        let ghost before = v@;
        let ghost ps = params@.take(i + 1);
        let ghost vs = value_opt_views(values@).take(i + 1);
        assert(ps.drop_last() =~= params@.take(i as int));
        assert(vs.take(ps.len() - 1) =~= value_opt_views(values@).take(i as int));
        match &values[i] {
            Some(x) => {
                let m = value_message(params[i].id_str(), x);
                v.push(m);
                assert(message_views(v@) =~= message_views(before).push(m@));
            },
            None => {},
        }
        i = i + 1;
    }
    assert(params@.take(params@.len() as int) =~= params@);
    assert(value_opt_views(values@).take(params@.len() as int) =~= value_opt_views(values@));
    v
}

/// A message whose arguments are `float`s given by their bits.
pub open spec fn floats_message(addr: Seq<char>, bits: Seq<u32>) -> MessageV {
    MessageV { addr, args: bits.map_values(|b: u32| OscArgV::Float(b)) }
}

/// The transport position: `/acuneus/cuneus/transport` with tempo, beat
/// and measure.
pub fn transport_message(bpm: u32, beat: u32, measure: u32) -> (m: Message)
    ensures
        m@ == floats_message("/acuneus/cuneus/transport"@, seq![bpm, beat, measure]),
{
    let mut args: Vec<OscArg> = Vec::new();
    args.push(OscArg::Float(bpm));
    args.push(OscArg::Float(beat));
    args.push(OscArg::Float(measure));
    let m = Message { addr: owned("/acuneus/cuneus/transport"), args };
    assert(m@.args =~= seq![bpm, beat, measure].map_values(|b: u32| OscArgV::Float(b)));
    m
}

/// The tempo: `/acuneus/cuneus/transport/tempo`.
pub fn transport_tempo_message(bpm: u32) -> (m: Message)
    ensures
        m@ == floats_message("/acuneus/cuneus/transport/tempo"@, seq![bpm]),
{
    let mut args: Vec<OscArg> = Vec::new();
    args.push(OscArg::Float(bpm));
    let m = Message { addr: owned("/acuneus/cuneus/transport/tempo"), args };
    assert(m@.args =~= seq![bpm].map_values(|b: u32| OscArgV::Float(b)));
    m
}

/// A beat shift: `/acuneus/cuneus/transport/shift_beats`.
pub fn transport_shift_beats_message(beats: u32) -> (m: Message)
    ensures
        m@ == floats_message("/acuneus/cuneus/transport/shift_beats"@, seq![beats]),
{
    let mut args: Vec<OscArg> = Vec::new();
    args.push(OscArg::Float(beats));
    let m = Message { addr: owned("/acuneus/cuneus/transport/shift_beats"), args };
    assert(m@.args =~= seq![beats].map_values(|b: u32| OscArgV::Float(b)));
    m
}

/// Play or stop: `/acuneus/cuneus/transport/play` with `int` 1 or 0.
pub fn transport_playing_message(playing: bool) -> (m: Message)
    ensures
        m@ == (MessageV {
            addr: "/acuneus/cuneus/transport/play"@,
            args: seq![OscArgV::Int(if playing { 1 } else { 0 })],
        }),
{
    let mut args: Vec<OscArg> = Vec::new();
    args.push(OscArg::Int(if playing { 1 } else { 0 }));
    let m = Message { addr: owned("/acuneus/cuneus/transport/play"), args };
    assert(m@.args =~= seq![OscArgV::Int(if playing { 1 } else { 0 })]);
    m
}

/// A transport reset: `/acuneus/cuneus/transport/reset` with no arguments.
pub fn transport_reset_message() -> (m: Message)
    ensures
        m@ == (MessageV { addr: "/acuneus/cuneus/transport/reset"@, args: seq![] }),
{
    let m = Message { addr: owned("/acuneus/cuneus/transport/reset"), args: Vec::new() };
    assert(m@.args =~= seq![]);
    m
}


/// The command that sets parameter `id` to the value `v`.
pub open spec fn value_command(id: Seq<char>, v: RemoteValueV) -> CommandV {
    match v {
        RemoteValueV::F32(b) => CommandV::SetF32 { id, value: ScalarV::F32Bits(b) },
        RemoteValueV::Color3(r, g, b) => CommandV::SetColor3 {
            id,
            r: ScalarV::F32Bits(r),
            g: ScalarV::F32Bits(g),
            b: ScalarV::F32Bits(b),
        },
        RemoteValueV::String(t) => CommandV::SetString { id, value: t },
        RemoteValueV::Bool(b) => CommandV::SetBool { id, value: b },
    }
}

/// A value report read back as an incoming message sets the same
/// parameter to the same value: for an id that is not empty and does not
/// end in `/`, the report of `v` for `id` denotes the command that sets
/// `id` to `v`.
pub proof fn lemma_value_report_round_trip(id: Seq<char>, v: RemoteValueV)
    requires
        id.len() > 0,
        id.last() != '/',
    ensures
        message_command(value_message_spec(id, v).addr, value_message_spec(id, v).args) == Some(
            value_command(id, v),
        ),
{
    reveal_strlit("/acuneus/cuneus/discover");
    reveal_strlit("/acuneus/cuneus/subscribe");
    reveal_strlit("/acuneus/cuneus/pulse");
    reveal_strlit("/acuneus/cuneus/note");
    reveal_strlit("/acuneus/cuneus/transport");
    reveal_strlit("/acuneus/cuneus/overlay");
    reveal_strlit("/acuneus/cuneus/overlay/toggle");
    reveal_strlit("/acuneus/cuneus/window/titlebar");
    reveal_strlit("/acuneus/cuneus/window/titlebar/hide");
    reveal_strlit("/acuneus/cuneus/window/title");
    reveal_strlit("/acuneus/cuneus/window/position");
    reveal_strlit("/acuneus/cuneus/window/scale");
    reveal_strlit("/acuneus/cuneus/window/size");
    reveal_strlit("/acuneus/cuneus/time");
    reveal_strlit("/acuneus/cuneus/fps");
    reveal_strlit("/acuneus/cuneus/resolution");
    reveal_strlit("/acuneus/cuneus/audio_spectrum");
    reveal_strlit("/acuneus/cuneus/action");
    reveal_strlit("/acuneus/cuneus/media/load");
    reveal_strlit("/acuneus/cuneus/param/");
    reveal_strlit("/acuneus/cuneus/bool/");
    reveal_strlit("/acuneus/cuneus/checkbox/");
    reveal_strlit("/acuneus/cuneus/color/");
    let a = param_address(id);
    let prefix = "/acuneus/cuneus/param/"@;
    assert(prefix.len() == 22);
    assert(a.len() > 0 && a.last() == id.last());
    assert(trim_slashes(a) == a);
    assert(a[16] == 'p' && a[17] == 'a');
    assert(a != "/acuneus/cuneus/discover"@);
    assert(a != "/acuneus/cuneus/subscribe"@);
    assert(a != "/acuneus/cuneus/pulse"@);
    assert(a != "/acuneus/cuneus/note"@);
    assert(a != "/acuneus/cuneus/transport"@);
    assert(a != "/acuneus/cuneus/overlay"@);
    assert(a != "/acuneus/cuneus/overlay/toggle"@);
    assert(a != "/acuneus/cuneus/window/titlebar"@);
    assert(a != "/acuneus/cuneus/window/titlebar/hide"@);
    assert(a != "/acuneus/cuneus/window/title"@);
    assert(a != "/acuneus/cuneus/window/position"@);
    assert(a != "/acuneus/cuneus/window/scale"@);
    assert(a != "/acuneus/cuneus/window/size"@);
    assert(a != "/acuneus/cuneus/time"@);
    assert(a != "/acuneus/cuneus/fps"@);
    assert(a != "/acuneus/cuneus/resolution"@);
    assert(a != "/acuneus/cuneus/audio_spectrum"@);
    assert(a != "/acuneus/cuneus/action"@);
    assert(a != "/acuneus/cuneus/media/load"@);
    assert(a.take(22) =~= prefix);
    assert(a.skip(22) =~= id);
    assert(strip_prefix(a, prefix) == Some(id));
    assert(param_id(a) == Some(id));
    assert(strip_prefix(a, "/acuneus/cuneus/bool/"@) is None) by {
        assert(a.take(21)[16] != "/acuneus/cuneus/bool/"@[16]);
    }
    assert(strip_prefix(a, "/acuneus/cuneus/checkbox/"@) is None) by {
        if a.len() >= 25 {
            assert(a.take(25)[16] != "/acuneus/cuneus/checkbox/"@[16]);
        }
    }
}

} // verus!
