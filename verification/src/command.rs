//! The remote command set and its plain-text protocol: one command per
//! UDP datagram, a keyword followed by whitespace-separated arguments.
use vstd::prelude::*;

use crate::number::{float_literal, is_float_literal, lemma_float_literal_token};
use crate::text::{
    all_digits, decimal, is_token, lemma_decimal_token, lemma_parse_i32_decimal, lemma_parse_u32_decimal,
    lemma_signed_decimal_token, lemma_tokens_join, lemma_tokens_split, signed_decimal, u32_to_text, i32_to_text,
    ascii_lower, char_vec, join_from, join_space, parse_i32, parse_i32_spec, parse_u32, parse_u32_spec,
    split_whitespace, str_eq, string_from_range, to_ascii_lower, tokens, trim, trim_bounds, views,
};

verus! {

/// A numeric argument as it arrived.  The host turns it into an `f32`; a
/// text argument is always a number's text (see `float_literal`).
pub enum Scalar {
    /// A token of a text command.
    Text(String),
    /// The bits of an OSC `float` (`f`).
    F32Bits(u32),
    /// The bits of an OSC `double` (`d`).
    F64Bits(u64),
    /// An OSC `int` (`i`).
    I32(i32),
    /// An OSC `long` (`h`).
    I64(i64),
}

/// The model of a [`Scalar`].
pub enum ScalarV {
    Text(Seq<char>),
    F32Bits(u32),
    F64Bits(u64),
    I32(i32),
    I64(i64),
}

impl View for Scalar {
    type V = ScalarV;

    open spec fn view(&self) -> ScalarV {
        match self {
            Scalar::Text(t) => ScalarV::Text(t@),
            Scalar::F32Bits(b) => ScalarV::F32Bits(*b),
            Scalar::F64Bits(b) => ScalarV::F64Bits(*b),
            Scalar::I32(v) => ScalarV::I32(*v),
            Scalar::I64(v) => ScalarV::I64(*v),
        }
    }
}

/// The views of a sequence of scalars.
pub open spec fn scalar_views(v: Seq<Scalar>) -> Seq<ScalarV> {
    v.map_values(|s: Scalar| s@)
}

/// A command sent to a running shader by a host.
#[allow(inconsistent_fields)]
pub enum RemoteCommand {
    SetF32 { id: String, value: Scalar },
    SetColor3 { id: String, r: Scalar, g: Scalar, b: Scalar },
    SetString { id: String, value: String },
    SetBool { id: String, value: bool },
    Pulse { velocity: Scalar },
    Note { pitch: Scalar, velocity: Scalar },
    Transport { bpm: Scalar, beat: Scalar, measure: Scalar },
    OverlayVisible { visible: bool },
    ToggleOverlay,
    TitleBarVisible { visible: bool },
    HideTitleBar,
    WindowTitle { title: String },
    WindowPosition { x: i32, y: i32 },
    WindowScale { scale: Scalar },
    WindowSize { width: u32, height: u32 },
    Time { seconds: Scalar },
    Fps { fps: Scalar },
    Resolution { width: u32, height: u32 },
    AudioSpectrum { values: Vec<Scalar> },
    /// `value` is `None` when the command names no value; the host then uses 1.
    Action { id: String, value: Option<Scalar> },
    LoadMedia { path: String },
    Discover,
    Subscribe { enabled: bool },
}

/// The model of a [`RemoteCommand`].
#[allow(inconsistent_fields)]
pub enum CommandV {
    SetF32 { id: Seq<char>, value: ScalarV },
    SetColor3 { id: Seq<char>, r: ScalarV, g: ScalarV, b: ScalarV },
    SetString { id: Seq<char>, value: Seq<char> },
    SetBool { id: Seq<char>, value: bool },
    Pulse { velocity: ScalarV },
    Note { pitch: ScalarV, velocity: ScalarV },
    Transport { bpm: ScalarV, beat: ScalarV, measure: ScalarV },
    OverlayVisible { visible: bool },
    ToggleOverlay,
    TitleBarVisible { visible: bool },
    HideTitleBar,
    WindowTitle { title: Seq<char> },
    WindowPosition { x: i32, y: i32 },
    WindowScale { scale: ScalarV },
    WindowSize { width: u32, height: u32 },
    Time { seconds: ScalarV },
    Fps { fps: ScalarV },
    Resolution { width: u32, height: u32 },
    AudioSpectrum { values: Seq<ScalarV> },
    Action { id: Seq<char>, value: Option<ScalarV> },
    LoadMedia { path: Seq<char> },
    Discover,
    Subscribe { enabled: bool },
}

impl View for RemoteCommand {
    type V = CommandV;

    open spec fn view(&self) -> CommandV {
        match self {
            RemoteCommand::SetF32 { id, value } => CommandV::SetF32 { id: id@, value: value@ },
            RemoteCommand::SetColor3 { id, r, g, b } => CommandV::SetColor3 {
                id: id@,
                r: r@,
                g: g@,
                b: b@,
            },
            RemoteCommand::SetString { id, value } => CommandV::SetString {
                id: id@,
                value: value@,
            },
            RemoteCommand::SetBool { id, value } => CommandV::SetBool { id: id@, value: *value },
            RemoteCommand::Pulse { velocity } => CommandV::Pulse { velocity: velocity@ },
            RemoteCommand::Note { pitch, velocity } => CommandV::Note {
                pitch: pitch@,
                velocity: velocity@,
            },
            RemoteCommand::Transport { bpm, beat, measure } => CommandV::Transport {
                bpm: bpm@,
                beat: beat@,
                measure: measure@,
            },
            RemoteCommand::OverlayVisible { visible } => CommandV::OverlayVisible {
                visible: *visible,
            },
            RemoteCommand::ToggleOverlay => CommandV::ToggleOverlay,
            RemoteCommand::TitleBarVisible { visible } => CommandV::TitleBarVisible {
                visible: *visible,
            },
            RemoteCommand::HideTitleBar => CommandV::HideTitleBar,
            RemoteCommand::WindowTitle { title } => CommandV::WindowTitle { title: title@ },
            RemoteCommand::WindowPosition { x, y } => CommandV::WindowPosition { x: *x, y: *y },
            RemoteCommand::WindowScale { scale } => CommandV::WindowScale { scale: scale@ },
            RemoteCommand::WindowSize { width, height } => CommandV::WindowSize {
                width: *width,
                height: *height,
            },
            RemoteCommand::Time { seconds } => CommandV::Time { seconds: seconds@ },
            RemoteCommand::Fps { fps } => CommandV::Fps { fps: fps@ },
            RemoteCommand::Resolution { width, height } => CommandV::Resolution {
                width: *width,
                height: *height,
            },
            RemoteCommand::AudioSpectrum { values } => CommandV::AudioSpectrum {
                values: scalar_views(values@),
            },
            RemoteCommand::Action { id, value } => CommandV::Action {
                id: id@,
                value: match value {
                    Some(v) => Some(v@),
                    None => None,
                },
            },
            RemoteCommand::LoadMedia { path } => CommandV::LoadMedia { path: path@ },
            RemoteCommand::Discover => CommandV::Discover,
            RemoteCommand::Subscribe { enabled } => CommandV::Subscribe { enabled: *enabled },
        }
    }
}

/// The text ASCII-lower-cased.
pub open spec fn lower(s: Seq<char>) -> Seq<char> {
    s.map_values(|c: char| ascii_lower(c))
}

/// A boolean argument of a text command: anything but `0`, `false`, `off`
/// and `no` (in any ASCII case) is true.
pub open spec fn bool_text(v: Seq<char>) -> bool {
    let l = lower(v);
    !(l == seq!['0'] || l == seq!['f', 'a', 'l', 's', 'e'] || l == seq!['o', 'f', 'f'] || l
        == seq!['n', 'o'])
}

/// Reads a boolean argument of a text command.
pub fn parse_bool_text(value: &str) -> (b: bool)
    ensures
        b == bool_text(value@),
{
    let cs = char_vec(value);
    let mut l: Vec<char> = Vec::new();
    let mut i: usize = 0;
    while i < cs.len()
        invariant
            cs@ == value@,
            i <= cs@.len(),
            l@ == lower(cs@.take(i as int)),
        decreases cs@.len() - i,
    {
        l.push(to_ascii_lower(cs[i]));
        assert(lower(cs@.take(i + 1)) =~= lower(cs@.take(i as int)).push(ascii_lower(cs@[i as int])));
        i = i + 1;
    }
    assert(cs@.take(cs@.len() as int) =~= cs@);
    let n = l.len();
    let is_zero = n == 1 && l[0] == '0';
    let is_false = n == 5 && l[0] == 'f' && l[1] == 'a' && l[2] == 'l' && l[3] == 's' && l[4]
        == 'e';
    let is_off = n == 3 && l[0] == 'o' && l[1] == 'f' && l[2] == 'f';
    let is_no = n == 2 && l[0] == 'n' && l[1] == 'o';
    proof {
        let z = seq!['0'];
        let f = seq!['f', 'a', 'l', 's', 'e'];
        let o = seq!['o', 'f', 'f'];
        let nn = seq!['n', 'o'];
        assert(is_zero == (l@ == z)) by {
            if is_zero {
                assert(l@ =~= z);
            }
        }
        assert(is_false == (l@ == f)) by {
            if is_false {
                assert(l@ =~= f);
            }
            if l@ == f {
                assert(l@[1] == f[1] && l@[2] == f[2] && l@[3] == f[3] && l@[4] == f[4]);
            }
        }
        assert(is_off == (l@ == o)) by {
            if is_off {
                assert(l@ =~= o);
            }
            if l@ == o {
                assert(l@[1] == o[1] && l@[2] == o[2]);
            }
        }
        assert(is_no == (l@ == nn)) by {
            if is_no {
                assert(l@ =~= nn);
            }
            if l@ == nn {
                assert(l@[1] == nn[1]);
            }
        }
    }
    !(is_zero || is_false || is_off || is_no)
}

/// A path argument with surrounding whitespace removed and, when the
/// path is wrapped in a pair of double or of single quotes, without them.
pub open spec fn unquoted_path(v: Seq<char>) -> Seq<char> {
    let t = trim(v);
    if t.len() >= 2 && ((t[0] == '"' && t.last() == '"') || (t[0] == '\'' && t.last() == '\'')) {
        t.subrange(1, t.len() - 1)
    } else {
        t
    }
}

/// The media path that a `load_media` argument names.
pub fn media_path_from_string(value: String) -> (p: String)
    ensures
        p@ == unquoted_path(value@),
{
    let cs = char_vec(value.as_str());
    let (lo, hi) = trim_bounds(cs.as_slice());
    let ghost t = cs@.subrange(lo as int, hi as int);
    if hi - lo >= 2 && ((cs[lo] == '"' && cs[hi - 1] == '"') || (cs[lo] == '\'' && cs[hi - 1]
        == '\'')) {
        assert(t[0] == cs@[lo as int] && t.last() == cs@[hi - 1]);
        assert(t.subrange(1, t.len() - 1) =~= cs@.subrange(lo + 1, hi - 1));
        string_from_range(cs.as_slice(), lo + 1, hi - 1)
    } else {
        proof {
            if t.len() >= 2 {
                assert(t[0] == cs@[lo as int] && t.last() == cs@[hi - 1]);
            }
        }
        string_from_range(cs.as_slice(), lo, hi)
    }
}

/// The view of an optional command.
pub open spec fn command_opt_view(c: Option<RemoteCommand>) -> Option<CommandV> {
    match c {
        Some(c) => Some(c@),
        None => None,
    }
}

/// A flag argument of `overlay_visible`, `title_bar_visible` and
/// `subscribe`: true unless it is the text `0`; true when absent.
pub open spec fn flag_arg(t: Seq<Seq<char>>, i: int) -> bool {
    if t.len() > i {
        t[i] != seq!['0']
    } else {
        true
    }
}

/// The words of `ws` that are numbers, in order.
pub open spec fn float_words(ws: Seq<Seq<char>>) -> Seq<Seq<char>>
    decreases ws.len(),
{
    if ws.len() == 0 {
        seq![]
    } else if float_literal(ws.last()) {
        float_words(ws.drop_last()).push(ws.last())
    } else {
        float_words(ws.drop_last())
    }
}

proof fn lemma_float_words_all(ws: Seq<Seq<char>>)
    requires
        forall|i: int| 0 <= i < ws.len() ==> float_literal(#[trigger] ws[i]),
    ensures
        float_words(ws) == ws,
    decreases ws.len(),
{
    if ws.len() > 0 {
        lemma_float_words_all(ws.drop_last());
        assert(ws.drop_last().push(ws.last()) =~= ws);
    }
}

/// The command that a text datagram split into the words `t` denotes.
/// Numeric arguments must be numbers as `f32` reads them: a command with
/// one that is not is no command, except that a spectrum keeps only its
/// numbers (and is no command without any) and an action's value that is
/// not a number counts as absent.
pub open spec fn text_command(t: Seq<Seq<char>>) -> Option<CommandV> {
    let n = t.len();
    if n == 0 {
        None
    } else {
        let k = t[0];
        if k == "set_f32"@ {
            if n >= 3 && float_literal(t[2]) {
                Some(CommandV::SetF32 { id: t[1], value: ScalarV::Text(t[2]) })
            } else {
                None
            }
        } else if k == "set_color3"@ {
            if n >= 5 && float_literal(t[2]) && float_literal(t[3]) && float_literal(t[4]) {
                Some(
                    CommandV::SetColor3 {
                        id: t[1],
                        r: ScalarV::Text(t[2]),
                        g: ScalarV::Text(t[3]),
                        b: ScalarV::Text(t[4]),
                    },
                )
            } else {
                None
            }
        } else if k == "set_string"@ {
            if n >= 2 {
                Some(CommandV::SetString { id: t[1], value: join_space(t.skip(2)) })
            } else {
                None
            }
        } else if k == "set_bool"@ {
            if n >= 2 {
                Some(
                    CommandV::SetBool {
                        id: t[1],
                        value: if n >= 3 {
                            bool_text(t[2])
                        } else {
                            true
                        },
                    },
                )
            } else {
                None
            }
        } else if k == "pulse"@ {
            if n >= 2 && float_literal(t[1]) {
                Some(CommandV::Pulse { velocity: ScalarV::Text(t[1]) })
            } else {
                None
            }
        } else if k == "note"@ {
            if n >= 3 && float_literal(t[1]) && float_literal(t[2]) {
                Some(CommandV::Note { pitch: ScalarV::Text(t[1]), velocity: ScalarV::Text(t[2]) })
            } else {
                None
            }
        } else if k == "transport"@ {
            if n >= 4 && float_literal(t[1]) && float_literal(t[2]) && float_literal(t[3]) {
                Some(
                    CommandV::Transport {
                        bpm: ScalarV::Text(t[1]),
                        beat: ScalarV::Text(t[2]),
                        measure: ScalarV::Text(t[3]),
                    },
                )
            } else {
                None
            }
        } else if k == "overlay_visible"@ {
            Some(CommandV::OverlayVisible { visible: flag_arg(t, 1) })
        } else if k == "toggle_overlay"@ {
            Some(CommandV::ToggleOverlay)
        } else if k == "title_bar_visible"@ {
            Some(CommandV::TitleBarVisible { visible: flag_arg(t, 1) })
        } else if k == "hide_title_bar"@ {
            Some(CommandV::HideTitleBar)
        } else if k == "window_title"@ {
            Some(CommandV::WindowTitle { title: join_space(t.skip(1)) })
        } else if k == "window_position"@ {
            if n >= 3 && parse_i32_spec(t[1]) is Some && parse_i32_spec(t[2]) is Some {
                Some(
                    CommandV::WindowPosition {
                        x: parse_i32_spec(t[1])->0,
                        y: parse_i32_spec(t[2])->0,
                    },
                )
            } else {
                None
            }
        } else if k == "window_scale"@ {
            if n >= 2 && float_literal(t[1]) {
                Some(CommandV::WindowScale { scale: ScalarV::Text(t[1]) })
            } else {
                None
            }
        } else if k == "window_size"@ {
            if n >= 3 && parse_u32_spec(t[1]) is Some && parse_u32_spec(t[2]) is Some {
                Some(
                    CommandV::WindowSize {
                        width: parse_u32_spec(t[1])->0,
                        height: parse_u32_spec(t[2])->0,
                    },
                )
            } else {
                None
            }
        } else if k == "time"@ {
            if n >= 2 && float_literal(t[1]) {
                Some(CommandV::Time { seconds: ScalarV::Text(t[1]) })
            } else {
                None
            }
        } else if k == "fps"@ {
            if n >= 2 && float_literal(t[1]) {
                Some(CommandV::Fps { fps: ScalarV::Text(t[1]) })
            } else {
                None
            }
        } else if k == "resolution"@ {
            if n >= 3 && parse_u32_spec(t[1]) is Some && parse_u32_spec(t[2]) is Some {
                Some(
                    CommandV::Resolution {
                        width: parse_u32_spec(t[1])->0,
                        height: parse_u32_spec(t[2])->0,
                    },
                )
            } else {
                None
            }
        } else if k == "audio_spectrum"@ {
            if float_words(t.skip(1)).len() > 0 {
                Some(
                    CommandV::AudioSpectrum {
                        values: float_words(t.skip(1)).map_values(|w: Seq<char>| ScalarV::Text(w)),
                    },
                )
            } else {
                None
            }
        } else if k == "action"@ {
            if n >= 2 {
                Some(
                    CommandV::Action {
                        id: t[1],
                        value: if n >= 3 && float_literal(t[2]) {
                            Some(ScalarV::Text(t[2]))
                        } else {
                            None
                        },
                    },
                )
            } else {
                None
            }
        } else if k == "load_media"@ {
            Some(CommandV::LoadMedia { path: join_space(t.skip(1)) })
        } else if k == "discover"@ {
            Some(CommandV::Discover)
        } else if k == "subscribe"@ {
            Some(CommandV::Subscribe { enabled: flag_arg(t, 1) })
        } else {
            None
        }
    }
}

fn text_scalar(toks: &Vec<String>, i: usize) -> (s: Scalar)
    requires
        i < toks@.len(),
    ensures
        s@ == ScalarV::Text(toks@[i as int]@),
{
    Scalar::Text(toks[i].clone())
}

fn num_at(toks: &Vec<String>, i: usize) -> (b: bool)
    requires
        i < toks@.len(),
    ensures
        b == float_literal(toks@[i as int]@),
{
    is_float_literal(toks[i].as_str())
}

fn flag_at(toks: &Vec<String>, i: usize) -> (b: bool)
    ensures
        b == flag_arg(views(toks@), i as int),
{
    if toks.len() > i {
        let z = str_eq(toks[i].as_str(), "0");
        proof {
            reveal_strlit("0");
            assert("0"@ =~= seq!['0']);
        }
        !z
    } else {
        true
    }
}

/// Reads a text command: the keyword and arguments of `text`, separated
/// by whitespace.
pub fn parse_text_command(text: &str) -> (r: Option<RemoteCommand>)
    ensures
        command_opt_view(r) == text_command(tokens(text@)),
{
    let toks = split_whitespace(text);
    let ghost t = views(toks@);
    assert(t =~= tokens(text@));
    let n = toks.len();
    if n == 0 {
        return None;
    }
    let k = toks[0].as_str();
    if str_eq(k, "set_f32") {
        if n >= 3 && num_at(&toks, 2) {
            Some(RemoteCommand::SetF32 { id: toks[1].clone(), value: text_scalar(&toks, 2) })
        } else {
            None
        }
    } else if str_eq(k, "set_color3") {
        if n >= 5 && num_at(&toks, 2) && num_at(&toks, 3) && num_at(&toks, 4) {
            Some(
                RemoteCommand::SetColor3 {
                    id: toks[1].clone(),
                    r: text_scalar(&toks, 2),
                    g: text_scalar(&toks, 3),
                    b: text_scalar(&toks, 4),
                },
            )
        } else {
            None
        }
    } else if str_eq(k, "set_string") {
        if n >= 2 {
            Some(RemoteCommand::SetString { id: toks[1].clone(), value: join_from(&toks, 2) })
        } else {
            None
        }
    } else if str_eq(k, "set_bool") {
        if n >= 2 {
            let value = if n >= 3 {
                parse_bool_text(toks[2].as_str())
            } else {
                true
            };
            Some(RemoteCommand::SetBool { id: toks[1].clone(), value })
        } else {
            None
        }
    } else if str_eq(k, "pulse") {
        if n >= 2 && num_at(&toks, 1) {
            Some(RemoteCommand::Pulse { velocity: text_scalar(&toks, 1) })
        } else {
            None
        }
    } else if str_eq(k, "note") {
        if n >= 3 && num_at(&toks, 1) && num_at(&toks, 2) {
            Some(RemoteCommand::Note { pitch: text_scalar(&toks, 1), velocity: text_scalar(&toks, 2) })
        } else {
            None
        }
    } else if str_eq(k, "transport") {
        if n >= 4 && num_at(&toks, 1) && num_at(&toks, 2) && num_at(&toks, 3) {
            Some(
                RemoteCommand::Transport {
                    bpm: text_scalar(&toks, 1),
                    beat: text_scalar(&toks, 2),
                    measure: text_scalar(&toks, 3),
                },
            )
        } else {
            None
        }
    } else if str_eq(k, "overlay_visible") {
        Some(RemoteCommand::OverlayVisible { visible: flag_at(&toks, 1) })
    } else if str_eq(k, "toggle_overlay") {
        Some(RemoteCommand::ToggleOverlay)
    } else if str_eq(k, "title_bar_visible") {
        Some(RemoteCommand::TitleBarVisible { visible: flag_at(&toks, 1) })
    } else if str_eq(k, "hide_title_bar") {
        Some(RemoteCommand::HideTitleBar)
    } else if str_eq(k, "window_title") {
        Some(RemoteCommand::WindowTitle { title: join_from(&toks, 1) })
    } else if str_eq(k, "window_position") {
        if n >= 3 {
            match (parse_i32(toks[1].as_str()), parse_i32(toks[2].as_str())) {
                (Some(x), Some(y)) => Some(RemoteCommand::WindowPosition { x, y }),
                _ => None,
            }
        } else {
            None
        }
    } else if str_eq(k, "window_scale") {
        if n >= 2 && num_at(&toks, 1) {
            Some(RemoteCommand::WindowScale { scale: text_scalar(&toks, 1) })
        } else {
            None
        }
    } else if str_eq(k, "window_size") {
        if n >= 3 {
            match (parse_u32(toks[1].as_str()), parse_u32(toks[2].as_str())) {
                (Some(width), Some(height)) => Some(RemoteCommand::WindowSize { width, height }),
                _ => None,
            }
        } else {
            None
        }
    } else if str_eq(k, "time") {
        if n >= 2 && num_at(&toks, 1) {
            Some(RemoteCommand::Time { seconds: text_scalar(&toks, 1) })
        } else {
            None
        }
    } else if str_eq(k, "fps") {
        if n >= 2 && num_at(&toks, 1) {
            Some(RemoteCommand::Fps { fps: text_scalar(&toks, 1) })
        } else {
            None
        }
    } else if str_eq(k, "resolution") {
        if n >= 3 {
            match (parse_u32(toks[1].as_str()), parse_u32(toks[2].as_str())) {
                (Some(width), Some(height)) => Some(RemoteCommand::Resolution { width, height }),
                _ => None,
            }
        } else {
            None
        }
    } else if str_eq(k, "audio_spectrum") {
        let mut values: Vec<Scalar> = Vec::new();
        let mut i: usize = 1;
        assert(t.subrange(1, 1) =~= seq![]);
        while i < n
            invariant
                n == toks@.len(),
                t == views(toks@),
                1 <= i <= n,
                scalar_views(values@) =~= float_words(t.subrange(1, i as int)).map_values(
                    |w: Seq<char>| ScalarV::Text(w),
                ),
            decreases n - i,
        {
            let ghost before = values@;
            assert(t.subrange(1, i + 1).drop_last() =~= t.subrange(1, i as int));
            assert(t.subrange(1, i + 1).last() == t[i as int]);
            if num_at(&toks, i) {
                let v = text_scalar(&toks, i);
                values.push(v);
                assert(scalar_views(values@) =~= scalar_views(before).push(v@));
            }
            i = i + 1;
        }
        assert(t.subrange(1, n as int) =~= t.skip(1));
        if values.len() > 0 {
            Some(RemoteCommand::AudioSpectrum { values })
        } else {
            None
        }
    } else if str_eq(k, "action") {
        if n >= 2 {
            let value = if n >= 3 && num_at(&toks, 2) {
                Some(text_scalar(&toks, 2))
            } else {
                None
            };
            Some(RemoteCommand::Action { id: toks[1].clone(), value })
        } else {
            None
        }
    } else if str_eq(k, "load_media") {
        Some(RemoteCommand::LoadMedia { path: join_from(&toks, 1) })
    } else if str_eq(k, "discover") {
        Some(RemoteCommand::Discover)
    } else if str_eq(k, "subscribe") {
        Some(RemoteCommand::Subscribe { enabled: flag_at(&toks, 1) })
    } else {
        None
    }
}

/// The text of a scalar argument (empty for one that is not text).
pub open spec fn scalar_text(s: ScalarV) -> Seq<char> {
    match s {
        ScalarV::Text(t) => t,
        _ => Seq::empty(),
    }
}

/// A boolean written as `1` or `0`.
pub open spec fn bit_text(b: bool) -> Seq<char> {
    if b {
        seq!['1']
    } else {
        seq!['0']
    }
}

/// The text of a command as a host sends it: the keyword, then the
/// arguments, separated by single spaces.
pub open spec fn command_text_spec(c: CommandV) -> Seq<char> {
    match c {
        CommandV::SetF32 { id, value } => join_space(seq!["set_f32"@, id, scalar_text(value)]),
        CommandV::SetColor3 { id, r, g, b } => join_space(
            seq!["set_color3"@, id, scalar_text(r), scalar_text(g), scalar_text(b)],
        ),
        CommandV::SetString { id, value } => join_space(seq!["set_string"@, id]) + seq![' ']
            + value,
        CommandV::SetBool { id, value } => join_space(seq!["set_bool"@, id, bit_text(value)]),
        CommandV::Pulse { velocity } => join_space(seq!["pulse"@, scalar_text(velocity)]),
        CommandV::Note { pitch, velocity } => join_space(
            seq!["note"@, scalar_text(pitch), scalar_text(velocity)],
        ),
        CommandV::Transport { bpm, beat, measure } => join_space(
            seq!["transport"@, scalar_text(bpm), scalar_text(beat), scalar_text(measure)],
        ),
        CommandV::OverlayVisible { visible } => join_space(
            seq!["overlay_visible"@, bit_text(visible)],
        ),
        CommandV::ToggleOverlay => "toggle_overlay"@,
        CommandV::TitleBarVisible { visible } => join_space(
            seq!["title_bar_visible"@, bit_text(visible)],
        ),
        CommandV::HideTitleBar => "hide_title_bar"@,
        CommandV::WindowTitle { title } => "window_title"@ + seq![' '] + title,
        CommandV::WindowPosition { x, y } => join_space(
            seq!["window_position"@, signed_decimal(x as int), signed_decimal(y as int)],
        ),
        CommandV::WindowScale { scale } => join_space(seq!["window_scale"@, scalar_text(scale)]),
        CommandV::WindowSize { width, height } => join_space(
            seq!["window_size"@, decimal(width as nat), decimal(height as nat)],
        ),
        CommandV::Time { seconds } => join_space(seq!["time"@, scalar_text(seconds)]),
        CommandV::Fps { fps } => join_space(seq!["fps"@, scalar_text(fps)]),
        CommandV::Resolution { width, height } => join_space(
            seq!["resolution"@, decimal(width as nat), decimal(height as nat)],
        ),
        CommandV::AudioSpectrum { values } => join_space(
            seq!["audio_spectrum"@] + values.map_values(|v: ScalarV| scalar_text(v)),
        ),
        CommandV::Action { id, value } => match value {
            Some(v) => join_space(seq!["action"@, id, scalar_text(v)]),
            None => join_space(seq!["action"@, id]),
        },
        CommandV::LoadMedia { path } => "load_media"@ + seq![' '] + path,
        CommandV::Discover => "discover"@,
        CommandV::Subscribe { enabled } => join_space(seq!["subscribe"@, bit_text(enabled)]),
    }
}

/// Every scalar of the command is text.
pub open spec fn all_text(c: CommandV) -> bool {
    match c {
        CommandV::SetF32 { value, .. } => value is Text,
        CommandV::SetColor3 { r, g, b, .. } => r is Text && g is Text && b is Text,
        CommandV::Pulse { velocity } => velocity is Text,
        CommandV::Note { pitch, velocity } => pitch is Text && velocity is Text,
        CommandV::Transport { bpm, beat, measure } => bpm is Text && beat is Text && measure is Text,
        CommandV::WindowScale { scale } => scale is Text,
        CommandV::Time { seconds } => seconds is Text,
        CommandV::Fps { fps } => fps is Text,
        CommandV::AudioSpectrum { values } => forall|i: int|
            0 <= i < values.len() ==> (#[trigger] values[i]) is Text,
        CommandV::Action { value, .. } => value matches Some(v) ==> v is Text,
        _ => true,
    }
}

/// A text scalar that is a number's text.
pub open spec fn word(s: ScalarV) -> bool {
    s is Text && float_literal(scalar_text(s))
}

/// Free text whose words are separated by single spaces, with no
/// whitespace at either end.
pub open spec fn normalized(v: Seq<char>) -> bool {
    join_space(tokens(v)) == v
}

/// The command survives being written as text and read back: names are
/// single words, numbers are numbers' texts, free text is normalized, a
/// spectrum is not empty.
pub open spec fn text_sendable(c: CommandV) -> bool {
    match c {
        CommandV::SetF32 { id, value } => is_token(id) && word(value),
        CommandV::SetColor3 { id, r, g, b } => is_token(id) && word(r) && word(g) && word(b),
        CommandV::SetString { id, value } => is_token(id) && normalized(value),
        CommandV::SetBool { id, .. } => is_token(id),
        CommandV::Pulse { velocity } => word(velocity),
        CommandV::Note { pitch, velocity } => word(pitch) && word(velocity),
        CommandV::Transport { bpm, beat, measure } => word(bpm) && word(beat) && word(measure),
        CommandV::WindowTitle { title } => normalized(title),
        CommandV::WindowScale { scale } => word(scale),
        CommandV::Time { seconds } => word(seconds),
        CommandV::Fps { fps } => word(fps),
        CommandV::AudioSpectrum { values } => values.len() > 0 && forall|i: int|
            0 <= i < values.len() ==> word(#[trigger] values[i]),
        CommandV::Action { id, value } => is_token(id) && (value matches Some(v) ==> word(v)),
        CommandV::LoadMedia { path } => normalized(path),
        _ => true,
    }
}

fn owned(s: &str) -> (r: String)
    ensures
        r@ == s@,
{
    s.to_owned()
}

fn scalar_string(s: &Scalar) -> (r: String)
    requires
        s is Text,
    ensures
        r@ == scalar_text(s@),
{
    match s {
        Scalar::Text(t) => t.clone(),
        _ => String::new(),
    }
}

fn bit_string(b: bool) -> (r: String)
    ensures
        r@ == bit_text(b),
{
    let r = if b {
        owned("1")
    } else {
        owned("0")
    };
    proof {
        reveal_strlit("1");
        reveal_strlit("0");
    }
    r
}

fn words_text(words: &Vec<String>) -> (s: String)
    ensures
        s@ == join_space(views(words@)),
{
    let s = join_from(words, 0);
    assert(views(words@).skip(0) =~= views(words@));
    s
}

fn append_text(a: String, b: &String) -> (s: String)
    ensures
        s@ == a@ + seq![' '] + b@,
{
    let mut cs = char_vec(a.as_str());
    cs.push(' ');
    let mut bs = char_vec(b.as_str());
    cs.append(&mut bs);
    crate::text::string_from_chars(cs.as_slice())
}

/// The text of a command whose arguments are all text, as a host sends it.
pub fn command_text(c: &RemoteCommand) -> (s: String)
    requires
        all_text(c@),
    ensures
        s@ == command_text_spec(c@),
{
    let mut w: Vec<String> = Vec::new();
    match c {
        RemoteCommand::SetF32 { id, value } => {
            w.push(owned("set_f32"));
            w.push(id.clone());
            w.push(scalar_string(value));
        },
        RemoteCommand::SetColor3 { id, r, g, b } => {
            w.push(owned("set_color3"));
            w.push(id.clone());
            w.push(scalar_string(r));
            w.push(scalar_string(g));
            w.push(scalar_string(b));
        },
        RemoteCommand::SetString { id, value } => {
            w.push(owned("set_string"));
            w.push(id.clone());
            let head = words_text(&w);
            assert(views(w@) =~= seq!["set_string"@, id@]);
            return append_text(head, value);
        },
        RemoteCommand::SetBool { id, value } => {
            w.push(owned("set_bool"));
            w.push(id.clone());
            w.push(bit_string(*value));
        },
        RemoteCommand::Pulse { velocity } => {
            w.push(owned("pulse"));
            w.push(scalar_string(velocity));
        },
        RemoteCommand::Note { pitch, velocity } => {
            w.push(owned("note"));
            w.push(scalar_string(pitch));
            w.push(scalar_string(velocity));
        },
        RemoteCommand::Transport { bpm, beat, measure } => {
            w.push(owned("transport"));
            w.push(scalar_string(bpm));
            w.push(scalar_string(beat));
            w.push(scalar_string(measure));
        },
        RemoteCommand::OverlayVisible { visible } => {
            w.push(owned("overlay_visible"));
            w.push(bit_string(*visible));
        },
        RemoteCommand::ToggleOverlay => {
            return owned("toggle_overlay");
        },
        RemoteCommand::TitleBarVisible { visible } => {
            w.push(owned("title_bar_visible"));
            w.push(bit_string(*visible));
        },
        RemoteCommand::HideTitleBar => {
            return owned("hide_title_bar");
        },
        RemoteCommand::WindowTitle { title } => {
            return append_text(owned("window_title"), title);
        },
        RemoteCommand::WindowPosition { x, y } => {
            w.push(owned("window_position"));
            w.push(i32_to_text(*x));
            w.push(i32_to_text(*y));
        },
        RemoteCommand::WindowScale { scale } => {
            w.push(owned("window_scale"));
            w.push(scalar_string(scale));
        },
        RemoteCommand::WindowSize { width, height } => {
            w.push(owned("window_size"));
            w.push(u32_to_text(*width));
            w.push(u32_to_text(*height));
        },
        RemoteCommand::Time { seconds } => {
            w.push(owned("time"));
            w.push(scalar_string(seconds));
        },
        RemoteCommand::Fps { fps } => {
            w.push(owned("fps"));
            w.push(scalar_string(fps));
        },
        RemoteCommand::Resolution { width, height } => {
            w.push(owned("resolution"));
            w.push(u32_to_text(*width));
            w.push(u32_to_text(*height));
        },
        RemoteCommand::AudioSpectrum { values } => {
            w.push(owned("audio_spectrum"));
            assert forall|j: int| 0 <= j < values@.len() implies (#[trigger] values@[j])@ is Text by {
                assert(scalar_views(values@)[j] == values@[j]@);
            }
            let mut i: usize = 0;
            while i < values.len()
                invariant
                    i <= values@.len(),
                    forall|j: int| 0 <= j < values@.len() ==> (#[trigger] values@[j])@ is Text,
                    views(w@) =~= seq!["audio_spectrum"@] + scalar_views(values@).take(
                        i as int,
                    ).map_values(|v: ScalarV| scalar_text(v)),
                decreases values@.len() - i,
            {
                assert(scalar_views(values@)[i as int] == values@[i as int]@);
                let t = scalar_string(&values[i]);
                let ghost wb = w@;
                w.push(t);
                assert(views(w@) =~= views(wb).push(t@));
                assert(scalar_views(values@).take(i + 1) =~= scalar_views(values@).take(
                    i as int,
                ).push(values@[i as int]@));
                assert(scalar_views(values@).take(i + 1).map_values(|v: ScalarV| scalar_text(v))
                    =~= scalar_views(values@).take(i as int).map_values(|v: ScalarV| scalar_text(v)).push(
                    scalar_text(values@[i as int]@),
                ));
                i = i + 1;
            }
            assert(scalar_views(values@).take(values@.len() as int) =~= scalar_views(values@));
        },
        RemoteCommand::Action { id, value } => {
            w.push(owned("action"));
            w.push(id.clone());
            match value {
                Some(v) => {
                    w.push(scalar_string(v));
                },
                None => {},
            }
        },
        RemoteCommand::LoadMedia { path } => {
            return append_text(owned("load_media"), path);
        },
        RemoteCommand::Discover => {
            return owned("discover");
        },
        RemoteCommand::Subscribe { enabled } => {
            w.push(owned("subscribe"));
            w.push(bit_string(*enabled));
        },
    }
    let s = words_text(&w);
    assert(views(w@) =~= match c@ {
        CommandV::SetF32 { id, value } => seq!["set_f32"@, id, scalar_text(value)],
        CommandV::SetColor3 { id, r, g, b } => seq![
            "set_color3"@,
            id,
            scalar_text(r),
            scalar_text(g),
            scalar_text(b),
        ],
        CommandV::SetBool { id, value } => seq!["set_bool"@, id, bit_text(value)],
        CommandV::Pulse { velocity } => seq!["pulse"@, scalar_text(velocity)],
        CommandV::Note { pitch, velocity } => seq!["note"@, scalar_text(pitch), scalar_text(velocity)],
        CommandV::Transport { bpm, beat, measure } => seq![
            "transport"@,
            scalar_text(bpm),
            scalar_text(beat),
            scalar_text(measure),
        ],
        CommandV::OverlayVisible { visible } => seq!["overlay_visible"@, bit_text(visible)],
        CommandV::TitleBarVisible { visible } => seq!["title_bar_visible"@, bit_text(visible)],
        CommandV::WindowPosition { x, y } => seq![
            "window_position"@,
            signed_decimal(x as int),
            signed_decimal(y as int),
        ],
        CommandV::WindowScale { scale } => seq!["window_scale"@, scalar_text(scale)],
        CommandV::WindowSize { width, height } => seq![
            "window_size"@,
            decimal(width as nat),
            decimal(height as nat),
        ],
        CommandV::Time { seconds } => seq!["time"@, scalar_text(seconds)],
        CommandV::Fps { fps } => seq!["fps"@, scalar_text(fps)],
        CommandV::Resolution { width, height } => seq![
            "resolution"@,
            decimal(width as nat),
            decimal(height as nat),
        ],
        CommandV::AudioSpectrum { values } => seq!["audio_spectrum"@] + values.map_values(
            |v: ScalarV| scalar_text(v),
        ),
        CommandV::Action { id, value } => match value {
            Some(v) => seq!["action"@, id, scalar_text(v)],
            None => seq!["action"@, id],
        },
        CommandV::Subscribe { enabled } => seq!["subscribe"@, bit_text(enabled)],
        _ => views(w@),
    });
    s
}

/// Lower-case letters, digits and the underscore.
pub open spec fn keyword_char(c: char) -> bool {
    ('a' <= c && c <= 'z') || ('0' <= c && c <= '9') || c == '_'
}

proof fn lemma_keyword_token(k: Seq<char>)
    requires
        k.len() > 0,
        forall|i: int| 0 <= i < k.len() ==> keyword_char(#[trigger] k[i]),
    ensures
        is_token(k),
{
}

proof fn lemma_keywords()
    ensures
        is_token("set_f32"@),
        is_token("set_color3"@),
        is_token("set_string"@),
        is_token("set_bool"@),
        is_token("pulse"@),
        is_token("note"@),
        is_token("transport"@),
        is_token("overlay_visible"@),
        is_token("toggle_overlay"@),
        is_token("title_bar_visible"@),
        is_token("hide_title_bar"@),
        is_token("window_title"@),
        is_token("window_position"@),
        is_token("window_scale"@),
        is_token("window_size"@),
        is_token("time"@),
        is_token("fps"@),
        is_token("resolution"@),
        is_token("audio_spectrum"@),
        is_token("action"@),
        is_token("load_media"@),
        is_token("discover"@),
        is_token("subscribe"@),
{
    reveal_strlit("set_f32");
    reveal_strlit("set_color3");
    reveal_strlit("set_string");
    reveal_strlit("set_bool");
    reveal_strlit("pulse");
    reveal_strlit("note");
    reveal_strlit("transport");
    reveal_strlit("overlay_visible");
    reveal_strlit("toggle_overlay");
    reveal_strlit("title_bar_visible");
    reveal_strlit("hide_title_bar");
    reveal_strlit("window_title");
    reveal_strlit("window_position");
    reveal_strlit("window_scale");
    reveal_strlit("window_size");
    reveal_strlit("time");
    reveal_strlit("fps");
    reveal_strlit("resolution");
    reveal_strlit("audio_spectrum");
    reveal_strlit("action");
    reveal_strlit("load_media");
    reveal_strlit("discover");
    reveal_strlit("subscribe");
    lemma_keyword_token("set_f32"@);
    lemma_keyword_token("set_color3"@);
    lemma_keyword_token("set_string"@);
    lemma_keyword_token("set_bool"@);
    lemma_keyword_token("pulse"@);
    lemma_keyword_token("note"@);
    lemma_keyword_token("transport"@);
    lemma_keyword_token("overlay_visible"@);
    lemma_keyword_token("toggle_overlay"@);
    lemma_keyword_token("title_bar_visible"@);
    lemma_keyword_token("hide_title_bar"@);
    lemma_keyword_token("window_title"@);
    lemma_keyword_token("window_position"@);
    lemma_keyword_token("window_scale"@);
    lemma_keyword_token("window_size"@);
    lemma_keyword_token("time"@);
    lemma_keyword_token("fps"@);
    lemma_keyword_token("resolution"@);
    lemma_keyword_token("audio_spectrum"@);
    lemma_keyword_token("action"@);
    lemma_keyword_token("load_media"@);
    lemma_keyword_token("discover"@);
    lemma_keyword_token("subscribe"@);
}

proof fn lemma_keywords_distinct()
    ensures
        "set_color3"@ != "set_string"@,
        "set_color3"@ != "resolution"@,
        "set_color3"@ != "load_media"@,
        "set_string"@ != "resolution"@,
        "set_string"@ != "load_media"@,
        "set_bool"@ != "discover"@,
        "note"@ != "time"@,
        "transport"@ != "subscribe"@,
        "overlay_visible"@ != "window_position"@,
        "toggle_overlay"@ != "hide_title_bar"@,
        "toggle_overlay"@ != "audio_spectrum"@,
        "hide_title_bar"@ != "audio_spectrum"@,
        "window_title"@ != "window_scale"@,
        "resolution"@ != "load_media"@,
{
    reveal_strlit("set_f32");
    reveal_strlit("set_color3");
    reveal_strlit("set_string");
    reveal_strlit("set_bool");
    reveal_strlit("pulse");
    reveal_strlit("note");
    reveal_strlit("transport");
    reveal_strlit("overlay_visible");
    reveal_strlit("toggle_overlay");
    reveal_strlit("title_bar_visible");
    reveal_strlit("hide_title_bar");
    reveal_strlit("window_title");
    reveal_strlit("window_position");
    reveal_strlit("window_scale");
    reveal_strlit("window_size");
    reveal_strlit("time");
    reveal_strlit("fps");
    reveal_strlit("resolution");
    reveal_strlit("audio_spectrum");
    reveal_strlit("action");
    reveal_strlit("load_media");
    reveal_strlit("discover");
    reveal_strlit("subscribe");
    assert("set_color3"@[4] != "set_string"@[4]);
    assert("set_color3"@[0] != "resolution"@[0]);
    assert("set_color3"@[0] != "load_media"@[0]);
    assert("set_string"@[0] != "resolution"@[0]);
    assert("set_string"@[0] != "load_media"@[0]);
    assert("set_bool"@[0] != "discover"@[0]);
    assert("note"@[0] != "time"@[0]);
    assert("transport"@[0] != "subscribe"@[0]);
    assert("overlay_visible"@[0] != "window_position"@[0]);
    assert("toggle_overlay"@[0] != "hide_title_bar"@[0]);
    assert("toggle_overlay"@[0] != "audio_spectrum"@[0]);
    assert("hide_title_bar"@[0] != "audio_spectrum"@[0]);
    assert("window_title"@[7] != "window_scale"@[7]);
    assert("resolution"@[0] != "load_media"@[0]);
}

proof fn lemma_bit_text(b: bool)
    ensures
        is_token(bit_text(b)),
        bool_text(bit_text(b)) == b,
        (bit_text(b) != seq!['0']) == b,
{
    let t = bit_text(b);
    assert(lower(t) =~= t);
    if b {
        assert(t[0] == '1');
    }
}

proof fn lemma_word(s: ScalarV)
    requires
        word(s),
    ensures
        is_token(scalar_text(s)),
{
    lemma_float_literal_token(scalar_text(s));
}

proof fn lemma_words(ws: Seq<Seq<char>>)
    requires
        forall|i: int| 0 <= i < ws.len() ==> is_token(#[trigger] ws[i]),
    ensures
        tokens(join_space(ws)) == ws,
{
    lemma_tokens_join(ws);
}

/// Writing a command as text and reading the text back gives the command.
#[verifier::rlimit(80)]
#[verifier::spinoff_prover]
pub proof fn lemma_text_round_trip(c: CommandV)
    requires
        text_sendable(c),
    ensures
        text_command(tokens(command_text_spec(c))) == Some(c),
{
    reveal_strlit("set_f32");
    reveal_strlit("set_color3");
    reveal_strlit("set_string");
    reveal_strlit("set_bool");
    reveal_strlit("pulse");
    reveal_strlit("note");
    reveal_strlit("transport");
    reveal_strlit("overlay_visible");
    reveal_strlit("toggle_overlay");
    reveal_strlit("title_bar_visible");
    reveal_strlit("hide_title_bar");
    reveal_strlit("window_title");
    reveal_strlit("window_position");
    reveal_strlit("window_scale");
    reveal_strlit("window_size");
    reveal_strlit("time");
    reveal_strlit("fps");
    reveal_strlit("resolution");
    reveal_strlit("audio_spectrum");
    reveal_strlit("action");
    reveal_strlit("load_media");
    reveal_strlit("discover");
    reveal_strlit("subscribe");
    lemma_keywords();
    lemma_keywords_distinct();
    match c {
        CommandV::SetF32 { id, value } => {
            lemma_word(value);
            let ws = seq!["set_f32"@, id, scalar_text(value)];
            lemma_words(ws);
            assert(ScalarV::Text(ws[2]) == value);
            assert(text_command(tokens(command_text_spec(c))) == Some(c));
        },
        CommandV::SetColor3 { id, r, g, b } => {
            lemma_word(r);
            lemma_word(g);
            lemma_word(b);
            lemma_words(seq!["set_color3"@, id, scalar_text(r), scalar_text(g), scalar_text(b)]);
            assert(text_command(tokens(command_text_spec(c))) == Some(c));
        },
        CommandV::SetString { id, value } => {
            lemma_words(seq!["set_string"@, id]);
            lemma_tokens_split(join_space(seq!["set_string"@, id]), value);
            let t = tokens(command_text_spec(c));
            assert(t == seq!["set_string"@, id] + tokens(value));
            assert(t.skip(2) =~= tokens(value));
            assert(t[0] == "set_string"@ && t[1] == id);
            assert(text_command(tokens(command_text_spec(c))) == Some(c));
        },
        CommandV::SetBool { id, value } => {
            lemma_bit_text(value);
            lemma_words(seq!["set_bool"@, id, bit_text(value)]);
            assert(text_command(tokens(command_text_spec(c))) == Some(c));
        },
        CommandV::Pulse { velocity } => {
            lemma_word(velocity);
            lemma_words(seq!["pulse"@, scalar_text(velocity)]);
            assert(text_command(tokens(command_text_spec(c))) == Some(c));
        },
        CommandV::Note { pitch, velocity } => {
            lemma_word(pitch);
            lemma_word(velocity);
            lemma_words(seq!["note"@, scalar_text(pitch), scalar_text(velocity)]);
            assert(text_command(tokens(command_text_spec(c))) == Some(c));
        },
        CommandV::Transport { bpm, beat, measure } => {
            lemma_word(bpm);
            lemma_word(beat);
            lemma_word(measure);
            lemma_words(
                seq!["transport"@, scalar_text(bpm), scalar_text(beat), scalar_text(measure)],
            );
            assert(text_command(tokens(command_text_spec(c))) == Some(c));
        },
        CommandV::OverlayVisible { visible } => {
            lemma_bit_text(visible);
            lemma_words(seq!["overlay_visible"@, bit_text(visible)]);
            assert(text_command(tokens(command_text_spec(c))) == Some(c));
        },
        CommandV::ToggleOverlay => {
            lemma_words(seq!["toggle_overlay"@]);
            assert(text_command(tokens(command_text_spec(c))) == Some(c));
        },
        CommandV::TitleBarVisible { visible } => {
            lemma_bit_text(visible);
            lemma_words(seq!["title_bar_visible"@, bit_text(visible)]);
            assert(text_command(tokens(command_text_spec(c))) == Some(c));
        },
        CommandV::HideTitleBar => {
            lemma_words(seq!["hide_title_bar"@]);
            assert(text_command(tokens(command_text_spec(c))) == Some(c));
        },
        CommandV::WindowTitle { title } => {
            lemma_words(seq!["window_title"@]);
            lemma_tokens_split("window_title"@, title);
            let t = tokens(command_text_spec(c));
            assert(t.skip(1) =~= tokens(title));
            assert(text_command(tokens(command_text_spec(c))) == Some(c));
        },
        CommandV::WindowPosition { x, y } => {
            lemma_signed_decimal_token(x as int);
            lemma_signed_decimal_token(y as int);
            lemma_parse_i32_decimal(x);
            lemma_parse_i32_decimal(y);
            lemma_words(seq!["window_position"@, signed_decimal(x as int), signed_decimal(y as int)]);
            assert(text_command(tokens(command_text_spec(c))) == Some(c));
        },
        CommandV::WindowScale { scale } => {
            lemma_word(scale);
            lemma_words(seq!["window_scale"@, scalar_text(scale)]);
            assert(text_command(tokens(command_text_spec(c))) == Some(c));
        },
        CommandV::WindowSize { width, height } => {
            lemma_decimal_token(width as nat);
            lemma_decimal_token(height as nat);
            lemma_parse_u32_decimal(width);
            lemma_parse_u32_decimal(height);
            lemma_words(seq!["window_size"@, decimal(width as nat), decimal(height as nat)]);
            assert(text_command(tokens(command_text_spec(c))) == Some(c));
        },
        CommandV::Time { seconds } => {
            lemma_word(seconds);
            lemma_words(seq!["time"@, scalar_text(seconds)]);
            assert(text_command(tokens(command_text_spec(c))) == Some(c));
        },
        CommandV::Fps { fps } => {
            lemma_word(fps);
            lemma_words(seq!["fps"@, scalar_text(fps)]);
            assert(text_command(tokens(command_text_spec(c))) == Some(c));
        },
        CommandV::Resolution { width, height } => {
            lemma_decimal_token(width as nat);
            lemma_decimal_token(height as nat);
            lemma_parse_u32_decimal(width);
            lemma_parse_u32_decimal(height);
            lemma_words(seq!["resolution"@, decimal(width as nat), decimal(height as nat)]);
            assert(text_command(tokens(command_text_spec(c))) == Some(c));
        },
        CommandV::AudioSpectrum { values } => {
            let ws = seq!["audio_spectrum"@] + values.map_values(|v: ScalarV| scalar_text(v));
            assert forall|i: int| 0 <= i < ws.len() implies is_token(#[trigger] ws[i]) by {
                if i > 0 {
                    lemma_word(values[i - 1]);
                }
            }
            lemma_words(ws);
            assert(ws.skip(1).map_values(|w: Seq<char>| ScalarV::Text(w)) =~= values) by {
                assert forall|i: int| 0 <= i < values.len() implies ws.skip(1).map_values(
                    |w: Seq<char>| ScalarV::Text(w),
                )[i] == values[i] by {
                    assert(word(values[i]));
                }
            }
            assert(ws[0] == "audio_spectrum"@);
            assert forall|i: int| 0 <= i < ws.skip(1).len() implies float_literal(
                #[trigger] ws.skip(1)[i],
            ) by {
                assert(word(values[i]));
            }
            lemma_float_words_all(ws.skip(1));
            assert(text_command(ws) == Some(CommandV::AudioSpectrum { values: ws.skip(1).map_values(|w: Seq<char>| ScalarV::Text(w)) }));
            assert(text_command(tokens(command_text_spec(c))) == Some(c));
        },
        CommandV::Action { id, value } => {
            match value {
                Some(v) => {
                    lemma_word(v);
                    lemma_words(seq!["action"@, id, scalar_text(v)]);
                },
                None => {
                    lemma_words(seq!["action"@, id]);
                },
            }
            assert(text_command(tokens(command_text_spec(c))) == Some(c));
        },
        CommandV::LoadMedia { path } => {
            lemma_words(seq!["load_media"@]);
            lemma_tokens_split("load_media"@, path);
            let t = tokens(command_text_spec(c));
            assert(t.skip(1) =~= tokens(path));
            assert(text_command(tokens(command_text_spec(c))) == Some(c));
        },
        CommandV::Discover => {
            lemma_words(seq!["discover"@]);
            assert(text_command(tokens(command_text_spec(c))) == Some(c));
        },
        CommandV::Subscribe { enabled } => {
            lemma_bit_text(enabled);
            lemma_words(seq!["subscribe"@, bit_text(enabled)]);
            assert(text_command(tokens(command_text_spec(c))) == Some(c));
        },
    }
}

} // verus!
