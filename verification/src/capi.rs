//! The logic behind the C interface that hosts use: status and parameter
//! type codes, where the runner executable is found, the window geometry
//! an instance remembers, and error text that C can hold.
use vstd::prelude::*;

use crate::registry::BinParamType;

verus! {

/// The status codes of the C interface.
#[derive(Clone, Copy, Debug, PartialEq, Eq, Structural)]
pub enum CuneusStatus {
    Success,
    Null,
    InvalidArgument,
    NotFound,
    IoError,
}

/// The parameter type codes of the C interface.
#[derive(Clone, Copy, Debug, PartialEq, Eq, Structural)]
pub enum CuneusParamType {
    F32,
    Color3,
    Action,
    String,
    Bool,
    Select,
}

/// The C code of a parameter type: the type of the same name.
pub open spec fn capi_param_type_spec(t: BinParamType) -> CuneusParamType {
    match t {
        BinParamType::F32 => CuneusParamType::F32,
        BinParamType::Color3 => CuneusParamType::Color3,
        BinParamType::Action => CuneusParamType::Action,
        BinParamType::String => CuneusParamType::String,
        BinParamType::Bool => CuneusParamType::Bool,
        BinParamType::Select => CuneusParamType::Select,
    }
}

/// The C code of a parameter type.
pub fn capi_param_type(param_type: BinParamType) -> (r: CuneusParamType)
    ensures
        r == capi_param_type_spec(param_type),
{
    match param_type {
        BinParamType::F32 => CuneusParamType::F32,
        BinParamType::Color3 => CuneusParamType::Color3,
        BinParamType::Action => CuneusParamType::Action,
        BinParamType::String => CuneusParamType::String,
        BinParamType::Bool => CuneusParamType::Bool,
        BinParamType::Select => CuneusParamType::Select,
    }
}

/// The number a status code has in C.
pub fn status_code(s: CuneusStatus) -> (r: u32)
    ensures
        r == match s {
            CuneusStatus::Success => 0u32,
            CuneusStatus::Null => 1u32,
            CuneusStatus::InvalidArgument => 2u32,
            CuneusStatus::NotFound => 3u32,
            CuneusStatus::IoError => 4u32,
        },
{
    match s {
        CuneusStatus::Success => 0,
        CuneusStatus::Null => 1,
        CuneusStatus::InvalidArgument => 2,
        CuneusStatus::NotFound => 3,
        CuneusStatus::IoError => 4,
    }
}

/// The number a parameter type code has in C.
pub fn param_type_code(t: CuneusParamType) -> (r: u32)
    ensures
        r == match t {
            CuneusParamType::F32 => 0u32,
            CuneusParamType::Color3 => 1u32,
            CuneusParamType::Action => 2u32,
            CuneusParamType::String => 3u32,
            CuneusParamType::Bool => 4u32,
            CuneusParamType::Select => 5u32,
        },
{
    match t {
        CuneusParamType::F32 => 0,
        CuneusParamType::Color3 => 1,
        CuneusParamType::Action => 2,
        CuneusParamType::String => 3,
        CuneusParamType::Bool => 4,
        CuneusParamType::Select => 5,
    }
}

/// The window size of a shader that the catalog gives none for.
pub const DEFAULT_WINDOW_WIDTH: u32 = 800;
pub const DEFAULT_WINDOW_HEIGHT: u32 = 600;

/// The window size an instance starts from: the catalog's size for its
/// shader, or 800 by 600.
pub fn default_window_dimensions(catalog: Option<(u32, u32)>) -> (r: (u32, u32))
    ensures
        r == match catalog {
            Some(d) => d,
            None => (800u32, 600u32),
        },
{
    match catalog {
        Some(d) => d,
        None => (DEFAULT_WINDOW_WIDTH, DEFAULT_WINDOW_HEIGHT),
    }
}

/// Which program runs a shader.
#[derive(Clone, Copy, Debug, PartialEq, Eq, Structural)]
pub enum RunnerChoice {
    /// The given path is itself the runner.
    GivenFile,
    /// The shared `acuneus_runner` in the given directory.
    SharedRunner,
    /// The shader's own executable in the given directory.
    PerBin,
}

/// Picks the program that runs a shader, and whether it is told the
/// shader's name: the given path when it is a file, else the shared
/// runner in that directory when it exists (both take the name), else the
/// shader's own executable (which takes no name).
pub fn runner_command(path_is_file: bool, shared_runner_exists: bool) -> (r: (RunnerChoice, bool))
    ensures
        r == if path_is_file {
            (RunnerChoice::GivenFile, true)
        } else if shared_runner_exists {
            (RunnerChoice::SharedRunner, true)
        } else {
            (RunnerChoice::PerBin, false)
        },
{
    if path_is_file {
        (RunnerChoice::GivenFile, true)
    } else if shared_runner_exists {
        (RunnerChoice::SharedRunner, true)
    } else {
        (RunnerChoice::PerBin, false)
    }
}

/// The bits of the `f32` 1.0.
pub const SCALE_ONE_BITS: u32 = 0x3f80_0000;

/// The window geometry that an instance remembers for its child window.
/// The scale is an `f32` held by its bits.
#[derive(Clone, Copy, Debug, PartialEq, Eq, Structural)]
pub struct WindowGeometry {
    pub x: i32,
    pub y: i32,
    pub scale_bits: u32,
    pub base_width: u32,
    pub base_height: u32,
}

impl WindowGeometry {
    /// The geometry of a new instance: at (100, 100), unscaled, at the
    /// shader's default size.
    pub fn new(base: (u32, u32)) -> (g: Self)
        ensures
            g == (WindowGeometry {
                x: 100,
                y: 100,
                scale_bits: SCALE_ONE_BITS,
                base_width: base.0,
                base_height: base.1,
            }),
    {
        WindowGeometry { x: 100, y: 100, scale_bits: SCALE_ONE_BITS, base_width: base.0, base_height: base.1 }
    }

    /// Moves the window.
    pub fn set_position(&mut self, x: i32, y: i32)
        ensures
            *final(self) == (WindowGeometry { x, y, ..*old(self) }),
    {
        self.x = x;
        self.y = y;
    }

    /// Sets the window's scale (the bits of an `f32` already limited below
    /// by the caller).
    pub fn set_scale_bits(&mut self, scale_bits: u32)
        ensures
            *final(self) == (WindowGeometry { scale_bits, ..*old(self) }),
    {
        self.scale_bits = scale_bits;
    }

    /// Sets the window's base size, each side at least 1, and drops the
    /// scale back to 1.
    pub fn set_size(&mut self, width: u32, height: u32)
        ensures
            *final(self) == (WindowGeometry {
                base_width: if width < 1 { 1 } else { width },
                base_height: if height < 1 { 1 } else { height },
                scale_bits: SCALE_ONE_BITS,
                ..*old(self)
            }),
    {
        self.base_width = if width < 1 {
            1
        } else {
            width
        };
        self.base_height = if height < 1 {
            1
        } else {
            height
        };
        self.scale_bits = SCALE_ONE_BITS;
    }

    /// The window's position: where the child window really is when that
    /// could be asked, else the remembered one; either way it is then
    /// remembered.
    pub fn refresh_position(&mut self, queried: Option<(i32, i32)>) -> (p: (i32, i32))
        ensures
            p == match queried {
                Some(q) => q,
                None => (old(self).x, old(self).y),
            },
            *final(self) == (WindowGeometry { x: p.0, y: p.1, ..*old(self) }),
    {
        let p = match queried {
            Some(q) => q,
            None => (self.x, self.y),
        };
        self.x = p.0;
        self.y = p.1;
        p
    }
}

/// The longest spectrum a host can send.
pub const SPECTRUM_LEN: usize = 69;

/// How many of `count` spectrum values are sent: at most 69.
pub fn spectrum_send_count(count: usize) -> (r: usize)
    ensures
        r == if count < 69 { count } else { 69 },
{
    if count < SPECTRUM_LEN {
        count
    } else {
        SPECTRUM_LEN
    }
}

/// Error text that a C string can hold: each NUL character becomes a
/// space.
pub open spec fn without_nul(s: Seq<char>) -> Seq<char> {
    s.map_values(|c: char| if c == '\0' { ' ' } else { c })
}

/// Makes error text safe for a C string.
pub fn sanitize_error(message: &str) -> (r: String)
    ensures
        r@ == without_nul(message@),
{
    let cs = crate::text::char_vec(message);
    let mut out: Vec<char> = Vec::new();
    let mut i: usize = 0;
    while i < cs.len()
        invariant
            cs@ == message@,
            i <= cs@.len(),
            out@ == without_nul(cs@.take(i as int)),
        decreases cs@.len() - i,
    {
        let c = cs[i];
        out.push(if c == '\0' {
            ' '
        } else {
            c
        });
        assert(without_nul(cs@.take(i + 1)) =~= without_nul(cs@.take(i as int)).push(
            if c == '\0' {
                ' '
            } else {
                c
            },
        ));
        i = i + 1;
    }
    assert(cs@.take(cs@.len() as int) =~= cs@);
    crate::text::string_from_chars(out.as_slice())
}

/// The shader a runner is asked for: its first argument without a
/// `cuneus-` prefix, or `roto`.
pub open spec fn runner_bin_spec(arg: Option<Seq<char>>) -> Seq<char> {
    match arg {
        Some(a) => if a.len() >= 7 && a.take(7) == "cuneus-"@ {
            a.skip(7)
        } else {
            a
        },
        None => "roto"@,
    }
}

/// The shader a runner is asked for.
pub fn runner_bin_name(arg: Option<&str>) -> (r: String)
    ensures
        r@ == runner_bin_spec(
            match arg {
                Some(a) => Some(a@),
                None => None,
            },
        ),
{
    proof {
        reveal_strlit("cuneus-");
    }
    match arg {
        Some(a) => {
            let cs = crate::text::char_vec(a);
            if crate::text::chars_start_with(&cs, "cuneus-") {
                assert(cs@.subrange(7, cs@.len() as int) =~= cs@.skip(7));
                crate::text::string_from_range(cs.as_slice(), 7, cs.len())
            } else {
                a.to_owned()
            }
        },
        None => "roto".to_owned(),
    }
}

/// The file name of a shader's own executable (before any platform
/// extension): `roto` for `roto`, else `cuneus-` and the name.
pub open spec fn bin_executable_spec(bin: Seq<char>) -> Seq<char> {
    if bin == "roto"@ {
        "roto"@
    } else {
        "cuneus-"@ + bin
    }
}

/// The file name of a shader's own executable.
pub fn bin_executable_name(bin: &str) -> (r: String)
    ensures
        r@ == bin_executable_spec(bin@),
{
    if crate::text::str_eq(bin, "roto") {
        "roto".to_owned()
    } else {
        let mut cs = crate::text::char_vec("cuneus-");
        let mut bs = crate::text::char_vec(bin);
        cs.append(&mut bs);
        crate::text::string_from_chars(cs.as_slice())
    }
}

/// Whether an environment variable is passed on to a shader process: its
/// name starts with `CUNEUS_`.
pub fn is_forwarded_env(name: &str) -> (b: bool)
    ensures
        b == (name@.len() >= 7 && name@.take(7) == "CUNEUS_"@),
{
    proof {
        reveal_strlit("CUNEUS_");
    }
    crate::text::chars_start_with(&crate::text::char_vec(name), "CUNEUS_")
}

} // verus!
