//! The library's error types and their messages.
use vstd::prelude::*;

use crate::text::char_vec;

verus! {

/// Why a frame could not be rendered to the surface.
#[derive(Clone, Copy, Debug, PartialEq, Eq, Structural)]
pub enum SurfaceError {
    /// The surface texture is not available this frame (timeout or
    /// occluded).
    SkipFrame,
    /// The surface needs to be configured again.
    Outdated,
    /// The surface or the device was lost.
    Lost,
    /// The GPU ran out of memory.
    OutOfMemory,
}

/// The message of a surface error.
pub open spec fn surface_message(e: SurfaceError) -> Seq<char> {
    match e {
        SurfaceError::SkipFrame => "Surface not ready, skip frame"@,
        SurfaceError::Outdated => "Surface outdated"@,
        SurfaceError::Lost => "Surface lost"@,
        SurfaceError::OutOfMemory => "Out of memory"@,
    }
}

impl SurfaceError {
    /// The message of this error.
    pub fn message(&self) -> (s: String)
        ensures
            s@ == surface_message(*self),
    {
        match self {
            SurfaceError::SkipFrame => "Surface not ready, skip frame".to_owned(),
            SurfaceError::Outdated => "Surface outdated".to_owned(),
            SurfaceError::Lost => "Surface lost".to_owned(),
            SurfaceError::OutOfMemory => "Out of memory".to_owned(),
        }
    }
}

/// `std::io::Error`, carried by [`PlyError::Io`].
#[verifier::external_type_specification]
#[verifier::external_body]
pub struct ExIoError(std::io::Error);

/// Why a splat file could not be loaded.
pub enum PlyError {
    Io(std::io::Error),
    Parse(String),
    MissingProperty(String),
}

/// Renders an I/O error with its `Display` implementation.  What the text
/// says depends on the error and on the platform; nothing is claimed of it.
#[verifier::external_body]
fn io_error_text(e: &std::io::Error) -> String {
    format!("{}", e)
}

fn concat(a: &str, b: &str) -> (r: String)
    ensures
        r@ == a@ + b@,
{
    let mut cs = char_vec(a);
    let mut bs = char_vec(b);
    cs.append(&mut bs);
    crate::text::string_from_chars(cs.as_slice())
}

impl PlyError {
    /// The message of this error: `IO error: `, `Parse error: ` or
    /// `Missing property: ` followed by the detail.
    pub fn message(&self) -> (s: String)
        ensures
            match self {
                PlyError::Io(_) => s@.len() >= 10 && s@.take(10) == "IO error: "@,
                PlyError::Parse(d) => s@ == "Parse error: "@ + d@,
                PlyError::MissingProperty(d) => s@ == "Missing property: "@ + d@,
            },
    {
        match self {
            PlyError::Io(e) => {
                let t = io_error_text(e);
                let s = concat("IO error: ", t.as_str());
                proof {
                    reveal_strlit("IO error: ");
                    assert(s@.take(10) =~= "IO error: "@);
                }
                s
            },
            PlyError::Parse(d) => concat("Parse error: ", d.as_str()),
            PlyError::MissingProperty(d) => concat("Missing property: ", d.as_str()),
        }
    }

    /// The error of a failed read: the I/O error itself, carried as is.
    pub fn from_io(e: std::io::Error) -> (r: Self)
        ensures
            r == PlyError::Io(e),
    {
        PlyError::Io(e)
    }
}

impl From<std::io::Error> for PlyError {
    fn from(e: std::io::Error) -> (r: Self) {
        PlyError::Io(e)
    }
}

impl vstd::std_specs::convert::FromSpecImpl<std::io::Error> for PlyError {
    open spec fn obeys_from_spec() -> bool {
        true
    }

    open spec fn from_spec(e: std::io::Error) -> PlyError {
        PlyError::Io(e)
    }
}

} // verus!
