//! Host-side control logic of the Acuneus shader runner: the remote
//! command protocol (text and OSC), the parameter catalog, the runtime
//! control state, and the integer planning behind GPU sorting, multi-pass
//! ping-pong buffers and frame export.
use vstd::prelude::*;

pub mod audio;
pub mod builder;
pub mod capi;
pub mod command;
pub mod compute;
pub mod datagram;
pub mod errors;
pub mod export;
pub mod feedback;
pub mod layout;
pub mod media;
pub mod number;
pub mod osc;
pub mod pingpong;
pub mod ply;
pub mod radix;
pub mod registry;
pub mod runtime;
pub mod synth;
pub mod text;

verus! {
} // verus!
