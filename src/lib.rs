//! The frame-cycle engine of a live visual performance host, verified: the data model
//! of assets and render specs, the decode timing of video sources (continuous clock,
//! looping, frozen end of stream, seeking), the mixer's presentation clock, input
//! timing and uniform bindings, and the registry of live assets with its hot-reload
//! rules. Decoding, GPU work and the sandboxed visual program stay with the caller,
//! which performs what these state machines decide.
use vstd::prelude::*;

pub mod decode;
pub mod gfxinfo;
pub mod keycode;
pub mod mixer;
pub mod rational;
pub mod registry;
pub mod renderspec;
pub mod text;
pub mod uniforms;

verus! {

} // verus!
