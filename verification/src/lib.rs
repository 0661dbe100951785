//! A bridging layer that lets a text-based UI renderer treat a browser-hosted
//! terminal widget as a conventional terminal device.
//!
//! The widget itself (rendering, escape-sequence handling) is an external
//! collaborator; this crate owns the logic between it and the renderer:
//! an ordered, bounded queue of input fragments fed by host callbacks, a
//! session that records which optional capabilities were enabled, and a
//! byte-oriented output sink that decodes accumulated bytes as UTF-8 at
//! explicit flush boundaries.

use vstd::prelude::*;

pub mod bridge;
pub mod session;
pub mod sink;

verus! {

/// A recoverable failure reported by the terminal layer.
#[derive(Clone, Copy, PartialEq, Eq, Debug, Structural)]
pub enum TermError {
    /// A re-fit was requested but the auto-fit capability was not enabled
    /// at initialization.
    Unsupported,
    /// The bytes accumulated in the output sink did not form valid UTF-8
    /// at a flush boundary.
    InvalidData,
}

} // verus!
