//! Core of a terminal control-sequence interpreter.
//!
//! The crate turns decoded lexical events of an ANSI/VT byte stream --
//! printable characters, single-byte control codes, and completed
//! escape/control sequences -- into typed terminal operations, delivered
//! through the capability trait [`ansi::Handler`].  The byte-level state
//! machine that produces those events is an external collaborator; this
//! crate is the part that applies parameter defaulting, decodes color
//! sub-specifications, resolves mode namespaces, and guarantees that
//! malformed input degrades to no-ops instead of faults.
use vstd::prelude::*;

pub mod ansi;
pub mod index;

verus! {

/// A 24-bit color given by three channel values, each in 0..=255.
///
/// Building one from a parameter list with an out-of-range channel is a
/// parse failure, never a clamp; see [`ansi::parse_color`].
#[derive(Debug, Clone, Copy, PartialEq, Eq)]
pub struct Rgb {
    pub r: u8,
    pub g: u8,
    pub b: u8,
}

} // verus!
