//! Newtype indices for terminal geometry.
//!
//! Rows and columns are kept apart at the type level so that a caller of
//! the capability interface cannot swap them by accident.  Both are
//! zero-based wherever this crate hands them out; the one-based positions
//! carried by control sequences are converted before delivery.
use vstd::prelude::*;

verus! {

/// A zero-based row index.
#[derive(Debug, Clone, Copy, PartialEq, Eq)]
pub struct Line(pub usize);

/// A zero-based column index.
#[derive(Debug, Clone, Copy, PartialEq, Eq)]
pub struct Column(pub usize);

} // verus!
