//! Low-level, bindless terminal handling: raw-mode control with guaranteed
//! restoration, a pollable model of asynchronous terminal input, and an
//! incremental decoder from raw bytes to typed input events.

use vstd::prelude::*;

pub mod decode;
pub mod decoder;
pub mod event;
pub mod raw;
pub mod reader;
pub mod session;
pub mod size;

verus! {

/// Prepares the process for emitting and receiving terminal escape sequences.
///
/// On platforms whose terminals interpret escape sequences by default there is
/// nothing to enable, so this does no work; it exists so callers can
/// unconditionally run one activation step at startup.
pub fn init() {
}

} // verus!
