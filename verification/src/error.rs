//! Error values for every fallible operation of the crate. Nothing here is
//! thrown: each fallible call returns one of these, and protocol misuse is
//! not represented at all, because the type-state machinery rejects it at
//! build time.

use vstd::prelude::*;

verus! {

/// A runtime failure surfaced to the caller. Backend failures keep the
/// numeric error code of the underlying compute API.
#[derive(Debug, PartialEq, Eq)]
pub enum Error {
    /// No accelerator device could be opened.
    DeviceUnavailable,
    /// The underlying compute API failed; the raw error code is preserved.
    Backend(i64),
    /// A free-form message.
    Msg(String),
    /// Allocation failed: a size overflow or device out-of-memory.
    AllocationFailed(String),
    /// A host-side length does not match the buffer's expected length.
    BufferSizeMismatch { expected: usize, actual: usize },
    /// Kernel source failed to build; the backend diagnostic is attached.
    CompileError(String),
    /// A map operation yielded a null or invalid host pointer.
    InvalidHostPointer,
}

} // verus!
