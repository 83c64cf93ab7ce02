//! Type-state markers for compile-time checking of device-buffer protocol
//! states. A buffer's state is part of its type, every transition consumes
//! its input, and no operation is offered on a state it is illegal in, so
//! the documented misuse classes (double-wait, read-while-in-flight,
//! launch-on-empty, and the rest) are build errors, not runtime errors.

use vstd::prelude::*;

verus! {

/// Common marker trait for all buffer states; sealed, so no further state
/// can be introduced outside this crate.
pub trait State: crate::sealed::Sealed {
}

/// Freshly allocated and uninitialized on the device: not host-readable and
/// not a valid compute argument.
#[derive(Debug, Clone, Copy, Default)]
pub struct Empty;

impl crate::sealed::Sealed for Empty {
}

impl State for Empty {
}

/// Synchronized with host-supplied data: host-readable and a valid compute
/// argument.
#[derive(Debug, Clone, Copy)]
pub struct Written;

impl crate::sealed::Sealed for Written {
}

impl State for Written {
}

/// Mapped for host access through a host-visible region; the device side
/// must not touch the buffer until it is unmapped.
#[derive(Debug, Clone, Copy)]
pub struct Mapped;

impl crate::sealed::Sealed for Mapped {
}

impl State for Mapped {
}

/// Owned by an outstanding asynchronous operation (kernel, read or write);
/// no host I/O and no further submission until the completion token is
/// consumed.
#[derive(Debug, Clone, Copy)]
pub struct InFlight;

impl crate::sealed::Sealed for InFlight {
}

impl State for InFlight {
}

/// A completed-and-synchronized marker kept for compatibility; the protocol
/// treats it as the same state as `Written`.
#[derive(Debug, Clone, Copy)]
pub struct Synchronized;

impl crate::sealed::Sealed for Synchronized {
}

impl State for Synchronized {
}

} // verus!
