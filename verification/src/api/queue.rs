//! The command queue: the ordering context against which commands are
//! submitted to the device. It is bound to the session that created it and
//! carries the session's brand, so submissions can only pair resources of
//! the same session.

use vstd::prelude::*;

verus! {

/// A command queue of one session. The brand lifetime is invariant, so a
/// queue can only be used with buffers and kernels of the same session.
#[must_use]
#[derive(Debug)]
pub struct Queue<'brand> {
    pub(crate) _brand: core::marker::PhantomData<&'brand mut &'brand ()>,
}

} // verus!
