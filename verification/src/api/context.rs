//! The session root. A `Context` owns one device session and is the root of
//! the invariant brand shared by every queue, buffer and kernel it creates;
//! two sessions never share a brand, so cross-session misuse is rejected
//! when the program is built, not when it runs.

use vstd::prelude::*;

use crate::api::device_buffer::DeviceBuffer;
use crate::api::queue::Queue;
use crate::error::Error;
use crate::scalar::KernelScalar;
use crate::state::Empty;

verus! {

/// One device session, root of the brand.
#[must_use]
#[derive(Debug)]
pub struct Context<'brand> {
    pub(crate) _brand: core::marker::PhantomData<&'brand mut &'brand ()>,
}

impl<'brand> Context<'brand> {
    /// Opens a session on the accelerator device. The shell around this
    /// library performs the real device discovery and refuses to construct
    /// a session when no device exists (`DeviceUnavailable`); the protocol
    /// core itself always has a session to give out.
    pub fn create_context() -> (r: Result<Context<'brand>, Error>)
        ensures
            r is Ok,
    {
        Ok(Context { _brand: core::marker::PhantomData })
    }

    /// Creates the command queue of this session, tied to its brand.
    pub fn create_queue(&'brand self) -> (r: Result<Queue<'brand>, Error>)
        ensures
            r is Ok,
    {
        Ok(Queue { _brand: core::marker::PhantomData })
    }

    /// Allocates a typed, empty device buffer of `n_elems` elements, tied
    /// to this session's brand. Fails with `AllocationFailed` exactly when
    /// the byte size `n_elems * size_of(T)` overflows the address space.
    pub fn create_empty_buffer<T: KernelScalar>(&'brand self, n_elems: usize) -> (r: Result<
        DeviceBuffer<'brand, T, Empty>,
        Error,
    >)
        ensures
            match r {
                Ok(b) => n_elems * T::spec_size() <= usize::MAX && b.wf() && b.spec_len()
                    == n_elems,
                Err(e) => n_elems * T::spec_size() > usize::MAX && e is AllocationFailed,
            },
    {
        DeviceBuffer::<'brand, T, Empty>::create(n_elems)
    }
}

/// Creates a new typed device buffer at the user level; the buffer starts
/// `Empty` with `byte_length == n_elems * size_of(T)`, and carries the
/// session's brand.
pub fn create_buffer<'brand, T: KernelScalar>(ctx: &'brand Context<'brand>, n_elems: usize) -> (r:
    Result<DeviceBuffer<'brand, T, Empty>, Error>)
    ensures
        match r {
            Ok(b) => n_elems * T::spec_size() <= usize::MAX && b.wf() && b.spec_len() == n_elems,
            Err(e) => n_elems * T::spec_size() > usize::MAX && e is AllocationFailed,
        },
{
    ctx.create_empty_buffer::<T>(n_elems)
}

} // verus!
