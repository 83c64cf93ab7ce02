//! The compute handle: a compiled kernel entry point, tied to the session
//! that built it. Argument binding has two disjoint forms: buffer arguments
//! accept only a `Written` buffer of the same brand, and scalar arguments
//! accept only the closed set of POD scalar kinds, so an in-flight, empty or
//! mapped buffer, a foreign-session buffer, or a pointer-like scalar is a
//! build error.

use vstd::prelude::*;

use crate::api::context::Context;
use crate::api::device_buffer::DeviceBuffer;
use crate::error::Error;
use crate::scalar::KernelScalar;
use crate::state::Written;

verus! {

/// A compiled kernel entry point of one session.
#[must_use]
#[derive(Debug)]
pub struct Kernel<'brand> {
    pub(crate) src: String,
    pub(crate) entry: String,
    pub(crate) _brand: core::marker::PhantomData<&'brand mut &'brand ()>,
}

impl<'brand> Kernel<'brand> {
    /// The kernel source text held by the handle.
    pub closed spec fn spec_src(&self) -> Seq<char> {
        self.src@
    }

    /// The entry-point name the handle was built for.
    pub closed spec fn spec_entry(&self) -> Seq<char> {
        self.entry@
    }

    /// Builds a compute handle from kernel source for the given entry point,
    /// brand-tied to `ctx`. The protocol core records the source and entry
    /// point; the real backend compilation happens in the shell around the
    /// library, which surfaces its diagnostics as `CompileError`.
    pub fn from_source(ctx: &'brand Context<'brand>, src: &str, name: &str) -> (r: Result<
        Kernel<'brand>,
        Error,
    >)
        ensures
            match r {
                Ok(k) => k.spec_src() == src@ && k.spec_entry() == name@,
                Err(_) => false,
            },
    {
        Ok(
            Kernel {
                src: String::from_str(src),
                entry: String::from_str(name),
                _brand: core::marker::PhantomData,
            },
        )
    }

    /// Binds a buffer argument: only a `Written` buffer of the same brand is
    /// accepted, so empty, in-flight, mapped or foreign-session buffers are
    /// rejected when the program is built.
    pub fn set_arg_buffer<T: KernelScalar>(
        &self,
        index: u32,
        buf: &DeviceBuffer<'brand, T, Written>,
    ) -> (r: Result<(), Error>)
        requires
            buf.wf(),
        ensures
            r is Ok,
    {
        let _ = index;
        let _ = buf;
        Ok(())
    }

    /// Binds a scalar argument: only the closed set of POD scalar kinds is
    /// accepted, which rejects accidental pointer or collection arguments.
    pub fn set_arg_scalar<S: KernelScalar>(&self, index: u32, val: &S) -> (r: Result<(), Error>)
        ensures
            r is Ok,
    {
        let _ = index;
        let _ = val;
        Ok(())
    }
}

} // verus!
