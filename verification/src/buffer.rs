//! The low-level, byte-addressed device buffer with its type-state tag.
//! It models the device-resident block of memory as the byte string the
//! device holds, plus the allocation size fixed at creation; the typed
//! layer in `api` wraps it with an element type and a session brand.

use vstd::prelude::*;

use crate::error::Error;
use crate::scalar::KernelScalar;
use crate::state::{Empty, State, Written};

verus! {

/// A fixed-size block of device memory in protocol state `S`. The bytes it
/// holds are the model of the device-resident contents; `len_bytes` is the
/// allocation size fixed at creation and never changes afterwards.
#[derive(Debug)]
pub struct GpuBuffer<S: State> {
    pub(crate) data: Vec<u8>,
    pub(crate) len_bytes: usize,
    pub(crate) _state: core::marker::PhantomData<S>,
}

impl<S: State> GpuBuffer<S> {
    /// Well-formed: the held bytes fill the allocation exactly.
    pub open spec fn wf(&self) -> bool {
        self.bytes().len() == self.spec_len_bytes()
    }

    /// The bytes the device holds.
    pub closed spec fn bytes(&self) -> Seq<u8> {
        self.data@
    }

    /// The allocation size in bytes.
    pub closed spec fn spec_len_bytes(&self) -> nat {
        self.len_bytes as nat
    }

    /// Number of bytes in the device buffer (canonical).
    pub fn len_bytes(&self) -> (r: usize)
        ensures
            r == self.spec_len_bytes(),
    {
        self.len_bytes
    }

    /// Same as [`Self::len_bytes`], under the device-centred name.
    pub fn dev_len_bytes(&self) -> (r: usize)
        ensures
            r == self.spec_len_bytes(),
    {
        self.len_bytes()
    }

    /// Safe state retagging: rebuilds the buffer under another state marker,
    /// field by field, never reinterpreting memory in place. The protocol
    /// methods of the typed layer are the only callers.
    pub(crate) fn retag<S2: State>(self) -> (r: GpuBuffer<S2>)
        ensures
            r.bytes() == self.bytes(),
            r.spec_len_bytes() == self.spec_len_bytes(),
            r.wf() <==> self.wf(),
    {
        GpuBuffer { data: self.data, len_bytes: self.len_bytes, _state: core::marker::PhantomData }
    }

    /// Borrow of the held bytes, for the typed layer's host-side decoding.
    pub(crate) fn data_ref(&self) -> (r: &Vec<u8>)
        ensures
            r@ == self.bytes(),
    {
        &self.data
    }

    /// Rebuilds the buffer around replacement bytes of the same allocation
    /// size, under a fresh state marker; used by the unmap commit.
    pub(crate) fn with_bytes<S2: State>(self, data: Vec<u8>) -> (r: GpuBuffer<S2>)
        requires
            data@.len() == self.spec_len_bytes(),
        ensures
            r.bytes() == data@,
            r.spec_len_bytes() == self.spec_len_bytes(),
            r.wf(),
    {
        GpuBuffer { data, len_bytes: self.len_bytes, _state: core::marker::PhantomData }
    }
}

impl GpuBuffer<Empty> {
    /// Allocates an uninitialized device buffer for `n_elems` elements of
    /// `T`. Fails exactly when the byte size overflows the address space.
    pub fn create_empty_buffer<T: KernelScalar>(n_elems: usize) -> (r: Result<
        GpuBuffer<Empty>,
        Error,
    >)
        ensures
            match r {
                Ok(b) => n_elems * T::spec_size() <= usize::MAX && b.wf() && b.spec_len_bytes()
                    == n_elems * T::spec_size(),
                Err(e) => n_elems * T::spec_size() > usize::MAX && e is AllocationFailed,
            },
    {
        let size = T::byte_size();
        match n_elems.checked_mul(size) {
            Some(n_bytes) => {
                let mut data: Vec<u8> = Vec::new();
                let mut i: usize = 0;
                while i < n_bytes
                    invariant
                        i <= n_bytes,
                        data@.len() == i,
                    decreases n_bytes - i,
                {
                    data.push(0u8);
                    i = i + 1;
                }
                Ok(GpuBuffer { data, len_bytes: n_bytes, _state: core::marker::PhantomData })
            },
            None => Err(Error::AllocationFailed(String::from_str("size overflow"))),
        }
    }

    /// Blocking host-to-device write of the whole buffer; the buffer leaves
    /// `Empty` and becomes `Written`, holding exactly the host bytes.
    pub fn write_block(self, host: &[u8]) -> (r: Result<GpuBuffer<Written>, Error>)
        requires
            self.wf(),
        ensures
            match r {
                Ok(b) => host@.len() == self.spec_len_bytes() && b.wf() && b.bytes() == host@
                    && b.spec_len_bytes() == self.spec_len_bytes(),
                Err(e) => {
                    &&& host@.len() != self.spec_len_bytes()
                    &&& e matches Error::BufferSizeMismatch { expected, actual }
                    &&& expected == self.spec_len_bytes()
                    &&& actual == host@.len()
                },
            },
    {
        if host.len() != self.len_bytes {
            return Err(
                Error::BufferSizeMismatch { expected: self.len_bytes, actual: host.len() },
            );
        }
        let data = vstd::slice::slice_to_vec(host);
        Ok(GpuBuffer { data, len_bytes: self.len_bytes, _state: core::marker::PhantomData })
    }
}

impl GpuBuffer<Written> {
    /// Overwrites the whole buffer with fresh host bytes; `blocking` only
    /// selects the submission mode of the underlying transfer and does not
    /// change what the buffer holds afterwards.
    pub fn overwrite(&mut self, host: &[u8], blocking: bool) -> (r: Result<(), Error>)
        requires
            old(self).wf(),
        ensures
            final(self).spec_len_bytes() == old(self).spec_len_bytes(),
            final(self).wf(),
            match r {
                Ok(()) => host@.len() == old(self).spec_len_bytes() && final(self).bytes()
                    == host@,
                Err(e) => {
                    &&& host@.len() != old(self).spec_len_bytes()
                    &&& *final(self) == *old(self)
                    &&& e matches Error::BufferSizeMismatch { expected, actual }
                    &&& expected == old(self).spec_len_bytes()
                    &&& actual == host@.len()
                },
            },
    {
        if host.len() != self.len_bytes {
            return Err(
                Error::BufferSizeMismatch { expected: self.len_bytes, actual: host.len() },
            );
        }
        self.data = vstd::slice::slice_to_vec(host);
        Ok(())
    }

    /// Device-to-host read of the whole buffer into a host vector of the
    /// same byte length; `blocking` selects only the submission mode.
    pub fn enqueue_read(&self, host: &mut Vec<u8>, blocking: bool) -> (r: Result<(), Error>)
        requires
            self.wf(),
        ensures
            match r {
                Ok(()) => old(host)@.len() == self.spec_len_bytes() && final(host)@
                    == self.bytes(),
                Err(e) => {
                    &&& old(host)@.len() != self.spec_len_bytes()
                    &&& *final(host) == *old(host)
                    &&& e matches Error::BufferSizeMismatch { expected, actual }
                    &&& expected == self.spec_len_bytes()
                    &&& actual == old(host)@.len()
                },
            },
    {
        if host.len() != self.len_bytes {
            return Err(Error::BufferSizeMismatch { expected: self.len_bytes, actual: host.len() });
        }
        *host = vstd::slice::slice_to_vec(self.data.as_slice());
        Ok(())
    }
}

} // verus!
