//! The typed device buffer and its lifecycle protocol. A buffer carries its
//! session brand, its element type and its protocol state in its type;
//! every transition consumes its input, every asynchronous transition hands
//! out exactly one completion token paired with the in-flight buffer, and
//! consuming that token is the only way back to a host-observable state.
//!
//! What a launched kernel leaves in device memory is the device's business:
//! the contracts of `enqueue_kernel` and `wait` promise the shape (element
//! count, byte length, pairing), never the kernel's output values. For host
//! transfers the contracts are exact: what was written is what is read.

use vstd::prelude::*;

use crate::api::kernel::Kernel;
use crate::api::queue::Queue;
use crate::buffer::GpuBuffer;
use crate::error::Error;
use crate::scalar::{
    bytes_of, decode_vec, elems_of, encode_slice, lemma_bytes_of_len, lemma_codec_round_trip,
    KernelScalar,
};
use crate::state::{Empty, InFlight, Mapped, State, Written};

verus! {

/// A typed handle to a fixed-size block of device memory, parameterized by
/// its session brand, its logical element type and its protocol state.
#[must_use]
#[derive(Debug)]
pub struct DeviceBuffer<'brand, T, S: State> {
    pub(crate) inner: GpuBuffer<S>,
    pub(crate) len: usize,
    pub(crate) _brand: core::marker::PhantomData<&'brand mut &'brand ()>,
    pub(crate) _type: core::marker::PhantomData<T>,
}

impl<'brand, T: KernelScalar, S: State> DeviceBuffer<'brand, T, S> {
    /// The bytes the device holds for this buffer.
    pub closed spec fn bytes(&self) -> Seq<u8> {
        self.inner.bytes()
    }

    /// Element count fixed at creation.
    pub closed spec fn spec_len(&self) -> nat {
        self.len as nat
    }

    /// Allocation size in bytes fixed at creation.
    pub closed spec fn spec_len_bytes(&self) -> nat {
        self.inner.spec_len_bytes()
    }

    /// The elements the device bytes stand for.
    pub open spec fn elems(&self) -> Seq<T> {
        elems_of::<T>(self.bytes())
    }

    /// Well-formed: the bytes fill the allocation, and the byte length is
    /// exactly `element_count * size_of(element_type)`.
    pub open spec fn wf(&self) -> bool {
        &&& self.bytes().len() == self.spec_len_bytes()
        &&& self.spec_len_bytes() == self.spec_len() * T::spec_size()
    }

    /// Element count of the buffer.
    pub fn len(&self) -> (r: usize)
        ensures
            r == self.spec_len(),
    {
        self.len
    }

    /// Internal pairing of an untyped buffer with its element count.
    pub(crate) fn from_inner(inner: GpuBuffer<S>, len_elems: usize) -> (r: Self)
        ensures
            r.inner == inner,
            r.len == len_elems,
    {
        Self {
            inner,
            len: len_elems,
            _brand: core::marker::PhantomData,
            _type: core::marker::PhantomData,
        }
    }
}

impl<'brand, T: KernelScalar> DeviceBuffer<'brand, T, Empty> {
    /// Allocates an `Empty` typed buffer of `n_elems` elements; fails with
    /// `AllocationFailed` exactly when the byte size overflows.
    pub(crate) fn create(n_elems: usize) -> (r: Result<Self, Error>)
        ensures
            match r {
                Ok(b) => n_elems * T::spec_size() <= usize::MAX && b.wf() && b.spec_len()
                    == n_elems,
                Err(e) => n_elems * T::spec_size() > usize::MAX && e is AllocationFailed,
            },
    {
        match GpuBuffer::<Empty>::create_empty_buffer::<T>(n_elems) {
            Ok(inner) => Ok(DeviceBuffer::from_inner(inner, n_elems)),
            Err(e) => Err(e),
        }
    }

    /// Blocking host write: the buffer becomes `Written`, holding exactly
    /// the byte image of `data`. Fails with `BufferSizeMismatch` exactly
    /// when `data` does not have the buffer's element count.
    pub fn write_block(self, queue: &Queue<'brand>, data: &[T]) -> (r: Result<
        DeviceBuffer<'brand, T, Written>,
        Error,
    >)
        requires
            self.wf(),
        ensures
            match r {
                Ok(b) => {
                    &&& data@.len() == self.spec_len()
                    &&& b.wf()
                    &&& b.spec_len() == self.spec_len()
                    &&& b.bytes() == bytes_of(data@)
                    &&& b.elems() == data@
                },
                Err(e) => {
                    &&& data@.len() != self.spec_len()
                    &&& e matches Error::BufferSizeMismatch { expected, actual }
                    &&& expected == self.spec_len()
                    &&& actual == data@.len()
                },
            },
    {
        let _ = queue;
        if data.len() != self.len {
            return Err(Error::BufferSizeMismatch { expected: self.len, actual: data.len() });
        }
        let host = encode_slice(data);
        proof {
            lemma_bytes_of_len::<T>(data@);
            lemma_codec_round_trip::<T>(data@);
        }
        match self.inner.write_block(host.as_slice()) {
            Ok(inner_written) => Ok(DeviceBuffer::from_inner(inner_written, self.len)),
            Err(e) => Err(e),
        }
    }

    /// Maps the buffer into host-visible memory (blocking): the buffer
    /// becomes `Mapped` and the returned token owns the host-visible region,
    /// initially holding the device bytes. Only `unmap` releases the region
    /// and re-enables device-side operations.
    pub fn map_for_write_block(self, queue: &Queue<'brand>) -> (r: Result<
        (DeviceBuffer<'brand, T, Mapped>, MapToken<'brand>),
        Error,
    >)
        requires
            self.wf(),
        ensures
            r is Ok,
            match r {
                Ok((m, tok)) => {
                    &&& m.wf()
                    &&& m.spec_len() == self.spec_len()
                    &&& m.bytes() == self.bytes()
                    &&& tok.wf()
                    &&& tok.spec_from() == m.bytes()
                    &&& tok.spec_host() == m.bytes()
                },
                Err(_) => false,
            },
    {
        let _ = queue;
        let host = vstd::slice::slice_to_vec(self.inner.data_ref().as_slice());
        let ghost from = self.inner.bytes();
        let mapped = DeviceBuffer::from_inner(self.inner.retag::<Mapped>(), self.len);
        Ok((mapped, MapToken { host, from: Ghost(from), _brand: core::marker::PhantomData }))
    }
}

impl<'brand, T: KernelScalar> DeviceBuffer<'brand, T, Written> {
    /// Blocking whole-buffer rewrite, staying `Written`. Fails with
    /// `BufferSizeMismatch` (in byte counts) exactly when `data` does not
    /// have the buffer's element count.
    pub fn write_blocking(self, queue: &Queue<'brand>, data: &[T]) -> (r: Result<
        DeviceBuffer<'brand, T, Written>,
        Error,
    >)
        requires
            self.wf(),
        ensures
            match r {
                Ok(b) => {
                    &&& data@.len() == self.spec_len()
                    &&& b.wf()
                    &&& b.spec_len() == self.spec_len()
                    &&& b.bytes() == bytes_of(data@)
                    &&& b.elems() == data@
                },
                Err(e) => {
                    &&& data@.len() != self.spec_len()
                    &&& e matches Error::BufferSizeMismatch { expected, actual }
                    &&& expected == self.spec_len_bytes()
                    &&& actual == data@.len() * T::spec_size()
                },
            },
    {
        let _ = queue;
        let host = encode_slice(data);
        proof {
            T::lemma_size_pos();
            lemma_bytes_of_len::<T>(data@);
            lemma_codec_round_trip::<T>(data@);
            if data@.len() != self.spec_len() {
                assert(data@.len() * T::spec_size() != self.spec_len() * T::spec_size())
                    by (nonlinear_arith)
                    requires
                        data@.len() != self.spec_len(),
                        T::spec_size() >= 1,
                ;
            }
        }
        let mut inner = self.inner;
        match inner.overwrite(host.as_slice(), true) {
            Ok(()) => Ok(DeviceBuffer::from_inner(inner, self.len)),
            Err(e) => Err(e),
        }
    }

    /// Blocking in-place overwrite with fresh host data; the buffer stays
    /// `Written` and afterwards holds exactly the byte image of `data`.
    pub fn overwrite_blocking(&mut self, queue: &Queue<'brand>, data: &[T]) -> (r: Result<
        (),
        Error,
    >)
        requires
            old(self).wf(),
        ensures
            final(self).wf(),
            final(self).spec_len() == old(self).spec_len(),
            match r {
                Ok(()) => {
                    &&& data@.len() == old(self).spec_len()
                    &&& final(self).bytes() == bytes_of(data@)
                    &&& final(self).elems() == data@
                },
                Err(e) => {
                    &&& data@.len() != old(self).spec_len()
                    &&& *final(self) == *old(self)
                    &&& e matches Error::BufferSizeMismatch { expected, actual }
                    &&& expected == old(self).spec_len_bytes()
                    &&& actual == data@.len() * T::spec_size()
                },
            },
    {
        let _ = queue;
        let host = encode_slice(data);
        proof {
            T::lemma_size_pos();
            lemma_bytes_of_len::<T>(data@);
            lemma_codec_round_trip::<T>(data@);
            if data@.len() != self.spec_len() {
                assert(data@.len() * T::spec_size() != self.spec_len() * T::spec_size())
                    by (nonlinear_arith)
                    requires
                        data@.len() != self.spec_len(),
                        T::spec_size() >= 1,
                ;
            }
        }
        self.inner.overwrite(host.as_slice(), true)
    }

    /// Non-blocking whole-buffer rewrite: the buffer goes `InFlight`, paired
    /// with the returned completion token; the token's `wait` is the only
    /// way back to `Written`.
    pub fn overwrite_non_blocking(self, queue: &Queue<'brand>, data: &[T]) -> (r: Result<
        (DeviceBuffer<'brand, T, InFlight>, EventToken<'brand>),
        Error,
    >)
        requires
            self.wf(),
        ensures
            match r {
                Ok((b, t)) => {
                    &&& data@.len() == self.spec_len()
                    &&& b.wf()
                    &&& b.spec_len() == self.spec_len()
                    &&& b.bytes() == bytes_of(data@)
                    &&& b.elems() == data@
                    &&& t.spec_pending() == b.bytes()
                },
                Err(e) => {
                    &&& data@.len() != self.spec_len()
                    &&& e matches Error::BufferSizeMismatch { expected, actual }
                    &&& expected == self.spec_len_bytes()
                    &&& actual == data@.len() * T::spec_size()
                },
            },
    {
        let _ = queue;
        let host = encode_slice(data);
        proof {
            T::lemma_size_pos();
            lemma_bytes_of_len::<T>(data@);
            lemma_codec_round_trip::<T>(data@);
            if data@.len() != self.spec_len() {
                assert(data@.len() * T::spec_size() != self.spec_len() * T::spec_size())
                    by (nonlinear_arith)
                    requires
                        data@.len() != self.spec_len(),
                        T::spec_size() >= 1,
                ;
            }
        }
        let mut inner = self.inner;
        match inner.overwrite(host.as_slice(), false) {
            Ok(()) => {
                let ghost pending = inner.bytes();
                let inflight = DeviceBuffer::from_inner(inner.retag::<InFlight>(), self.len);
                Ok(
                    (
                        inflight,
                        EventToken {
                            pending: Ghost(pending),
                            _brand: core::marker::PhantomData,
                        },
                    ),
                )
            },
            Err(e) => Err(e),
        }
    }

    /// Non-blocking write, like [`Self::overwrite_non_blocking`].
    pub fn write_non_block(self, queue: &Queue<'brand>, data: &[T]) -> (r: Result<
        (DeviceBuffer<'brand, T, InFlight>, EventToken<'brand>),
        Error,
    >)
        requires
            self.wf(),
        ensures
            match r {
                Ok((b, t)) => {
                    &&& data@.len() == self.spec_len()
                    &&& b.wf()
                    &&& b.spec_len() == self.spec_len()
                    &&& b.bytes() == bytes_of(data@)
                    &&& b.elems() == data@
                    &&& t.spec_pending() == b.bytes()
                },
                Err(e) => {
                    &&& data@.len() != self.spec_len()
                    &&& e matches Error::BufferSizeMismatch { expected, actual }
                    &&& expected == self.spec_len_bytes()
                    &&& actual == data@.len() * T::spec_size()
                },
            },
    {
        self.overwrite_non_blocking(queue, data)
    }

    /// Blocking in-place overwrite from raw bytes; `data` must have exactly
    /// the buffer's byte length.
    pub fn overwrite_byte_blocking(&mut self, queue: &Queue<'brand>, data: &[u8]) -> (r: Result<
        (),
        Error,
    >)
        requires
            old(self).wf(),
        ensures
            final(self).wf(),
            final(self).spec_len() == old(self).spec_len(),
            match r {
                Ok(()) => {
                    &&& data@.len() == old(self).spec_len_bytes()
                    &&& final(self).bytes() == data@
                    &&& final(self).elems() == elems_of::<T>(data@)
                },
                Err(e) => {
                    &&& data@.len() != old(self).spec_len_bytes()
                    &&& *final(self) == *old(self)
                    &&& e matches Error::BufferSizeMismatch { expected, actual }
                    &&& expected == old(self).spec_len_bytes()
                    &&& actual == data@.len()
                },
            },
    {
        let _ = queue;
        self.inner.overwrite(data, true)
    }

    /// Non-blocking overwrite from raw bytes: the buffer goes `InFlight`,
    /// paired with the returned completion token.
    pub fn overwrite_byte_non_blocking(self, queue: &Queue<'brand>, data: &[u8]) -> (r: Result<
        (DeviceBuffer<'brand, T, InFlight>, EventToken<'brand>),
        Error,
    >)
        requires
            self.wf(),
        ensures
            match r {
                Ok((b, t)) => {
                    &&& data@.len() == self.spec_len_bytes()
                    &&& b.wf()
                    &&& b.spec_len() == self.spec_len()
                    &&& b.bytes() == data@
                    &&& t.spec_pending() == b.bytes()
                },
                Err(e) => {
                    &&& data@.len() != self.spec_len_bytes()
                    &&& e matches Error::BufferSizeMismatch { expected, actual }
                    &&& expected == self.spec_len_bytes()
                    &&& actual == data@.len()
                },
            },
    {
        let _ = queue;
        let mut inner = self.inner;
        match inner.overwrite(data, false) {
            Ok(()) => {
                let ghost pending = inner.bytes();
                let inflight = DeviceBuffer::from_inner(inner.retag::<InFlight>(), self.len);
                Ok(
                    (
                        inflight,
                        EventToken {
                            pending: Ghost(pending),
                            _brand: core::marker::PhantomData,
                        },
                    ),
                )
            },
            Err(e) => Err(e),
        }
    }

    /// Blocking device-to-host read into `out`, which must already have the
    /// buffer's element count; the buffer itself is unchanged.
    pub fn enqueue_read_blocking(&self, queue: &Queue<'brand>, out: &mut Vec<T>) -> (r: Result<
        (),
        Error,
    >)
        requires
            self.wf(),
        ensures
            match r {
                Ok(()) => {
                    &&& old(out)@.len() == self.spec_len()
                    &&& final(out)@ == self.elems()
                    &&& final(out)@.len() == self.spec_len()
                },
                Err(e) => {
                    &&& old(out)@.len() != self.spec_len()
                    &&& *final(out) == *old(out)
                    &&& e matches Error::BufferSizeMismatch { expected, actual }
                    &&& expected == self.spec_len()
                    &&& actual == old(out)@.len()
                },
            },
    {
        let _ = queue;
        if out.len() != self.len {
            return Err(Error::BufferSizeMismatch { expected: self.len, actual: out.len() });
        }
        let decoded = decode_vec::<T>(self.inner.data_ref(), self.len);
        *out = decoded;
        Ok(())
    }

    /// Non-blocking device-to-host read: consumes a host vector of the
    /// buffer's element count, the buffer goes `InFlight`, and the returned
    /// guard owns the host memory until its `wait` resolves the operation
    /// and hands the data back.
    pub fn enqueue_read_non_blocking(self, queue: &Queue<'brand>, out: Vec<T>) -> (r: Result<
        (DeviceBuffer<'brand, T, InFlight>, ReadGuard<'brand, T>),
        Error,
    >)
        requires
            self.wf(),
        ensures
            match r {
                Ok((b, g)) => {
                    &&& out@.len() == self.spec_len()
                    &&& b.wf()
                    &&& b.spec_len() == self.spec_len()
                    &&& b.bytes() == self.bytes()
                    &&& g.spec_pending() == b.bytes()
                    &&& g.spec_out() == b.elems()
                },
                Err(e) => {
                    &&& out@.len() != self.spec_len()
                    &&& e matches Error::BufferSizeMismatch { expected, actual }
                    &&& expected == self.spec_len()
                    &&& actual == out@.len()
                },
            },
    {
        let _ = queue;
        if out.len() != self.len {
            return Err(Error::BufferSizeMismatch { expected: self.len, actual: out.len() });
        }
        let filled = decode_vec::<T>(self.inner.data_ref(), self.len);
        let ghost pending = self.inner.bytes();
        let inflight = DeviceBuffer::from_inner(self.inner.retag::<InFlight>(), self.len);
        let token = EventToken { pending: Ghost(pending), _brand: core::marker::PhantomData };
        Ok((inflight, ReadGuard { out: filled, token }))
    }

    /// Launches a kernel with this buffer bound: the buffer goes `InFlight`,
    /// paired with the returned completion token. The contract promises the
    /// shape (count and byte length) and the pairing; what the kernel
    /// computes into device memory is the device's business and is not
    /// promised here.
    pub fn enqueue_kernel(self, queue: &Queue<'brand>, kernel: &Kernel<'brand>,
        global_work_size: usize) -> (r: Result<
        (DeviceBuffer<'brand, T, InFlight>, EventToken<'brand>),
        Error,
    >)
        requires
            self.wf(),
        ensures
            r is Ok,
            match r {
                Ok((b, t)) => {
                    &&& b.wf()
                    &&& b.spec_len() == self.spec_len()
                    &&& t.spec_pending() == b.bytes()
                },
                Err(_) => false,
            },
    {
        let _ = queue;
        let _ = kernel;
        let _ = global_work_size;
        let ghost pending = self.inner.bytes();
        let inflight = DeviceBuffer::from_inner(self.inner.retag::<InFlight>(), self.len);
        Ok((inflight, EventToken { pending: Ghost(pending), _brand: core::marker::PhantomData }))
    }

    /// Maps a written buffer into host-visible memory; see the `Empty`
    /// variant for the contract shape.
    pub fn map_for_write_block(self, queue: &Queue<'brand>) -> (r: Result<
        (DeviceBuffer<'brand, T, Mapped>, MapToken<'brand>),
        Error,
    >)
        requires
            self.wf(),
        ensures
            r is Ok,
            match r {
                Ok((m, tok)) => {
                    &&& m.wf()
                    &&& m.spec_len() == self.spec_len()
                    &&& m.bytes() == self.bytes()
                    &&& tok.wf()
                    &&& tok.spec_from() == m.bytes()
                    &&& tok.spec_host() == m.bytes()
                },
                Err(_) => false,
            },
    {
        let _ = queue;
        let host = vstd::slice::slice_to_vec(self.inner.data_ref().as_slice());
        let ghost from = self.inner.bytes();
        let mapped = DeviceBuffer::from_inner(self.inner.retag::<Mapped>(), self.len);
        Ok((mapped, MapToken { host, from: Ghost(from), _brand: core::marker::PhantomData }))
    }
}

impl<'brand, T: KernelScalar> DeviceBuffer<'brand, T, Mapped> {
    /// Writes `data` into the mapped host-visible region (blocking). The
    /// device-side bytes are untouched until `unmap` commits the region.
    pub fn write_blocking(&mut self, data: &[T], token: &mut MapToken<'brand>) -> (r: Result<
        (),
        Error,
    >)
        requires
            old(self).wf(),
            old(token).wf(),
            old(token).spec_from() == old(self).bytes(),
        ensures
            *final(self) == *old(self),
            final(token).wf(),
            final(token).spec_from() == old(token).spec_from(),
            match r {
                Ok(()) => {
                    &&& data@.len() == old(self).spec_len()
                    &&& final(token).spec_host() == bytes_of(data@)
                },
                Err(e) => {
                    &&& data@.len() != old(self).spec_len()
                    &&& *final(token) == *old(token)
                    &&& e matches Error::BufferSizeMismatch { expected, actual }
                    &&& expected == old(self).spec_len()
                    &&& actual == data@.len()
                },
            },
    {
        if data.len() != self.len {
            return Err(Error::BufferSizeMismatch { expected: self.len, actual: data.len() });
        }
        let host = encode_slice(data);
        proof {
            lemma_bytes_of_len::<T>(data@);
        }
        token.host = host;
        Ok(())
    }

    /// Reads the mapped host-visible region back into `out` (blocking).
    pub fn read_blocking(&self, out: &mut Vec<T>, token: &MapToken<'brand>) -> (r: Result<
        (),
        Error,
    >)
        requires
            self.wf(),
            token.wf(),
            token.spec_from() == self.bytes(),
        ensures
            match r {
                Ok(()) => {
                    &&& old(out)@.len() == self.spec_len()
                    &&& final(out)@ == elems_of::<T>(token.spec_host())
                },
                Err(e) => {
                    &&& old(out)@.len() != self.spec_len()
                    &&& *final(out) == *old(out)
                    &&& e matches Error::BufferSizeMismatch { expected, actual }
                    &&& expected == self.spec_len()
                    &&& actual == old(out)@.len()
                },
            },
    {
        if out.len() != self.len {
            return Err(Error::BufferSizeMismatch { expected: self.len, actual: out.len() });
        }
        let decoded = decode_vec::<T>(&token.host, self.len);
        *out = decoded;
        Ok(())
    }
}

/// The completion token of one outstanding asynchronous operation. Exactly
/// one token exists per operation, paired with exactly one in-flight buffer;
/// consuming the token through `wait` is the only legal way to resolve the
/// pairing, and consuming it makes a second wait a build error.
#[must_use]
pub struct EventToken<'brand> {
    pub(crate) pending: Ghost<Seq<u8>>,
    pub(crate) _brand: core::marker::PhantomData<&'brand mut &'brand ()>,
}

impl<'brand> EventToken<'brand> {
    /// The device bytes of the buffer this token is paired with.
    pub closed spec fn spec_pending(&self) -> Seq<u8> {
        self.pending@
    }

    /// Consuming transition: the only path from `InFlight` back to
    /// `Written`. Blocks until the paired operation completes; both the
    /// token and the in-flight handle are consumed, so neither can be used
    /// again.
    pub fn wait<T: KernelScalar>(self, buf: DeviceBuffer<'brand, T, InFlight>) -> (r: DeviceBuffer<
        'brand,
        T,
        Written,
    >)
        requires
            buf.wf(),
            buf.bytes() == self.spec_pending(),
        ensures
            r.wf(),
            r.spec_len() == buf.spec_len(),
            r.bytes() == buf.bytes(),
            r.elems() == buf.elems(),
    {
        DeviceBuffer::from_inner(buf.inner.retag::<Written>(), buf.len)
    }
}

/// A guard that owns the host memory of one outstanding non-blocking read:
/// the data cannot be observed before `wait` resolves the operation.
#[must_use]
pub struct ReadGuard<'brand, T> {
    pub(crate) out: Vec<T>,
    pub(crate) token: EventToken<'brand>,
}

impl<'brand, T: KernelScalar> ReadGuard<'brand, T> {
    /// The device bytes of the buffer this guard's token is paired with.
    pub closed spec fn spec_pending(&self) -> Seq<u8> {
        self.token.spec_pending()
    }

    /// The host elements the read will hand out on `wait`.
    pub closed spec fn spec_out(&self) -> Seq<T> {
        self.out@
    }

    /// Waits until the read completes, returns the buffer to `Written` and
    /// releases the host data. Consumes the guard and the in-flight handle.
    pub fn wait(self, buf: DeviceBuffer<'brand, T, InFlight>) -> (r: (
        DeviceBuffer<'brand, T, Written>,
        Vec<T>,
    ))
        requires
            buf.wf(),
            buf.bytes() == self.spec_pending(),
        ensures
            r.0.wf(),
            r.0.spec_len() == buf.spec_len(),
            r.0.bytes() == buf.bytes(),
            r.1@ == self.spec_out(),
    {
        let w = self.token.wait(buf);
        (w, self.out)
    }
}

/// The token of one mapped host-visible region: it owns the region, and
/// `unmap` is the only way to release it and re-enable the device side.
#[must_use]
pub struct MapToken<'brand> {
    pub(crate) host: Vec<u8>,
    pub(crate) from: Ghost<Seq<u8>>,
    pub(crate) _brand: core::marker::PhantomData<&'brand mut &'brand ()>,
}

impl<'brand> MapToken<'brand> {
    /// The bytes the host-visible region currently holds.
    pub closed spec fn spec_host(&self) -> Seq<u8> {
        self.host@
    }

    /// The device bytes of the buffer this token is paired with, as they
    /// were at map time.
    pub closed spec fn spec_from(&self) -> Seq<u8> {
        self.from@
    }

    /// Well-formed: the host-visible region has the mapped buffer's size.
    pub open spec fn wf(&self) -> bool {
        self.spec_host().len() == self.spec_from().len()
    }

    /// Releases the host-visible region and commits it to device memory:
    /// the buffer returns to `Written`, holding exactly the region's bytes.
    /// Consumes the token and the mapped handle.
    pub fn unmap<T: KernelScalar>(self, mapped_buffer: DeviceBuffer<'brand, T, Mapped>) -> (r:
        Result<DeviceBuffer<'brand, T, Written>, Error>)
        requires
            mapped_buffer.wf(),
            self.wf(),
            self.spec_from() == mapped_buffer.bytes(),
        ensures
            r is Ok,
            match r {
                Ok(w) => {
                    &&& w.wf()
                    &&& w.spec_len() == mapped_buffer.spec_len()
                    &&& w.bytes() == self.spec_host()
                },
                Err(_) => false,
            },
    {
        let inner_written = mapped_buffer.inner.with_bytes::<Written>(self.host);
        Ok(DeviceBuffer::from_inner(inner_written, mapped_buffer.len))
    }
}

/// Law: `byte_length == element_count * size_of(element_type)` holds of
/// every well-formed buffer, in every protocol state.
pub proof fn lemma_byte_length_invariant<'brand, T: KernelScalar, S: State>(
    b: DeviceBuffer<'brand, T, S>,
)
    requires
        b.wf(),
    ensures
        b.spec_len_bytes() == b.spec_len() * T::spec_size(),
{
}

/// Law: across a full legal lifecycle Empty -> Written -> InFlight ->
/// Written, the element count and the byte length are unchanged and equal
/// to the values fixed at creation. The premises are exactly what the
/// transition contracts (`write_block`, `overwrite_non_blocking` or
/// `enqueue_kernel`, and `wait`) ensure of each step.
pub proof fn lemma_lifecycle_preserves_shape<'brand, T: KernelScalar>(
    created: DeviceBuffer<'brand, T, Empty>,
    written: DeviceBuffer<'brand, T, Written>,
    inflight: DeviceBuffer<'brand, T, InFlight>,
    resolved: DeviceBuffer<'brand, T, Written>,
    n: nat,
)
    requires
        created.wf(),
        created.spec_len() == n,
        written.spec_len() == created.spec_len(),
        inflight.spec_len() == written.spec_len(),
        resolved.spec_len() == inflight.spec_len(),
        resolved.wf(),
    ensures
        resolved.spec_len() == n,
        resolved.spec_len_bytes() == n * T::spec_size(),
{
}

/// Law (host round trip): a buffer holding the byte image of a host array
/// reads back as exactly that array; with `write_block`'s contract this
/// says that writing and then reading, without an intervening kernel,
/// returns what was written.
pub proof fn lemma_write_read_round_trip<'brand, T: KernelScalar>(
    b: DeviceBuffer<'brand, T, Written>,
    data: Seq<T>,
)
    requires
        b.bytes() == bytes_of(data),
    ensures
        b.elems() == data,
{
    lemma_codec_round_trip::<T>(data);
}

} // verus!
