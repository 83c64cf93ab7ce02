//! The buffer lifecycle protocol, exercised end to end on the typed API.

use hpc_core::create_buffer;
use hpc_core::Context;
use hpc_core::Error;

// Dummy buffer type without any device dependency.
struct DummyBuffer(u64);

// Generic typestate buffer struct.
struct DummyGpuBuffer<S> {
    buf: DummyBuffer,
    len: usize,
    _state: std::marker::PhantomData<S>,
}

pub trait DummyState {}

pub struct Queued;
pub struct DummyInFlight;
pub struct Ready;

impl DummyState for Queued {}

impl DummyState for DummyInFlight {}

impl DummyState for Ready {}

struct DummyGuard;

impl Drop for DummyGuard {
    fn drop(&mut self) {
        // This drop could perform synchronization in a real implementation.
    }
}

#[test]
fn typestate_transitions_dummy_only() {
    let dummy = DummyBuffer(12345);

    let queued = DummyGpuBuffer::<Queued> {
        buf: dummy,
        len: 42,
        _state: std::marker::PhantomData,
    };

    // Transition to the in-flight state by moving the buffer.
    let inflight: DummyGpuBuffer<DummyInFlight> = DummyGpuBuffer {
        buf: queued.buf,
        len: queued.len,
        _state: std::marker::PhantomData,
    };

    let guard = DummyGuard;

    // After the guard is dropped, transition to the ready state.
    let _ready: DummyGpuBuffer<Ready> = DummyGpuBuffer {
        buf: inflight.buf,
        len: inflight.len,
        _state: std::marker::PhantomData,
    };

    // Explicitly drop the guard to complete the transition.
    drop(guard);
    let _ = _ready.buf.0;
    let _ = _ready.len;
}

#[test]
fn memcpy_roundtrip() {
    let ctx = Context::create_context().expect("context");
    let queue = ctx.create_queue().expect("queue");

    let input: Vec<u32> = vec![1; 16];
    let mut output: Vec<u32> = vec![0; 16];

    let buf = create_buffer::<u32>(&ctx, input.len()).expect("buffer");
    let buf = buf.write_block(&queue, &input).expect("write");
    buf.enqueue_read_blocking(&queue, &mut output).expect("read");

    assert_eq!(input, output);
}

#[test]
fn enqueue_write_same_queue_smoke() {
    let ctx = Context::create_context().expect("context");
    let q = ctx.create_queue().expect("queue");
    let buf = ctx.create_empty_buffer::<u32>(4).expect("buffer");

    let data = [1u32, 2, 3, 4];
    let _written = buf.write_block(&q, &data).expect("enqueue_write should succeed");
}

#[test]
fn multiple_buffers_on_same_queue() {
    let ctx = Context::create_context().expect("context");
    let q = ctx.create_queue().expect("queue");

    let a = ctx.create_empty_buffer::<u8>(8).expect("buf A");
    let b = ctx.create_empty_buffer::<u8>(8).expect("buf B");

    let da = [0u8; 8];
    let db = [1u8; 8];

    let _ = a.write_block(&q, &da).expect("A write");
    let _ = b.write_block(&q, &db).expect("B write");
}

#[test]
fn generic_over_element_type() {
    let ctx = Context::create_context().expect("context");
    let q = ctx.create_queue().expect("queue");

    let bu8 = ctx.create_empty_buffer::<u8>(2).expect("u8 buf");
    let bu32 = ctx.create_empty_buffer::<u32>(2).expect("u32 buf");

    let _ = bu8.write_block(&q, &[7u8, 8u8]).expect("u8 write");
    let _ = bu32.write_block(&q, &[7u32, 8u32]).expect("u32 write");
}

#[test]
fn lifecycle_preserves_count_and_bytes() {
    let ctx = Context::create_context().expect("context");
    let q = ctx.create_queue().expect("queue");

    let empty = ctx.create_empty_buffer::<u32>(6).expect("buffer");
    assert_eq!(empty.len(), 6);

    let written = empty.write_block(&q, &[1u32, 2, 3, 4, 5, 6]).expect("write");
    assert_eq!(written.len(), 6);

    let (inflight, token) = written
        .overwrite_non_blocking(&q, &[10u32, 20, 30, 40, 50, 60])
        .expect("overwrite");
    assert_eq!(inflight.len(), 6);

    let resolved = token.wait(inflight);
    assert_eq!(resolved.len(), 6);

    let mut out = vec![0u32; 6];
    resolved.enqueue_read_blocking(&q, &mut out).expect("read");
    assert_eq!(out, vec![10, 20, 30, 40, 50, 60]);
}

#[test]
fn read_guard_returns_data_after_wait() {
    let ctx = Context::create_context().expect("context");
    let q = ctx.create_queue().expect("queue");

    let buf = ctx.create_empty_buffer::<u64>(3).expect("buffer");
    let buf = buf.write_block(&q, &[9u64, 8, 7]).expect("write");

    let staging = vec![0u64; 3];
    let (inflight, guard) = buf.enqueue_read_non_blocking(&q, staging).expect("read");
    let (written, data) = guard.wait(inflight);
    assert_eq!(data, vec![9, 8, 7]);
    assert_eq!(written.len(), 3);
}

#[test]
fn map_write_unmap_roundtrip() {
    let ctx = Context::create_context().expect("context");
    let q = ctx.create_queue().expect("queue");

    let buf = ctx.create_empty_buffer::<u32>(4).expect("buffer");
    let (mut mapped, mut token) = buf.map_for_write_block(&q).expect("map");

    mapped
        .write_blocking(&[11u32, 22, 33, 44], &mut token)
        .expect("mapped write");

    let mut readback = vec![0u32; 4];
    mapped.read_blocking(&mut readback, &token).expect("mapped read");
    assert_eq!(readback, vec![11, 22, 33, 44]);

    let written = token.unmap(mapped).expect("unmap");
    let mut out = vec![0u32; 4];
    written.enqueue_read_blocking(&q, &mut out).expect("read");
    assert_eq!(out, vec![11, 22, 33, 44]);
}

#[test]
fn kernel_launch_keeps_shape() {
    let ctx = Context::create_context().expect("context");
    let q = ctx.create_queue().expect("queue");
    let kernel = hpc_core::Kernel::from_source(
        &ctx,
        "__kernel void vector_add(__global const uint* a) { }",
        "vector_add",
    )
    .expect("kernel");

    let buf = ctx.create_empty_buffer::<u32>(5).expect("buffer");
    let buf = buf.write_block(&q, &[1u32, 1, 1, 1, 1]).expect("write");
    kernel.set_arg_buffer(0, &buf).expect("arg");
    kernel.set_arg_scalar(1, &5u32).expect("scalar arg");

    let (inflight, token) = buf.enqueue_kernel(&q, &kernel, 5).expect("launch");
    let resolved = token.wait(inflight);
    assert_eq!(resolved.len(), 5);
}

#[test]
fn size_mismatch_is_rejected() {
    let ctx = Context::create_context().expect("context");
    let q = ctx.create_queue().expect("queue");

    let buf = ctx.create_empty_buffer::<u32>(3).expect("buffer");
    let err = buf.write_block(&q, &[1u32, 2]).unwrap_err();
    assert_eq!(
        err,
        Error::BufferSizeMismatch {
            expected: 3,
            actual: 2
        }
    );
}

#[test]
fn byte_level_size_mismatch_is_rejected() {
    let ctx = Context::create_context().expect("context");
    let q = ctx.create_queue().expect("queue");

    // 3 elements of a 4-byte type occupy 12 bytes; 10 bytes must be rejected.
    let buf = ctx.create_empty_buffer::<u32>(3).expect("buffer");
    let mut buf = buf.write_block(&q, &[0u32, 0, 0]).expect("write");
    let err = buf.overwrite_byte_blocking(&q, &[0u8; 10]).unwrap_err();
    assert_eq!(
        err,
        Error::BufferSizeMismatch {
            expected: 12,
            actual: 10
        }
    );

    let ok = buf.overwrite_byte_blocking(&q, &[1u8; 12]);
    assert!(ok.is_ok());
    let mut out = vec![0u32; 3];
    buf.enqueue_read_blocking(&q, &mut out).expect("read");
    assert_eq!(out, vec![0x01010101; 3]);
}

#[test]
fn allocation_overflow_is_rejected() {
    let ctx = Context::create_context().expect("context");
    let n = usize::MAX / 2;
    let err = ctx.create_empty_buffer::<u64>(n).unwrap_err();
    assert!(matches!(err, Error::AllocationFailed(_)));
}

#[test]
fn read_into_wrong_length_is_rejected() {
    let ctx = Context::create_context().expect("context");
    let q = ctx.create_queue().expect("queue");

    let buf = ctx.create_empty_buffer::<u8>(4).expect("buffer");
    let buf = buf.write_block(&q, &[1u8, 2, 3, 4]).expect("write");
    let mut out = vec![0u8; 3];
    let err = buf.enqueue_read_blocking(&q, &mut out).unwrap_err();
    assert_eq!(
        err,
        Error::BufferSizeMismatch {
            expected: 4,
            actual: 3
        }
    );
}

#[test]
fn low_level_buffer_roundtrip() {
    let buf = hpc_core::GpuBuffer::create_empty_buffer::<u8>(4).expect("alloc");
    assert_eq!(buf.len_bytes(), 4);
    assert_eq!(buf.dev_len_bytes(), 4);

    let mut written = buf.write_block(&[5u8, 6, 7, 8]).expect("write");
    let mut out = vec![0u8; 4];
    written.enqueue_read(&mut out, true).expect("read");
    assert_eq!(out, vec![5, 6, 7, 8]);

    written.overwrite(&[9u8, 9, 9, 9], false).expect("overwrite");
    written.enqueue_read(&mut out, true).expect("read");
    assert_eq!(out, vec![9, 9, 9, 9]);
}

#[test]
fn inject_is_inert() {
    hpc_core::bug_injection::inject(hpc_core::bug_injection::FailKind::F1_DoubleWait);
    hpc_core::bug_injection::inject(hpc_core::bug_injection::FailKind::F8_Other);
}

#[test]
fn write_blocking_rewrites_in_place() {
    let ctx = Context::create_context().expect("context");
    let q = ctx.create_queue().expect("queue");

    let buf = ctx.create_empty_buffer::<u32>(2).expect("buffer");
    let buf = buf.write_block(&q, &[1u32, 2]).expect("write");
    let buf = buf.write_blocking(&q, &[3u32, 4]).expect("rewrite");

    let mut out = vec![0u32; 2];
    buf.enqueue_read_blocking(&q, &mut out).expect("read");
    assert_eq!(out, vec![3, 4]);
}

#[test]
fn overwrite_blocking_keeps_state() {
    let ctx = Context::create_context().expect("context");
    let q = ctx.create_queue().expect("queue");

    let buf = ctx.create_empty_buffer::<u8>(3).expect("buffer");
    let mut buf = buf.write_block(&q, &[1u8, 2, 3]).expect("write");
    buf.overwrite_blocking(&q, &[4u8, 5, 6]).expect("overwrite");

    let mut out = vec![0u8; 3];
    buf.enqueue_read_blocking(&q, &mut out).expect("read");
    assert_eq!(out, vec![4, 5, 6]);
}

#[test]
fn write_non_block_pairs_its_token() {
    let ctx = Context::create_context().expect("context");
    let q = ctx.create_queue().expect("queue");

    let buf = ctx.create_empty_buffer::<u64>(2).expect("buffer");
    let buf = buf.write_block(&q, &[0u64, 0]).expect("write");
    let (inflight, token) = buf.write_non_block(&q, &[5u64, 6]).expect("async write");
    let written = token.wait(inflight);

    let mut out = vec![0u64; 2];
    written.enqueue_read_blocking(&q, &mut out).expect("read");
    assert_eq!(out, vec![5, 6]);
}

#[test]
fn overwrite_byte_non_blocking_roundtrip() {
    let ctx = Context::create_context().expect("context");
    let q = ctx.create_queue().expect("queue");

    let buf = ctx.create_empty_buffer::<u32>(1).expect("buffer");
    let buf = buf.write_block(&q, &[0u32]).expect("write");
    let (inflight, token) = buf
        .overwrite_byte_non_blocking(&q, &[0x44, 0x33, 0x22, 0x11])
        .expect("byte overwrite");
    let written = token.wait(inflight);

    let mut out = vec![0u32; 1];
    written.enqueue_read_blocking(&q, &mut out).expect("read");
    assert_eq!(out, vec![0x11223344]);
}
