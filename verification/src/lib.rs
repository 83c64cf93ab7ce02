//! A safety layer for asynchronous accelerator-memory operations.
//!
//! The heart of the crate is the device-buffer lifecycle protocol: a typed
//! buffer moves through the states `Empty` -> `Written` -> `InFlight` ->
//! `Written` (with an orthogonal `Written` -> `Mapped` -> `Written` branch),
//! every transition consumes its input, and the only way out of `InFlight`
//! is to consume the matching completion token. Cross-session misuse is
//! rejected by an invariant lifetime brand shared by everything a `Context`
//! creates. Around the protocol sit small instrumentation helpers: a memory
//! transfer tracer, a run-metrics recorder, and the validation and
//! formatting logic of the run-log schema.

mod sealed;

pub mod api;
pub mod bug_injection;
pub mod buffer;
pub mod clock;
pub mod digits;
pub mod error;
pub mod memtracer;
pub mod metrics;
pub mod scalar;
pub mod state;

pub use api::{create_buffer, Context, DeviceBuffer, EventToken, Kernel, MapToken, Queue, ReadGuard};
pub use error::Error;
pub use state::{Empty, InFlight, Mapped, State, Synchronized, Written};

pub use buffer::GpuBuffer;
pub use scalar::KernelScalar;
