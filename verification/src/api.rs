//! The high-level, session-branded API: a `Context` stands for one device
//! session and is the root of an invariant lifetime brand; the `Queue`,
//! typed `DeviceBuffer`, `Kernel`, and the completion tokens and guards it
//! creates all carry the same brand, so a resource of one session cannot be
//! used against another session's queue or kernel.

pub mod context;
pub mod device_buffer;
pub mod kernel;
pub mod queue;

pub use context::create_buffer;
pub use context::Context;
pub use device_buffer::{DeviceBuffer, EventToken, MapToken, ReadGuard};
pub use kernel::Kernel;
pub use queue::Queue;
