//! Helpers of the `tracing` layer that writes Perfetto traces for the runtime.
pub mod atomic_u64;
pub mod error;
pub mod external;
