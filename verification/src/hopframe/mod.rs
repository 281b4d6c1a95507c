//! Stack unwinding and symbolization helpers.
pub mod symbolize;
pub mod unwinder;
