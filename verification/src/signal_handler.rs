//! The event-handler entry points the host framework drives.

pub mod engine;
