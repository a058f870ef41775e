//! Coalescing gateway engine: turns synchronous chat-completion submissions
//! into periodic upstream batches and tracks every request through a durable,
//! monotonic lifecycle.

pub mod status;
pub mod record;
pub mod handler;
pub mod dispatch;
pub mod wire;
pub mod store;
pub mod poll;
pub mod config;
pub mod keys;
pub mod upstream;
