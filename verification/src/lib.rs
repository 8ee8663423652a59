//! Core of a browser-control agent server: a per-user task scheduler with
//! crash-safe persistence, a screen-capture relay state machine, and the
//! connection registry that both deliver through.

pub mod kv;
pub mod task;
pub mod codec;
pub mod scheduler;
pub mod registry;
pub mod relay;
pub mod wire;
pub mod plan;
pub mod gateway;
pub mod keys;
pub mod console;
