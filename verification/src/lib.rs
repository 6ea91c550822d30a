//! Routing core of a TCP connection-level load balancer.
//!
//! The library holds the verified decision logic: the backend registry
//! state, the four selection strategies, the per-connection routing
//! decision with its connection-count bookkeeping, the health-driven
//! weight adaptation, and the rendering of health events into log lines.
//! Listening, dialing, proxying and every other piece of I/O live outside
//! the library and hand it plain values.

pub mod algorithms;
pub mod balancer;
pub mod config;
pub mod health;
pub mod logging;
pub mod state;
