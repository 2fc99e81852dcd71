//! Verified core of a gas-concentration monitor.
//!
//! The library covers the telemetry refresh cycle: the poll scheduler that
//! decides when to re-poll the external store, the in-memory reading buffer
//! with its replace-all consistency model, the threshold classification used
//! for alerting, the quadratic local approximation used to smooth the
//! displayed trend, and the view-mode state machine. Rendering, the database
//! driver and the host clock are collaborators outside this crate: they hand
//! the core plain values and take plain values back.

pub mod approx;
pub mod buffer;
pub mod model;
pub mod monitor;
pub mod scheduler;
pub mod view;
