//! Timeout-bounded execution for actor-bound asynchronous computations.
//!
//! The crate provides two combinators and one broadcast primitive:
//!
//! - [`fut::timeout::Timeout`] wraps a single-value actor future with a
//!   deadline and resolves with the future's output or a timeout error;
//! - [`fut::stream_timeout::StreamTimeout`] wraps an actor stream and reports
//!   a timeout error for every silent period that exceeds the configured
//!   duration, without ever ending the stream itself;
//! - [`waiter::Waiter`] lets many independent observers wait for one value
//!   that is broadcast at most once.
//!
//! All computations are driven cooperatively: a poll never blocks, it only
//! inspects the current instant carried by the scheduling handle and reports
//! readiness.

pub mod actor;
pub mod clock;
pub mod fut;
pub mod waiter;
