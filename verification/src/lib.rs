//! Trace-event sinks for a call-interpreting engine.
//!
//! The crate models the capture of execution-trace events (one per entered or
//! exited call / contract-creation frame, plus standalone self-destruct and
//! reward events) and their routing to one or more sinks: an in-process
//! accumulator, a no-op logger, a broker-streaming publisher, and a composite
//! that fans every event out to an ordered pair of member sinks.

pub mod types;
pub mod payload;
pub mod encode;
pub mod sink;
pub mod streaming_tracer;
pub mod proxy_tracer;
pub mod vmtrace;
