//! A bounded-concurrency TCP port reachability engine.
//!
//! The engine decides, step by step, which probe to launch next under a
//! concurrency ceiling, records each probe's outcome, and assembles the
//! complete reachability map: exactly one entry per requested port. The
//! network work itself (connecting, racing a deadline) is performed by the
//! caller, which feeds each outcome back into the engine.

pub mod engine;
pub mod error;
pub mod limiter;
pub mod probe;
