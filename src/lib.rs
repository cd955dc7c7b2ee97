//! Buffered byte-stream protocol engine.
//!
//! A protocol handler states what it waits for next (a number of bytes, a
//! delimiter, a drained output buffer, a deadline) and the engine decides,
//! step by step, which socket operation or handler callback comes next.
//! The reactor glue performs the steps; every decision is made here.
pub mod time;
pub mod errors;
pub mod protocol;
pub mod intention;
pub mod buffer;
pub mod substr;
pub mod stream;
pub mod persistent;
pub mod accept;

pub use errors::ProtocolStop;
pub use intention::{Intent, IntentBuilder};
pub use protocol::{Exception, Expectation};
pub use time::Time;
