//! The error surfaced when a handler declines at its very start.
use vstd::prelude::*;

verus! {

/// The handler returned "done" right at the start of stream processing.
///
/// Declining from the outset almost always means misuse, so it is reported
/// as an error, not as a clean stop.
#[derive(Clone, Copy, Debug, PartialEq, Eq, Structural)]
pub struct ProtocolStop;

impl ProtocolStop {
    /// Short name of the error.
    pub fn name(&self) -> (r: &'static str)
        ensures
            r@ == "ProtocolStop"@,
    {
        "ProtocolStop"
    }

    /// Longer description of the error.
    pub fn description(&self) -> (r: &'static str)
        ensures
            r@ == "Protocol returned None (which means \"stop\") at start"@,
    {
        "Protocol returned None (which means \"stop\") at start"
    }
}

} // verus!
