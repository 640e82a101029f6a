//! The listener for DNS over QUIC.

use vstd::prelude::*;

verus! {

/// The adapter for DNS over QUIC.
#[derive(Debug, Clone, Copy)]
pub struct DoqAdapter;

impl DoqAdapter {
    /// The name of the protocol.
    pub fn protocol_name(&self) -> (r: &'static str)
        ensures
            r@ == "doq"@,
    {
        "doq"
    }
}

} // verus!
