//! The listener for plain DNS.

use vstd::prelude::*;

verus! {

/// The adapter for plain DNS.
#[derive(Debug, Clone, Copy)]
pub struct DnsAdapter;

impl DnsAdapter {
    /// The name of the protocol.
    pub fn protocol_name(&self) -> (r: &'static str)
        ensures
            r@ == "dns"@,
    {
        "dns"
    }
}

} // verus!
