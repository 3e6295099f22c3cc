use vstd::prelude::*;

verus! {

/// An IPv6 socket address: the address as a 128-bit integer, the port, and
/// the flow label and scope id that IPv6 socket addresses carry.
#[derive(Clone, Copy, Debug, PartialEq, Eq, Structural)]
pub struct Endpoint {
    pub ip: u128,
    pub port: u16,
    pub flowinfo: u32,
    pub scope_id: u32,
}

impl Endpoint {
    /// An endpoint with no flow label and no scope id.
    pub fn new(ip: u128, port: u16) -> (r: Endpoint)
        ensures
            r == (Endpoint { ip, port, flowinfo: 0, scope_id: 0 }),
    {
        Endpoint { ip, port, flowinfo: 0, scope_id: 0 }
    }
}

} // verus!
