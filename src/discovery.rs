use vstd::prelude::*;

use crate::endpoint::Endpoint;
use crate::iface::IpAddress;

verus! {

/// The port that relays listen on for unicast peers.
pub const RELAY_PORT: u16 = 9908;

/// The first IPv6 address of `ips`.
pub open spec fn first_ipv6(ips: Seq<IpAddress>) -> Option<u128>
    decreases ips.len(),
{
    if ips.len() == 0 {
        None
    } else {
        match ips[0] {
            IpAddress::V6(a) => Some(a),
            IpAddress::V4(_) => first_ipv6(ips.drop_first()),
        }
    }
}

/// One target per peer that has an IPv6 address: its first such address, on
/// `port`, in the order of the peers.
pub open spec fn targets_of(peers: Seq<Vec<IpAddress>>, port: u16) -> Seq<Endpoint>
    decreases peers.len(),
{
    if peers.len() == 0 {
        seq![]
    } else {
        let rest = targets_of(peers.drop_last(), port);
        match first_ipv6(peers.last()@) {
            Some(a) => rest.push(Endpoint { ip: a, port, flowinfo: 0, scope_id: 0 }),
            None => rest,
        }
    }
}

/// The first IPv6 address among `ips`, if any.
pub fn first_ipv6_of(ips: &Vec<IpAddress>) -> (r: Option<u128>)
    ensures
        r == first_ipv6(ips@),
{
    let mut i: usize = 0;
    assert(ips@.subrange(0, ips@.len() as int) =~= ips@);
    while i < ips.len()
        invariant
            i <= ips@.len(),
            first_ipv6(ips@) == first_ipv6(ips@.subrange(i as int, ips@.len() as int)),
        decreases ips.len() - i,
    {
        proof {
            let rest = ips@.subrange(i as int, ips@.len() as int);
            assert(rest.drop_first() =~= ips@.subrange(i as int + 1, ips@.len() as int));
            assert(rest[0] == ips@[i as int]);
        }
        if let IpAddress::V6(a) = ips[i] {
            return Some(a);
        }
        i = i + 1;
    }
    None
}

/// The unicast targets for a list of peers, each given by its addresses: the
/// first IPv6 address of each peer that has one, on `port`.
pub fn peer_targets(peers: &Vec<Vec<IpAddress>>, port: u16) -> (r: Vec<Endpoint>)
    ensures
        r@ == targets_of(peers@, port),
{
    let mut r: Vec<Endpoint> = Vec::new();
    let mut i: usize = 0;
    while i < peers.len()
        invariant
            i <= peers@.len(),
            r@ == targets_of(peers@.subrange(0, i as int), port),
        decreases peers.len() - i,
    {
        proof {
            let next = peers@.subrange(0, i as int + 1);
            assert(next.drop_last() =~= peers@.subrange(0, i as int));
        }
        if let Some(a) = first_ipv6_of(&peers[i]) {
            r.push(Endpoint::new(a, port));
        }
        i = i + 1;
    }
    assert(peers@.subrange(0, peers@.len() as int) =~= peers@);
    r
}

} // verus!
