use vstd::prelude::*;

verus! {

/// Lets `std::io::Error` travel inside `NetworkingError`; nothing about its
/// contents is relied on.
#[verifier::external_type_specification]
#[verifier::external_body]
pub struct ExIoError(std::io::Error);

/// Failures while preparing the multicast sockets.
#[derive(Debug)]
pub enum NetworkingError {
    /// The operating system refused a socket operation.
    IoError(std::io::Error),
    /// The interface has no index, so a multicast group cannot be scoped to it.
    UnableToFindInterfaceNumber,
    /// The interface address is IPv4; only IPv6 is relayed.
    Ipv4NotSupported,
}

} // verus!
