use vstd::prelude::*;

verus! {

/// Errors of the protocol layer.
#[derive(Debug, Clone, PartialEq, Eq)]
pub enum Error {
    /// The packet buffer holds fewer bytes than were asked for.
    NotEnoughBytes,
    /// A seek past the end of the packet buffer.
    InvalidSeekPos,
    /// A datagram was addressed to an IPv4 address with no ARP entry.
    MissingArpEntry,
    /// The XSK layer failed.
    Xsk(crate::xsk::Error),
}

/// Result of the protocol layer.
pub type Result<T> = core::result::Result<T, Error>;

} // verus!
