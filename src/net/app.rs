use vstd::prelude::*;

use crate::net::packet_buf::PacketBufMut;
use crate::net::stack::NetStack;
use crate::net::Result;
use crate::xsk::desc::Desc;
use crate::xsk::umem::Umem;

verus! {

/// The remote end of a received datagram: IPv4 address (host order) and
/// UDP port.
#[derive(Debug, Clone, Copy, PartialEq, Eq)]
pub struct Socket {
    pub source_address: u32,
    pub source_port: u16,
}

/// A TX slot handed to the application: its descriptor, and a cursor over
/// a copy of its frame placed at the start of the UDP payload.
pub struct PayloadBuf {
    pub xdp_desc: Desc,
    pub packet_buf: PacketBufMut,
}

impl PayloadBuf {
    /// Pairs a descriptor with the cursor over its frame.
    pub fn new(xdp_desc: Desc, packet_buf: PacketBufMut) -> (r: Self)
        ensures
            r == (PayloadBuf { xdp_desc, packet_buf }),
    {
        PayloadBuf { xdp_desc, packet_buf }
    }

    /// The cursor over the frame.
    pub fn packet_buf(&mut self) -> (r: &mut PacketBufMut)
        ensures
            *r == old(self).packet_buf,
            *final(self) == (PayloadBuf { packet_buf: *final(r), ..*old(self) }),
    {
        &mut self.packet_buf
    }

    /// The descriptor.
    pub fn xdp_desc(&mut self) -> (r: &mut Desc)
        ensures
            *r == old(self).xdp_desc,
            *final(self) == (PayloadBuf { xdp_desc: *final(r), ..*old(self) }),
    {
        &mut self.xdp_desc
    }
}

/// An application on top of the stack: it is handed each UDP payload
/// addressed to the bind address and port, and may answer through the
/// stack, whose ARP cache holds the sender. It leaves the fill queue to the
/// RX path.
pub trait App: Sized {
    /// `new`, `ns2` and `umem2` are `self`, `ns` and `umem` after the
    /// application handled `payload` from `socket`, with result `r`.
    spec fn handled(
        self,
        new: Self,
        ns: NetStack,
        ns2: NetStack,
        umem: Umem,
        umem2: Umem,
        socket: Socket,
        payload: Seq<u8>,
        r: Result<()>,
    ) -> bool;

    fn rx_payload(
        &mut self,
        netstack: &mut NetStack,
        umem: &mut Umem,
        socket: &Socket,
        rx_payload: &[u8],
    ) -> (r: Result<()>)
        requires
            old(netstack).wf_with(*old(umem)),
            old(netstack).arp_table.spec_get(socket.source_address) is Some,
        ensures
            final(netstack).wf_with(*final(umem)),
            final(netstack).same_settings(*old(netstack)),
            final(umem).fq == old(umem).fq,
            old(self).handled(
                *final(self),
                *old(netstack),
                *final(netstack),
                *old(umem),
                *final(umem),
                *socket,
                rx_payload@,
                r,
            ),
    ;
}

} // verus!
