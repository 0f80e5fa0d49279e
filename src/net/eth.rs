use vstd::prelude::*;

use crate::net::packet_buf::{
    array6, be16, be16_bytes, overwrite, push_all, push_be16, read_be16, PacketBufMut,
};
use crate::net::Result;

verus! {

/// Length of an Ethernet II header on the wire.
pub const ETH_HDR_LEN: usize = 14;

/// EtherType of IPv4.
pub const ETH_P_IP: u16 = 0x0800;

/// EtherType of ARP.
pub const ETH_P_ARP: u16 = 0x0806;

/// An Ethernet II header. `eth_address` is the EtherType, in host order.
#[derive(Debug, Clone, Copy, PartialEq, Eq)]
pub struct EthHdr {
    pub dst_address: [u8; 6],
    pub src_address: [u8; 6],
    pub eth_address: u16,
}

/// The EtherTypes this stack handles.
#[derive(Debug, Clone, Copy, PartialEq, Eq)]
pub enum EthType {
    IP4,
    ARP,
}

impl EthType {
    /// The EtherType number.
    pub open spec fn spec_value(self) -> u16 {
        match self {
            EthType::IP4 => ETH_P_IP,
            EthType::ARP => ETH_P_ARP,
        }
    }

    /// The EtherType number.
    pub fn value(self) -> (r: u16)
        ensures
            r == self.spec_value(),
    {
        match self {
            EthType::IP4 => ETH_P_IP,
            EthType::ARP => ETH_P_ARP,
        }
    }

    /// The EtherType with number `x`, if this stack handles it.
    pub fn try_from_u16(x: u16) -> (r: Option<EthType>)
        ensures
            r == (if x == ETH_P_IP {
                Some(EthType::IP4)
            } else if x == ETH_P_ARP {
                Some(EthType::ARP)
            } else {
                None
            }),
    {
        if x == ETH_P_IP {
            Some(EthType::IP4)
        } else if x == ETH_P_ARP {
            Some(EthType::ARP)
        } else {
            None
        }
    }
}

impl EthHdr {
    /// The header on the wire.
    pub open spec fn bytes(self) -> Seq<u8> {
        self.dst_address@ + self.src_address@ + be16_bytes(self.eth_address)
    }

    /// `self` is what the fourteen bytes `s` hold.
    pub open spec fn decodes(self, s: Seq<u8>) -> bool {
        &&& s.len() == ETH_HDR_LEN
        &&& self.dst_address@ == s.subrange(0, 6)
        &&& self.src_address@ == s.subrange(6, 12)
        &&& self.eth_address == be16(s.subrange(12, 14))
    }

    /// Reads the header at the cursor and moves the cursor past it.
    pub fn from_packet_buf(packet: &mut PacketBufMut) -> (r: Result<Self>)
        requires
            old(packet).wf(),
        ensures
            final(packet).wf(),
            match r {
                Ok(h) => {
                    let o = old(packet).packet_offset as int;
                    &&& o + ETH_HDR_LEN <= old(packet).buffer@.len()
                    &&& h.decodes(old(packet).buffer@.subrange(o, o + ETH_HDR_LEN))
                    &&& PacketBufMut::moved_to(*old(packet), *final(packet), o + ETH_HDR_LEN)
                },
                Err(e) => e == crate::net::Error::NotEnoughBytes && old(packet).packet_offset
                    + ETH_HDR_LEN > old(packet).buffer@.len() && *final(packet) == *old(packet),
            },
    {
        let b = packet.get_bytes(ETH_HDR_LEN)?;
        let h = EthHdr {
            dst_address: array6(b.as_slice(), 0),
            src_address: array6(b.as_slice(), 6),
            eth_address: read_be16(b.as_slice(), 12),
        };
        Ok(h)
    }

    /// Takes the header at the cursor for writing, like
    /// [`EthHdr::from_packet_buf`].
    pub fn with_packet_buf(packet: &mut PacketBufMut) -> (r: Result<Self>)
        requires
            old(packet).wf(),
        ensures
            final(packet).wf(),
            match r {
                Ok(h) => {
                    let o = old(packet).packet_offset as int;
                    &&& o + ETH_HDR_LEN <= old(packet).buffer@.len()
                    &&& h.decodes(old(packet).buffer@.subrange(o, o + ETH_HDR_LEN))
                    &&& PacketBufMut::moved_to(*old(packet), *final(packet), o + ETH_HDR_LEN)
                },
                Err(e) => e == crate::net::Error::NotEnoughBytes && old(packet).packet_offset
                    + ETH_HDR_LEN > old(packet).buffer@.len() && *final(packet) == *old(packet),
            },
    {
        Self::from_packet_buf(packet)
    }

    /// Sets the source MAC address.
    pub fn set_src_address(self, a: [u8; 6]) -> (r: Self)
        ensures
            r == (EthHdr { src_address: a, ..self }),
    {
        EthHdr { src_address: a, ..self }
    }

    /// Sets the destination MAC address.
    pub fn set_dst_address(self, a: [u8; 6]) -> (r: Self)
        ensures
            r == (EthHdr { dst_address: a, ..self }),
    {
        EthHdr { dst_address: a, ..self }
    }

    /// Marks the frame as carrying ARP.
    pub fn arp(self) -> (r: Self)
        ensures
            r == (EthHdr { eth_address: ETH_P_ARP, ..self }),
    {
        EthHdr { eth_address: EthType::ARP.value(), ..self }
    }

    /// Marks the frame as carrying IPv4.
    pub fn ip4(self) -> (r: Self)
        ensures
            r == (EthHdr { eth_address: ETH_P_IP, ..self }),
    {
        EthHdr { eth_address: EthType::IP4.value(), ..self }
    }

    /// The header on the wire.
    pub fn encode(&self) -> (r: Vec<u8>)
        ensures
            r@ == self.bytes(),
    {
        let mut out: Vec<u8> = Vec::with_capacity(ETH_HDR_LEN);
        push_all(&mut out, &self.dst_address);
        push_all(&mut out, &self.src_address);
        push_be16(&mut out, self.eth_address);
        out
    }

    /// Writes the header at position `at` of `packet`.
    pub fn store(&self, packet: &mut PacketBufMut, at: usize)
        requires
            old(packet).wf(),
            at + ETH_HDR_LEN <= old(packet).buffer@.len(),
        ensures
            final(packet).wf(),
            final(packet).buffer@ == overwrite(old(packet).buffer@, at as int, self.bytes()),
            final(packet).packet_offset == old(packet).packet_offset,
            final(packet).packet_len == if old(packet).packet_len >= at + ETH_HDR_LEN {
                old(packet).packet_len as int
            } else {
                at + ETH_HDR_LEN
            },
    {
        let b = self.encode();
        packet.write_at(at, b.as_slice());
    }

    /// Decoding what was encoded gives the header back.
    pub proof fn lemma_decodes_bytes(self)
        ensures
            self.decodes(self.bytes()),
    {
        let s = self.bytes();
        assert(s.subrange(0, 6) =~= self.dst_address@);
        assert(s.subrange(6, 12) =~= self.src_address@);
        assert(s.subrange(12, 14) =~= be16_bytes(self.eth_address));
    }
}

} // verus!
