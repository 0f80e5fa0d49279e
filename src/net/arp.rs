use vstd::prelude::*;

use crate::net::eth::ETH_P_IP;
use crate::net::packet_buf::{
    array4, array6, be16, be16_bytes, overwrite, push_all, push_be16, read_be16, PacketBufMut,
};
use crate::net::Result;

verus! {

/// Length of an ARP packet for IPv4 over Ethernet.
pub const ARP_HDR_LEN: usize = 28;

/// Hardware types.
#[derive(Debug, Clone, Copy, PartialEq, Eq)]
pub enum Htype {
    Ethernet,
}

impl Htype {
    /// The hardware type number.
    pub fn value(self) -> (r: u16)
        ensures
            r == 1,
    {
        1
    }
}

/// ARP operations.
#[derive(Debug, Clone, Copy, PartialEq, Eq)]
pub enum ArpOpcode {
    REQUEST,
    REPLY,
}

impl ArpOpcode {
    /// The operation number.
    pub open spec fn spec_value(self) -> u16 {
        match self {
            ArpOpcode::REQUEST => 1,
            ArpOpcode::REPLY => 2,
        }
    }

    /// The operation number.
    pub fn value(self) -> (r: u16)
        ensures
            r == self.spec_value(),
    {
        match self {
            ArpOpcode::REQUEST => 1,
            ArpOpcode::REPLY => 2,
        }
    }
}

/// An ARP packet for IPv4 over Ethernet; numbers are in host order.
#[derive(Debug, Clone, Copy, PartialEq, Eq)]
pub struct ArpHdr {
    pub hw_type: u16,
    pub proto_type: u16,
    pub hw_addr_len: u8,
    pub proto_addr_len: u8,
    pub opcode: u16,
    pub sender_hw_addr: [u8; 6],
    pub sender_proto_addr: [u8; 4],
    pub target_hw_addr: [u8; 6],
    pub target_proto_addr: [u8; 4],
}

impl ArpHdr {
    /// The packet on the wire.
    pub open spec fn bytes(self) -> Seq<u8> {
        be16_bytes(self.hw_type) + be16_bytes(self.proto_type) + seq![
            self.hw_addr_len,
            self.proto_addr_len,
        ] + be16_bytes(self.opcode) + self.sender_hw_addr@ + self.sender_proto_addr@
            + self.target_hw_addr@ + self.target_proto_addr@
    }

    /// `self` is what the twenty-eight bytes `s` hold.
    pub open spec fn decodes(self, s: Seq<u8>) -> bool {
        &&& s.len() == ARP_HDR_LEN
        &&& self.hw_type == be16(s.subrange(0, 2))
        &&& self.proto_type == be16(s.subrange(2, 4))
        &&& self.hw_addr_len == s[4]
        &&& self.proto_addr_len == s[5]
        &&& self.opcode == be16(s.subrange(6, 8))
        &&& self.sender_hw_addr@ == s.subrange(8, 14)
        &&& self.sender_proto_addr@ == s.subrange(14, 18)
        &&& self.target_hw_addr@ == s.subrange(18, 24)
        &&& self.target_proto_addr@ == s.subrange(24, 28)
    }

    /// Reads the packet at the cursor and moves the cursor past it.
    pub fn from_packet_buf(packet: &mut PacketBufMut) -> (r: Result<Self>)
        requires
            old(packet).wf(),
        ensures
            final(packet).wf(),
            match r {
                Ok(h) => {
                    let o = old(packet).packet_offset as int;
                    &&& o + ARP_HDR_LEN <= old(packet).buffer@.len()
                    &&& h.decodes(old(packet).buffer@.subrange(o, o + ARP_HDR_LEN))
                    &&& PacketBufMut::moved_to(*old(packet), *final(packet), o + ARP_HDR_LEN)
                },
                Err(e) => e == crate::net::Error::NotEnoughBytes && old(packet).packet_offset
                    + ARP_HDR_LEN > old(packet).buffer@.len() && *final(packet) == *old(packet),
            },
    {
        let b = packet.get_bytes(ARP_HDR_LEN)?;
        let s = b.as_slice();
        Ok(
            ArpHdr {
                hw_type: read_be16(s, 0),
                proto_type: read_be16(s, 2),
                hw_addr_len: s[4],
                proto_addr_len: s[5],
                opcode: read_be16(s, 6),
                sender_hw_addr: array6(s, 8),
                sender_proto_addr: array4(s, 14),
                target_hw_addr: array6(s, 18),
                target_proto_addr: array4(s, 24),
            },
        )
    }

    /// Fills in the fixed fields of a reply for IPv4 over Ethernet.
    pub fn arp_reply_ip(self) -> (r: Self)
        ensures
            r == (ArpHdr {
                hw_type: 1,
                proto_type: ETH_P_IP,
                hw_addr_len: 6,
                proto_addr_len: 4,
                opcode: ArpOpcode::REPLY.spec_value(),
                ..self
            }),
    {
        ArpHdr {
            hw_type: Htype::Ethernet.value(),
            proto_type: ETH_P_IP,
            hw_addr_len: 6,
            proto_addr_len: 4,
            opcode: ArpOpcode::REPLY.value(),
            ..self
        }
    }

    /// Sets the sender hardware address.
    pub fn set_sender_hw_address(self, v: [u8; 6]) -> (r: Self)
        ensures
            r == (ArpHdr { sender_hw_addr: v, ..self }),
    {
        ArpHdr { sender_hw_addr: v, ..self }
    }

    /// Sets the sender protocol address.
    pub fn set_sender_proto_address(self, v: [u8; 4]) -> (r: Self)
        ensures
            r == (ArpHdr { sender_proto_addr: v, ..self }),
    {
        ArpHdr { sender_proto_addr: v, ..self }
    }

    /// Sets the target hardware address.
    pub fn set_target_hw_address(self, v: [u8; 6]) -> (r: Self)
        ensures
            r == (ArpHdr { target_hw_addr: v, ..self }),
    {
        ArpHdr { target_hw_addr: v, ..self }
    }

    /// Sets the target protocol address.
    pub fn set_target_proto_address(self, v: [u8; 4]) -> (r: Self)
        ensures
            r == (ArpHdr { target_proto_addr: v, ..self }),
    {
        ArpHdr { target_proto_addr: v, ..self }
    }

    /// The packet on the wire.
    pub fn encode(&self) -> (r: Vec<u8>)
        ensures
            r@ == self.bytes(),
    {
        let mut out: Vec<u8> = Vec::with_capacity(ARP_HDR_LEN);
        push_be16(&mut out, self.hw_type);
        push_be16(&mut out, self.proto_type);
        out.push(self.hw_addr_len);
        out.push(self.proto_addr_len);
        push_be16(&mut out, self.opcode);
        push_all(&mut out, &self.sender_hw_addr);
        push_all(&mut out, &self.sender_proto_addr);
        push_all(&mut out, &self.target_hw_addr);
        push_all(&mut out, &self.target_proto_addr);
        assert(out@ =~= self.bytes());
        out
    }

    /// Writes the packet at position `at` of `packet`.
    pub fn store(&self, packet: &mut PacketBufMut, at: usize)
        requires
            old(packet).wf(),
            at + ARP_HDR_LEN <= old(packet).buffer@.len(),
        ensures
            final(packet).wf(),
            final(packet).buffer@ == overwrite(old(packet).buffer@, at as int, self.bytes()),
            final(packet).packet_offset == old(packet).packet_offset,
            final(packet).packet_len == if old(packet).packet_len >= at + ARP_HDR_LEN {
                old(packet).packet_len as int
            } else {
                at + ARP_HDR_LEN
            },
    {
        let b = self.encode();
        packet.write_at(at, b.as_slice());
    }

    /// Decoding what was encoded gives the packet back.
    pub proof fn lemma_decodes_bytes(self)
        ensures
            self.decodes(self.bytes()),
    {
        let s = self.bytes();
        assert(s.subrange(0, 2) =~= be16_bytes(self.hw_type));
        assert(s.subrange(2, 4) =~= be16_bytes(self.proto_type));
        assert(s.subrange(6, 8) =~= be16_bytes(self.opcode));
        assert(s.subrange(8, 14) =~= self.sender_hw_addr@);
        assert(s.subrange(14, 18) =~= self.sender_proto_addr@);
        assert(s.subrange(18, 24) =~= self.target_hw_addr@);
        assert(s.subrange(24, 28) =~= self.target_proto_addr@);
    }
}

} // verus!
