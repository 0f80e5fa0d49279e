use vstd::prelude::*;

use crate::net::packet_buf::{
    be16, be16_bytes, be32, be32_bytes, overwrite, push_be16, push_be32, read_be16, read_be32,
    PacketBufMut,
};
use crate::net::Result;

verus! {

/// Length of an IPv4 header without options.
pub const IP4_HDR_LEN: usize = 20;

/// The IP version this stack speaks.
pub const IP4_VERSION: u8 = 4;

/// Protocol number of UDP.
pub const IPPROTO_UDP: u8 = 17;

/// Transport protocols.
#[derive(Debug, Clone, Copy, PartialEq, Eq)]
pub enum IpProto {
    UDP,
}

impl IpProto {
    /// The protocol number.
    pub fn value(self) -> (r: u8)
        ensures
            r == IPPROTO_UDP,
    {
        IPPROTO_UDP
    }
}

/// The three IPv4 flag bits, as the value of the 3-bit flags field.
#[derive(Debug, Clone, Copy, PartialEq, Eq)]
pub enum IpFlags {
    Reserved,
    DontFragment,
    MoreFragment,
}

impl IpFlags {
    /// The value of the flags field with only this bit set.
    pub open spec fn spec_value(self) -> u8 {
        match self {
            IpFlags::Reserved => 1,
            IpFlags::DontFragment => 2,
            IpFlags::MoreFragment => 4,
        }
    }

    /// The value of the flags field with only this bit set.
    pub fn value(self) -> (r: u8)
        ensures
            r == self.spec_value(),
    {
        match self {
            IpFlags::Reserved => 1,
            IpFlags::DontFragment => 2,
            IpFlags::MoreFragment => 4,
        }
    }
}

/// An IPv4 header without options; numbers are in host order.
///
/// `hdr_len_version` packs the version (high nibble) and the header length
/// in 32-bit words (low nibble); `flags_frag_offset` packs the three flag
/// bits (high) and the 13-bit fragment offset.
#[derive(Debug, Clone, Copy, PartialEq, Eq)]
pub struct Ip4Hdr {
    pub hdr_len_version: u8,
    pub tos: u8,
    pub total_len: u16,
    pub id: u16,
    pub flags_frag_offset: u16,
    pub ttl: u8,
    pub proto: u8,
    pub checksum: u16,
    pub src_addr: u32,
    pub dst_addr: u32,
}

/// Sum of the first `n` big-endian 16-bit words of `s`.
pub open spec fn word_sum(s: Seq<u8>, n: nat) -> nat
    decreases n,
{
    if n == 0 {
        0
    } else {
        word_sum(s, (n - 1) as nat) + s[2 * (n - 1)] as nat * 0x100 + s[2 * (n - 1) + 1] as nat
    }
}

/// One folding of the carries above bit 16 back into the low 16 bits.
pub open spec fn fold16(x: nat) -> nat {
    x / 0x1_0000 + x % 0x1_0000
}

/// The Internet checksum of a 20-byte header: the one's complement of the
/// one's-complement sum of its ten 16-bit words.
pub open spec fn ip4_checksum(s: Seq<u8>) -> u16 {
    (0xffff - fold16(fold16(word_sum(s, 10)))) as u16
}

impl Ip4Hdr {
    /// The header on the wire.
    pub open spec fn bytes(self) -> Seq<u8> {
        seq![self.hdr_len_version, self.tos] + be16_bytes(self.total_len) + be16_bytes(self.id)
            + be16_bytes(self.flags_frag_offset) + seq![self.ttl, self.proto] + be16_bytes(
            self.checksum,
        ) + be32_bytes(self.src_addr) + be32_bytes(self.dst_addr)
    }

    /// The header that the twenty bytes `s` hold.
    pub open spec fn parse(s: Seq<u8>) -> Ip4Hdr {
        Ip4Hdr {
            hdr_len_version: s[0],
            tos: s[1],
            total_len: be16(s.subrange(2, 4)),
            id: be16(s.subrange(4, 6)),
            flags_frag_offset: be16(s.subrange(6, 8)),
            ttl: s[8],
            proto: s[9],
            checksum: be16(s.subrange(10, 12)),
            src_addr: be32(s.subrange(12, 16)),
            dst_addr: be32(s.subrange(16, 20)),
        }
    }

    /// The header with the fixed fields this stack sends: version 4, five
    /// words long, TOS 0, ID 0, Don't Fragment, offset 0, TTL 64.
    pub open spec fn with_defaults(self) -> Ip4Hdr {
        Ip4Hdr {
            hdr_len_version: 0x45,
            tos: 0,
            id: 0,
            flags_frag_offset: 0x4000,
            ttl: 64,
            ..self
        }
    }

    /// Reads the header at the cursor and moves the cursor past it.
    pub fn from_packet_buf(packet: &mut PacketBufMut) -> (r: Result<Self>)
        requires
            old(packet).wf(),
        ensures
            final(packet).wf(),
            match r {
                Ok(h) => {
                    let o = old(packet).packet_offset as int;
                    &&& o + IP4_HDR_LEN <= old(packet).buffer@.len()
                    &&& h == Ip4Hdr::parse(old(packet).buffer@.subrange(o, o + IP4_HDR_LEN))
                    &&& PacketBufMut::moved_to(*old(packet), *final(packet), o + IP4_HDR_LEN)
                },
                Err(e) => e == crate::net::Error::NotEnoughBytes && old(packet).packet_offset
                    + IP4_HDR_LEN > old(packet).buffer@.len() && *final(packet) == *old(packet),
            },
    {
        let b = packet.get_bytes(IP4_HDR_LEN)?;
        let s = b.as_slice();
        Ok(
            Ip4Hdr {
                hdr_len_version: s[0],
                tos: s[1],
                total_len: read_be16(s, 2),
                id: read_be16(s, 4),
                flags_frag_offset: read_be16(s, 6),
                ttl: s[8],
                proto: s[9],
                checksum: read_be16(s, 10),
                src_addr: read_be32(s, 12),
                dst_addr: read_be32(s, 16),
            },
        )
    }

    /// Takes the header at the cursor for writing and fills in the fixed
    /// fields (see [`Ip4Hdr::with_defaults`]).
    pub fn with_packet_buf(packet: &mut PacketBufMut) -> (r: Result<Self>)
        requires
            old(packet).wf(),
        ensures
            final(packet).wf(),
            match r {
                Ok(h) => {
                    let o = old(packet).packet_offset as int;
                    &&& o + IP4_HDR_LEN <= old(packet).buffer@.len()
                    &&& h == Ip4Hdr::parse(
                        old(packet).buffer@.subrange(o, o + IP4_HDR_LEN),
                    ).with_defaults()
                    &&& PacketBufMut::moved_to(*old(packet), *final(packet), o + IP4_HDR_LEN)
                },
                Err(e) => e == crate::net::Error::NotEnoughBytes && old(packet).packet_offset
                    + IP4_HDR_LEN > old(packet).buffer@.len() && *final(packet) == *old(packet),
            },
    {
        let hdr = Self::from_packet_buf(packet)?;
        let mut hdr = hdr.set_version(IP4_VERSION).set_hdr_len(5);
        hdr.tos = 0;
        hdr.id = 0;
        let mut hdr = hdr.set_flags(IpFlags::DontFragment.value()).set_frag_offset(0);
        hdr.ttl = 64;
        Ok(hdr)
    }

    /// Header length in 32-bit words.
    pub fn hdr_len(&self) -> (r: u8)
        ensures
            r == self.hdr_len_version % 16,
    {
        self.hdr_len_version % 16
    }

    /// IP version.
    pub fn version(&self) -> (r: u8)
        ensures
            r == self.hdr_len_version / 16,
    {
        self.hdr_len_version / 16
    }

    /// The three flag bits.
    pub fn flags(&self) -> (r: u8)
        ensures
            r == self.flags_frag_offset / 0x2000,
    {
        (self.flags_frag_offset / 0x2000) as u8
    }

    /// The 13-bit fragment offset.
    pub fn frag_offset(&self) -> (r: u16)
        ensures
            r == self.flags_frag_offset % 0x2000,
    {
        self.flags_frag_offset % 0x2000
    }

    /// Sets the header length (low four bits of `v`).
    pub fn set_hdr_len(self, v: u8) -> (r: Self)
        ensures
            r == (Ip4Hdr {
                hdr_len_version: ((self.hdr_len_version / 16) * 16 + v % 16) as u8,
                ..self
            }),
    {
        Ip4Hdr { hdr_len_version: (self.hdr_len_version / 16) * 16 + v % 16, ..self }
    }

    /// Sets the version (low four bits of `v`).
    pub fn set_version(self, v: u8) -> (r: Self)
        ensures
            r == (Ip4Hdr {
                hdr_len_version: ((v % 16) * 16 + self.hdr_len_version % 16) as u8,
                ..self
            }),
    {
        Ip4Hdr { hdr_len_version: (v % 16) * 16 + self.hdr_len_version % 16, ..self }
    }

    /// Sets the total length.
    pub fn set_total_length(self, v: u16) -> (r: Self)
        ensures
            r == (Ip4Hdr { total_len: v, ..self }),
    {
        Ip4Hdr { total_len: v, ..self }
    }

    /// Sets the three flag bits (low three bits of `v`), keeping the offset.
    pub fn set_flags(self, v: u8) -> (r: Self)
        ensures
            r == (Ip4Hdr {
                flags_frag_offset: ((v % 8) as u16 * 0x2000 + self.flags_frag_offset % 0x2000) as u16,
                ..self
            }),
    {
        Ip4Hdr {
            flags_frag_offset: (v % 8) as u16 * 0x2000 + self.flags_frag_offset % 0x2000,
            ..self
        }
    }

    /// Sets the fragment offset (low thirteen bits of `v`), keeping the flags.
    pub fn set_frag_offset(self, v: u16) -> (r: Self)
        ensures
            r == (Ip4Hdr {
                flags_frag_offset: ((self.flags_frag_offset / 0x2000) * 0x2000 + v % 0x2000) as u16,
                ..self
            }),
    {
        Ip4Hdr {
            flags_frag_offset: (self.flags_frag_offset / 0x2000) * 0x2000 + v % 0x2000,
            ..self
        }
    }

    /// Marks the packet as carrying UDP.
    pub fn udp(self) -> (r: Self)
        ensures
            r == (Ip4Hdr { proto: IPPROTO_UDP, ..self }),
    {
        Ip4Hdr { proto: IpProto::UDP.value(), ..self }
    }

    /// Sets the source address (host order).
    pub fn set_src_address(self, v: u32) -> (r: Self)
        ensures
            r == (Ip4Hdr { src_addr: v, ..self }),
    {
        Ip4Hdr { src_addr: v, ..self }
    }

    /// Sets the destination address (host order).
    pub fn set_dst_address(self, v: u32) -> (r: Self)
        ensures
            r == (Ip4Hdr { dst_addr: v, ..self }),
    {
        Ip4Hdr { dst_addr: v, ..self }
    }

    /// The header on the wire.
    pub fn encode(&self) -> (r: Vec<u8>)
        ensures
            r@ == self.bytes(),
    {
        let mut out: Vec<u8> = Vec::with_capacity(IP4_HDR_LEN);
        out.push(self.hdr_len_version);
        out.push(self.tos);
        push_be16(&mut out, self.total_len);
        push_be16(&mut out, self.id);
        push_be16(&mut out, self.flags_frag_offset);
        out.push(self.ttl);
        out.push(self.proto);
        push_be16(&mut out, self.checksum);
        push_be32(&mut out, self.src_addr);
        push_be32(&mut out, self.dst_addr);
        assert(out@ =~= self.bytes());
        out
    }

    /// Sets the checksum to the Internet checksum of the header, computed
    /// with the checksum field at zero.
    pub fn calc_checksum(self) -> (r: Self)
        ensures
            r == (Ip4Hdr {
                checksum: ip4_checksum(Ip4Hdr { checksum: 0, ..self }.bytes()),
                ..self
            }),
    {
        let zeroed = Ip4Hdr { checksum: 0, ..self };
        let b = zeroed.encode();
        let mut sum: u32 = 0;
        let mut i: usize = 0;
        while i < 10
            invariant
                i <= 10,
                b@.len() == 20,
                sum == word_sum(b@, i as nat),
                sum <= i * 0xffff,
            decreases 10 - i,
        {
            sum = sum + b[2 * i] as u32 * 0x100 + b[2 * i + 1] as u32;
            i = i + 1;
        }
        sum = sum / 0x1_0000 + sum % 0x1_0000;
        sum = sum / 0x1_0000 + sum % 0x1_0000;
        Ip4Hdr { checksum: (0xffff - sum) as u16, ..self }
    }

    /// Writes the header at position `at` of `packet`.
    pub fn store(&self, packet: &mut PacketBufMut, at: usize)
        requires
            old(packet).wf(),
            at + IP4_HDR_LEN <= old(packet).buffer@.len(),
        ensures
            final(packet).wf(),
            final(packet).buffer@ == overwrite(old(packet).buffer@, at as int, self.bytes()),
            final(packet).packet_offset == old(packet).packet_offset,
            final(packet).packet_len == if old(packet).packet_len >= at + IP4_HDR_LEN {
                old(packet).packet_len as int
            } else {
                at + IP4_HDR_LEN
            },
    {
        let b = self.encode();
        packet.write_at(at, b.as_slice());
    }

    /// Decoding what was encoded gives the header back.
    pub proof fn lemma_parse_bytes(self)
        ensures
            Ip4Hdr::parse(self.bytes()) == self,
    {
        let s = self.bytes();
        assert(s.subrange(2, 4) =~= be16_bytes(self.total_len));
        assert(s.subrange(4, 6) =~= be16_bytes(self.id));
        assert(s.subrange(6, 8) =~= be16_bytes(self.flags_frag_offset));
        assert(s.subrange(10, 12) =~= be16_bytes(self.checksum));
        assert(s.subrange(12, 16) =~= be32_bytes(self.src_addr));
        assert(s.subrange(16, 20) =~= be32_bytes(self.dst_addr));
    }
}

} // verus!
