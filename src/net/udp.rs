use vstd::prelude::*;

use crate::net::packet_buf::{be16, be16_bytes, overwrite, push_be16, read_be16, PacketBufMut};
use crate::net::Result;

verus! {

/// Length of a UDP header.
pub const UDP_HDR_LEN: usize = 8;

/// A UDP header; numbers are in host order. `len` covers header and
/// payload; `sum` is the checksum, which this stack sends as zero.
#[derive(Debug, Clone, Copy, PartialEq, Eq)]
pub struct UdpHdr {
    pub src_port: u16,
    pub dst_port: u16,
    pub len: u16,
    pub sum: u16,
}

impl UdpHdr {
    /// The header on the wire.
    pub open spec fn bytes(self) -> Seq<u8> {
        be16_bytes(self.src_port) + be16_bytes(self.dst_port) + be16_bytes(self.len) + be16_bytes(
            self.sum,
        )
    }

    /// The header that the eight bytes `s` hold.
    pub open spec fn parse(s: Seq<u8>) -> UdpHdr {
        UdpHdr {
            src_port: be16(s.subrange(0, 2)),
            dst_port: be16(s.subrange(2, 4)),
            len: be16(s.subrange(4, 6)),
            sum: be16(s.subrange(6, 8)),
        }
    }

    /// Reads the header at the cursor and moves the cursor past it.
    pub fn from_packet_buf(packet: &mut PacketBufMut) -> (r: Result<Self>)
        requires
            old(packet).wf(),
        ensures
            final(packet).wf(),
            match r {
                Ok(h) => {
                    let o = old(packet).packet_offset as int;
                    &&& o + UDP_HDR_LEN <= old(packet).buffer@.len()
                    &&& h == UdpHdr::parse(old(packet).buffer@.subrange(o, o + UDP_HDR_LEN))
                    &&& PacketBufMut::moved_to(*old(packet), *final(packet), o + UDP_HDR_LEN)
                },
                Err(e) => e == crate::net::Error::NotEnoughBytes && old(packet).packet_offset
                    + UDP_HDR_LEN > old(packet).buffer@.len() && *final(packet) == *old(packet),
            },
    {
        let b = packet.get_bytes(UDP_HDR_LEN)?;
        let s = b.as_slice();
        Ok(
            UdpHdr {
                src_port: read_be16(s, 0),
                dst_port: read_be16(s, 2),
                len: read_be16(s, 4),
                sum: read_be16(s, 6),
            },
        )
    }

    /// Takes the header at the cursor for writing, with a zero checksum.
    pub fn with_packet_buf(packet: &mut PacketBufMut) -> (r: Result<Self>)
        requires
            old(packet).wf(),
        ensures
            final(packet).wf(),
            match r {
                Ok(h) => {
                    let o = old(packet).packet_offset as int;
                    &&& o + UDP_HDR_LEN <= old(packet).buffer@.len()
                    &&& h == (UdpHdr {
                        sum: 0,
                        ..UdpHdr::parse(old(packet).buffer@.subrange(o, o + UDP_HDR_LEN))
                    })
                    &&& PacketBufMut::moved_to(*old(packet), *final(packet), o + UDP_HDR_LEN)
                },
                Err(e) => e == crate::net::Error::NotEnoughBytes && old(packet).packet_offset
                    + UDP_HDR_LEN > old(packet).buffer@.len() && *final(packet) == *old(packet),
            },
    {
        let hdr = Self::from_packet_buf(packet)?;
        Ok(UdpHdr { sum: 0, ..hdr })
    }

    /// Sets the source port.
    pub fn set_src_port(self, v: u16) -> (r: Self)
        ensures
            r == (UdpHdr { src_port: v, ..self }),
    {
        UdpHdr { src_port: v, ..self }
    }

    /// Sets the destination port.
    pub fn set_dst_port(self, v: u16) -> (r: Self)
        ensures
            r == (UdpHdr { dst_port: v, ..self }),
    {
        UdpHdr { dst_port: v, ..self }
    }

    /// Sets the length of header and payload.
    pub fn set_length(self, v: u16) -> (r: Self)
        ensures
            r == (UdpHdr { len: v, ..self }),
    {
        UdpHdr { len: v, ..self }
    }

    /// The header on the wire.
    pub fn encode(&self) -> (r: Vec<u8>)
        ensures
            r@ == self.bytes(),
    {
        let mut out: Vec<u8> = Vec::with_capacity(UDP_HDR_LEN);
        push_be16(&mut out, self.src_port);
        push_be16(&mut out, self.dst_port);
        push_be16(&mut out, self.len);
        push_be16(&mut out, self.sum);
        assert(out@ =~= self.bytes());
        out
    }

    /// Writes the header at position `at` of `packet`.
    pub fn store(&self, packet: &mut PacketBufMut, at: usize)
        requires
            old(packet).wf(),
            at + UDP_HDR_LEN <= old(packet).buffer@.len(),
        ensures
            final(packet).wf(),
            final(packet).buffer@ == overwrite(old(packet).buffer@, at as int, self.bytes()),
            final(packet).packet_offset == old(packet).packet_offset,
            final(packet).packet_len == if old(packet).packet_len >= at + UDP_HDR_LEN {
                old(packet).packet_len as int
            } else {
                at + UDP_HDR_LEN
            },
    {
        let b = self.encode();
        packet.write_at(at, b.as_slice());
    }

    /// Decoding what was encoded gives the header back.
    pub proof fn lemma_parse_bytes(self)
        ensures
            UdpHdr::parse(self.bytes()) == self,
    {
        let s = self.bytes();
        assert(s.subrange(0, 2) =~= be16_bytes(self.src_port));
        assert(s.subrange(2, 4) =~= be16_bytes(self.dst_port));
        assert(s.subrange(4, 6) =~= be16_bytes(self.len));
        assert(s.subrange(6, 8) =~= be16_bytes(self.sum));
    }
}

} // verus!
