use vstd::prelude::*;

use crate::net::app::{App, PayloadBuf, Socket};
use crate::net::arp::{ArpHdr, ArpOpcode, ARP_HDR_LEN};
use crate::net::arp_table::ArpTable;
use crate::net::eth::{EthHdr, EthType, ETH_HDR_LEN, ETH_P_ARP, ETH_P_IP};
use crate::net::ip4::{ip4_checksum, Ip4Hdr, IpProto, IPPROTO_UDP, IP4_HDR_LEN};
use crate::net::packet_buf::{
    array4, array6, be16, be16_bytes, be32, copy_range, read_be16, read_be32, PacketBufMut,
};
use crate::net::udp::{UdpHdr, UDP_HDR_LEN};
use crate::net::{Error, Result};
use crate::xsk::ring::{advance, XdpDesc};
use crate::xsk::socket::TxSocket;
use crate::xsk::umem::Umem;

verus! {

/// Offset of the UDP payload in a frame: Ethernet, IPv4 and UDP headers.
pub const PAYLOAD_OFFSET: usize = 42;

/// Largest frame whose lengths fit the 16-bit length fields.
pub const MAX_FRAME_SIZE: usize = 0xffff;

/// The Ethernet header of a datagram sent from `src` to `dst`.
pub open spec fn ip4_eth_hdr(src: [u8; 6], dst: [u8; 6]) -> EthHdr {
    EthHdr { dst_address: dst, src_address: src, eth_address: ETH_P_IP }
}

/// The IPv4 header of a UDP datagram from `src` to `dst` of `total_len`
/// bytes: version 4, five words, TOS 0, ID 0, Don't Fragment, TTL 64, with
/// its checksum.
pub open spec fn udp_ip4_hdr(src: u32, dst: u32, total_len: u16) -> Ip4Hdr {
    let h = Ip4Hdr {
        hdr_len_version: 0x45,
        tos: 0,
        total_len,
        id: 0,
        flags_frag_offset: 0x4000,
        ttl: 64,
        proto: IPPROTO_UDP,
        checksum: 0,
        src_addr: src,
        dst_addr: dst,
    };
    Ip4Hdr { checksum: ip4_checksum(h.bytes()), ..h }
}

/// The UDP header of a datagram from port `src` to port `dst` of `len`
/// bytes, header included, with no checksum.
pub open spec fn udp_hdr(src: u16, dst: u16, len: u16) -> UdpHdr {
    UdpHdr { src_port: src, dst_port: dst, len, sum: 0 }
}

/// The frame of a UDP datagram of `n` bytes sent from `ns` to `socket`:
/// Ethernet from the interface to the socket's cached MAC address, IPv4
/// from the bind address, UDP from the bind port, then `payload`.
pub open spec fn udp_frame(ns: NetStack, socket: Socket, n: int, payload: Seq<u8>) -> Seq<u8> {
    ip4_eth_hdr(ns.iface_mac, ns.arp_table.spec_get(socket.source_address)->0).bytes()
        + udp_ip4_hdr(ns.bind_address, socket.source_address, (n - ETH_HDR_LEN) as u16).bytes()
        + udp_hdr(ns.bind_port, socket.source_port, (n - ETH_HDR_LEN - IP4_HDR_LEN) as u16).bytes()
        + payload
}

/// Two datagrams sent from one stack with one payload to sockets that
/// differ only in their port differ only in the UDP destination port
/// (bytes 36 and 37); in particular the IPv4 header and its checksum are
/// the same.
pub proof fn lemma_frames_differ_only_in_port(
    ns: NetStack,
    s1: Socket,
    s2: Socket,
    n: int,
    payload: Seq<u8>,
)
    requires
        s1.source_address == s2.source_address,
    ensures
        udp_frame(ns, s1, n, payload).len() == udp_frame(ns, s2, n, payload).len(),
        forall|i: int|
            0 <= i < udp_frame(ns, s1, n, payload).len() && i != 36 && i != 37 ==> #[trigger] udp_frame(
                ns,
                s1,
                n,
                payload,
            )[i] == udp_frame(ns, s2, n, payload)[i],
        udp_frame(ns, s1, n, payload).subrange(36, 38) == be16_bytes(s1.source_port),
        udp_frame(ns, s2, n, payload).subrange(36, 38) == be16_bytes(s2.source_port),
{
    let f1 = udp_frame(ns, s1, n, payload);
    let f2 = udp_frame(ns, s2, n, payload);
    assert(f1.subrange(36, 38) =~= be16_bytes(s1.source_port));
    assert(f2.subrange(36, 38) =~= be16_bytes(s2.source_port));
}

/// The Ethernet header of the reply to an ARP packet that came in with
/// `rx_eth`, sent from `iface_mac`.
pub open spec fn arp_reply_eth(iface_mac: [u8; 6], rx_eth: EthHdr) -> EthHdr {
    EthHdr { dst_address: rx_eth.src_address, src_address: iface_mac, eth_address: ETH_P_ARP }
}

/// The ARP reply to `rx_arp` from `iface_mac`: sender and target swapped,
/// the sender hardware address being the interface's.
pub open spec fn arp_reply(iface_mac: [u8; 6], rx_arp: ArpHdr) -> ArpHdr {
    ArpHdr {
        hw_type: 1,
        proto_type: ETH_P_IP,
        hw_addr_len: 6,
        proto_addr_len: 4,
        opcode: ArpOpcode::REPLY.spec_value(),
        sender_hw_addr: iface_mac,
        sender_proto_addr: rx_arp.target_proto_addr,
        target_hw_addr: rx_arp.sender_hw_addr,
        target_proto_addr: rx_arp.sender_proto_addr,
    }
}

/// The address binding that a received frame `f` teaches the ARP cache:
/// the IPv4 source of a UDP datagram, or the sender of an ARP packet, with
/// the frame's source MAC address.
pub open spec fn learned_binding(f: Seq<u8>) -> Option<(u32, Seq<u8>)> {
    if f.len() >= ETH_HDR_LEN + IP4_HDR_LEN && be16(f.subrange(12, 14)) == ETH_P_IP && f[23]
        == IPPROTO_UDP {
        Some((be32(f.subrange(26, 30)), f.subrange(6, 12)))
    } else if f.len() >= ETH_HDR_LEN + ARP_HDR_LEN && be16(f.subrange(12, 14)) == ETH_P_ARP {
        Some((be32(f.subrange(28, 32)), f.subrange(6, 12)))
    } else {
        None
    }
}

/// The reply to the ARP frame `f`, sent from `iface_mac`: Ethernet to the
/// frame's source, then an ARP reply with the interface as sender hardware
/// address, the request's target as sender protocol address and the
/// request's sender as target.
pub open spec fn arp_reply_frame(iface_mac: [u8; 6], f: Seq<u8>) -> Seq<u8> {
    f.subrange(6, 12) + iface_mac@ + be16_bytes(ETH_P_ARP) + be16_bytes(1) + be16_bytes(ETH_P_IP)
        + seq![6u8, 4u8] + be16_bytes(ArpOpcode::REPLY.spec_value()) + iface_mac@ + f.subrange(38, 42)
        + f.subrange(22, 28) + f.subrange(28, 32)
}

/// What a UDP frame `f` carries for the application: its IPv4 source
/// address and UDP source port, and its payload (the UDP length less the
/// header). `None` for a frame that is not IPv4 carrying UDP; an error when
/// the frame is shorter than its headers or than the UDP length says, or
/// when the UDP length is below the header's.
pub open spec fn spec_udp_datagram(f: Seq<u8>) -> core::result::Result<Option<(Socket, Seq<u8>)>, Error> {
    if f.len() < ETH_HDR_LEN {
        Err(Error::NotEnoughBytes)
    } else if be16(f.subrange(12, 14)) != ETH_P_IP {
        Ok(None)
    } else if f.len() < ETH_HDR_LEN + IP4_HDR_LEN {
        Err(Error::NotEnoughBytes)
    } else if f[23] != IPPROTO_UDP {
        Ok(None)
    } else if f.len() < PAYLOAD_OFFSET {
        Err(Error::NotEnoughBytes)
    } else if be16(f.subrange(38, 40)) < UDP_HDR_LEN {
        Err(Error::NotEnoughBytes)
    } else if PAYLOAD_OFFSET + be16(f.subrange(38, 40)) - UDP_HDR_LEN > f.len() {
        Err(Error::NotEnoughBytes)
    } else {
        Ok(
            Some(
                (
                    Socket {
                        source_address: be32(f.subrange(26, 30)),
                        source_port: be16(f.subrange(34, 36)),
                    },
                    f.subrange(
                        PAYLOAD_OFFSET as int,
                        PAYLOAD_OFFSET + be16(f.subrange(38, 40)) - UDP_HDR_LEN,
                    ),
                ),
            ),
        )
    }
}

/// Reads what a UDP frame `f` carries for the application (see
/// [`spec_udp_datagram`]).
pub fn udp_datagram(f: &[u8]) -> (r: Result<Option<(Socket, Vec<u8>)>>)
    ensures
        match spec_udp_datagram(f@) {
            Err(e) => r == Err::<Option<(Socket, Vec<u8>)>, Error>(e),
            Ok(None) => r matches Ok(None),
            Ok(Some((s, p))) => r matches Ok(Some((s2, p2))) && s2 == s && p2@ == p,
        },
{
    let n = f.len();
    if n < ETH_HDR_LEN {
        return Err(Error::NotEnoughBytes);
    }
    if read_be16(f, 12) != ETH_P_IP {
        return Ok(None);
    }
    if n < ETH_HDR_LEN + IP4_HDR_LEN {
        return Err(Error::NotEnoughBytes);
    }
    if f[23] != IPPROTO_UDP {
        return Ok(None);
    }
    if n < PAYLOAD_OFFSET {
        return Err(Error::NotEnoughBytes);
    }
    let udp_len = read_be16(f, 38) as usize;
    if udp_len < UDP_HDR_LEN {
        return Err(Error::NotEnoughBytes);
    }
    if udp_len - UDP_HDR_LEN > n - PAYLOAD_OFFSET {
        return Err(Error::NotEnoughBytes);
    }
    let socket = Socket { source_address: read_be32(f, 26), source_port: read_be16(f, 34) };
    let payload = copy_range(f, PAYLOAD_OFFSET, udp_len - UDP_HDR_LEN);
    Ok(Some((socket, payload)))
}

/// After the ARP frame `f` came in, with `r` the result: an answer was sent
/// iff a TX slot was free. Its frame holds [`arp_reply_frame`] and its slot
/// was taken and handed to the TX path.
pub open spec fn arp_answered(ns: NetStack, ns2: NetStack, umem: Umem, f: Seq<u8>, r: Result<()>) -> bool {
    let tx = ns.xsk_handle.tx;
    let slot = tx.slot(tx.cached_prod);
    let addr = tx.ring@[slot].addr;
    &&& r is Ok <==> tx.free_slots() >= 1
    &&& r is Err ==> r == Err::<(), Error>(
        Error::Xsk(crate::xsk::Error::XskTxRingProdReserveFailed),
    ) && ns2.xsk_handle == ns.xsk_handle
    &&& r is Ok ==> {
        &&& umem.frame_allocator.buffer@.subrange(addr as int, addr + ETH_HDR_LEN + ARP_HDR_LEN)
            == arp_reply_frame(ns.iface_mac, f)
        &&& ns2.xsk_handle.tx.cached_prod == advance(tx.cached_prod, 1)
        &&& TxSocket::transmitted(
            ns.xsk_handle,
            ns2.xsk_handle,
            slot,
            (ETH_HDR_LEN + ARP_HDR_LEN) as u32,
            tx.pending() + 1,
            TxSocket::run_after(ns.xsk_handle, slot, tx.pending() + 1),
        )
    }
}

/// The outcome of handling the IPv4 frame `f`, with `r` the result: a
/// frame too short for its headers or its UDP length fails; one that does
/// not carry UDP is ignored; a UDP datagram is handed to the application,
/// once, with its source and payload (see [`spec_udp_datagram`]), after its
/// sender was learned, and `r` is the application's result.
pub open spec fn udp_handled<A: App>(n: Net<A>, n2: Net<A>, umem: Umem, umem2: Umem, f: Seq<u8>, r: Result<()>) -> bool {
    match spec_udp_datagram(f) {
        Err(e) => r == Err::<(), Error>(e) && n2.netstack.xsk_handle == n.netstack.xsk_handle
            && umem2 == umem && n2.app == n.app,
        Ok(None) => r is Ok && n2.netstack.xsk_handle == n.netstack.xsk_handle && umem2 == umem
            && n2.app == n.app,
        Ok(Some((s, p))) => exists|mid: NetStack|
            {
                &&& mid.xsk_handle == n.netstack.xsk_handle
                &&& mid.iface_mac == n.netstack.iface_mac
                &&& mid.bind_address == n.netstack.bind_address
                &&& mid.bind_port == n.netstack.bind_port
                &&& mid.arp_table.spec_get(s.source_address) matches Some(mac) && mac@ == f.subrange(
                    6,
                    12,
                )
                &&& #[trigger] n.app.handled(n2.app, mid, n2.netstack, umem, umem2, s, p, r)
            },
    }
}

/// The outcome of handling the received frame `f`, with `r` the result:
/// a frame too short for its Ethernet header, or for the ARP packet or the
/// IPv4 and UDP headers it announces, fails with `NotEnoughBytes`; an ARP
/// frame is answered (see [`arp_answered`]); a frame of another EtherType,
/// or an IPv4 packet that does not carry UDP, is ignored; the result of a
/// UDP datagram is the application's.
pub open spec fn rx_result<A: App>(n: Net<A>, n2: Net<A>, umem: Umem, umem2: Umem, f: Seq<u8>, r: Result<()>) -> bool {
    if f.len() < ETH_HDR_LEN {
        r == Err::<(), Error>(Error::NotEnoughBytes) && n2 == n && umem2 == umem
    } else if be16(f.subrange(12, 14)) == ETH_P_ARP {
        if f.len() < ETH_HDR_LEN + ARP_HDR_LEN {
            r == Err::<(), Error>(Error::NotEnoughBytes) && n2 == n && umem2 == umem
        } else {
            arp_answered(n.netstack, n2.netstack, umem2, f, r) && n2.app == n.app
        }
    } else if be16(f.subrange(12, 14)) == ETH_P_IP {
        udp_handled(n, n2, umem, umem2, f, r)
    } else {
        r is Ok && n2 == n && umem2 == umem
    }
}

/// `n2` and `umem2` are `n` and `umem` after the frame of `desc` was
/// received, with result `r` (see [`Net::do_rx_packet`]).
pub open spec fn rx_step<A: App>(n: Net<A>, n2: Net<A>, umem: Umem, umem2: Umem, desc: XdpDesc, r: Result<()>) -> bool {
    &&& n2.netstack.wf_with(umem2)
    &&& n2.netstack.iface_mac == n.netstack.iface_mac
    &&& n2.netstack.bind_address == n.netstack.bind_address
    &&& n2.netstack.bind_port == n.netstack.bind_port
    &&& umem2.fq == umem.fq
    &&& desc.addr + desc.len > umem.frame_allocator.buffer@.len() ==> r == Err::<(), Error>(
        Error::NotEnoughBytes,
    ) && n2 == n && umem2 == umem
    &&& desc.addr + desc.len <= umem.frame_allocator.buffer@.len() ==> {
        let f = umem.frame_allocator.buffer@.subrange(desc.addr as int, desc.addr + desc.len);
        &&& match learned_binding(f) {
            Some((ip, m)) => {
                &&& n2.netstack.arp_table.spec_get(ip) matches Some(mac) && mac@ == m
                &&& forall|k: u32|
                    k != ip ==> #[trigger] n2.netstack.arp_table.spec_get(k)
                        == n.netstack.arp_table.spec_get(k)
            },
            None => n2.netstack.arp_table == n.netstack.arp_table,
        }
        &&& rx_result(n, n2, umem, umem2, f, r)
    }
}

/// The state the application shares: the TX half of the socket, the
/// interface's MAC address, the bind address and port, and the ARP cache.
pub struct NetStack {
    pub xsk_handle: TxSocket,
    pub iface_mac: [u8; 6],
    pub bind_address: u32,
    pub bind_port: u16,
    pub arp_table: ArpTable,
}

/// The network stack of one socket: the application and what it shares.
pub struct Net<A> {
    pub app: A,
    pub netstack: NetStack,
}

impl NetStack {
    /// The stack fits `umem`: its TX frames lie inside the area and hold at
    /// least the headers, and lengths fit in 16 bits.
    pub open spec fn wf_with(&self, umem: Umem) -> bool {
        &&& self.xsk_handle.wf()
        &&& umem.wf()
        &&& self.arp_table.wf()
        &&& self.xsk_handle.frame_size == umem.frame_allocator.frame_size
        &&& PAYLOAD_OFFSET <= self.xsk_handle.frame_size <= MAX_FRAME_SIZE
        &&& forall|i: int|
            0 <= i < self.xsk_handle.tx.size ==> #[trigger] self.xsk_handle.tx.ring@[i].addr
                + self.xsk_handle.frame_size <= umem.frame_allocator.buffer@.len()
    }

    /// Same interface, bind address, bind port and ARP cache.
    pub open spec fn same_settings(&self, other: NetStack) -> bool {
        &&& self.iface_mac == other.iface_mac
        &&& self.bind_address == other.bind_address
        &&& self.bind_port == other.bind_port
        &&& self.arp_table == other.arp_table
    }

    /// A stack with an empty ARP cache.
    pub fn new(xsk_handle: TxSocket, iface_mac: [u8; 6], bind_address: u32, bind_port: u16) -> (r:
        Self)
        ensures
            r == (NetStack {
                xsk_handle,
                iface_mac,
                bind_address,
                bind_port,
                arp_table: r.arp_table,
            }),
            r.arp_table.wf(),
            forall|ip: u32| r.arp_table.spec_get(ip) is None,
    {
        NetStack { xsk_handle, iface_mac, bind_address, bind_port, arp_table: ArpTable::new() }
    }

    /// Takes a TX slot for the application, with a cursor over a copy of
    /// its frame placed at the UDP payload. Fails when every TX slot is
    /// held.
    pub fn new_tx_payload_buf(&mut self, umem: &Umem) -> (r: Result<PayloadBuf>)
        requires
            old(self).wf_with(*umem),
        ensures
            final(self).wf_with(*umem),
            final(self).same_settings(*old(self)),
            final(self).xsk_handle.tx.ring == old(self).xsk_handle.tx.ring,
            final(self).xsk_handle.tx.size == old(self).xsk_handle.tx.size,
            final(self).xsk_handle.frame_size == old(self).xsk_handle.frame_size,
            r is Ok <==> old(self).xsk_handle.tx.free_slots() >= 1,
            r is Ok ==> TxSocket::took_slot(old(self).xsk_handle, final(self).xsk_handle),
            r matches Err(e) ==> e == Error::Xsk(crate::xsk::Error::XskTxRingProdReserveFailed),
            r is Err ==> final(self).xsk_handle == old(self).xsk_handle,
            r matches Ok(p) ==> {
                let fs = old(self).xsk_handle.frame_size;
                &&& p.xdp_desc.index < old(self).xsk_handle.tx.size
                &&& p.xdp_desc.index == old(self).xsk_handle.tx.slot(
                    old(self).xsk_handle.tx.cached_prod,
                )
                &&& p.xdp_desc.addr == old(self).xsk_handle.tx.ring@[p.xdp_desc.index as int].addr
                &&& p.packet_buf.wf()
                &&& p.packet_buf.buffer@ == umem.frame_allocator.buffer@.subrange(
                    p.xdp_desc.addr as int,
                    p.xdp_desc.addr + fs,
                )
                &&& p.packet_buf.packet_offset == PAYLOAD_OFFSET
                &&& p.packet_buf.packet_len == PAYLOAD_OFFSET
                &&& final(self).xsk_handle.tx.pending() == old(self).xsk_handle.tx.pending() + 1
            },
    {
        let xdp_desc = match self.xsk_handle.next_tx_slot() {
            Ok(d) => d,
            Err(e) => return Err(Error::Xsk(e)),
        };
        let fs = self.xsk_handle.frame_size;
        proof {
            assert(xdp_desc.addr + fs <= umem.frame_allocator.buffer@.len());
        }
        let buffer = match umem.read_frame(xdp_desc.addr, fs) {
            Some(b) => b,
            None => return Err(Error::NotEnoughBytes),
        };
        let mut packet_buf = PacketBufMut::from_raw_parts(buffer, fs);
        proof {
            assert(packet_buf.buffer@ =~= umem.frame_allocator.buffer@.subrange(
                xdp_desc.addr as int,
                xdp_desc.addr + fs,
            ));
        }
        match packet_buf.seek(PAYLOAD_OFFSET) {
            Ok(_) => {},
            Err(e) => return Err(e),
        }
        Ok(PayloadBuf::new(xdp_desc, packet_buf))
    }

    /// Sends the payload written into `payload_buf` to `socket`: writes the
    /// Ethernet header (from the interface to the cached MAC address of the
    /// destination), the IPv4 header (from the bind address, with its
    /// checksum) and the UDP header (from the bind port) in front of it,
    /// copies the packet into its frame and transmits the slot.
    #[verifier::rlimit(50)]
    pub fn send_payload(&mut self, umem: &mut Umem, socket: &Socket, payload_buf: &mut PayloadBuf) -> (r:
        Result<()>)
        requires
            old(self).wf_with(*old(umem)),
            old(self).arp_table.spec_get(socket.source_address) is Some,
            old(payload_buf).xdp_desc.index < old(self).xsk_handle.tx.size,
            old(payload_buf).xdp_desc.addr == old(self).xsk_handle.tx.ring@[old(payload_buf).xdp_desc.index as int].addr,
            old(payload_buf).packet_buf.wf(),
            old(payload_buf).packet_buf.buffer@.len() == old(self).xsk_handle.frame_size,
            old(payload_buf).packet_buf.packet_len >= PAYLOAD_OFFSET,
        ensures
            final(self).wf_with(*final(umem)),
            final(self).same_settings(*old(self)),
            r is Ok,
            ({
                let n = old(payload_buf).packet_buf.packet_len;
                let addr = old(payload_buf).xdp_desc.addr;
                let ns = *old(self);
                &&& final(umem).frame_allocator.buffer@.subrange(addr as int, addr + n) == udp_frame(
                    ns,
                    *socket,
                    n as int,
                    old(payload_buf).packet_buf.buffer@.subrange(PAYLOAD_OFFSET as int, n as int),
                )
                &&& final(self).xsk_handle.tx.ring@[old(payload_buf).xdp_desc.index as int].len == n
                &&& TxSocket::transmitted(
                    ns.xsk_handle,
                    final(self).xsk_handle,
                    old(payload_buf).xdp_desc.index as int,
                    n as u32,
                    ns.xsk_handle.tx.pending(),
                    TxSocket::run_after(
                        ns.xsk_handle,
                        old(payload_buf).xdp_desc.index as int,
                        ns.xsk_handle.tx.pending(),
                    ),
                )
                &&& final(self).xsk_handle.tx.cached_prod == ns.xsk_handle.tx.cached_prod
            }),
            final(umem).frame_allocator.buffer@.len() == old(umem).frame_allocator.buffer@.len(),
            final(umem).fq == old(umem).fq,
    {
        let pb = payload_buf.packet_buf();
        let ghost b0 = pb.buffer@;
        match pb.seek(0) {
            Ok(_) => {},
            Err(e) => return Err(e),
        }
        let packet_len = pb.packet_len;
        let dst_mac = match self.arp_table.get(socket.source_address) {
            Some(m) => m,
            None => return Err(Error::MissingArpEntry),
        };
        let eth = match EthHdr::with_packet_buf(pb) {
            Ok(h) => h,
            Err(e) => return Err(e),
        };
        let eth = eth.set_src_address(self.iface_mac).set_dst_address(dst_mac).ip4();
        eth.store(pb, 0);
        let ip = match Ip4Hdr::with_packet_buf(pb) {
            Ok(h) => h,
            Err(e) => return Err(e),
        };
        let ip = ip.set_total_length((packet_len - ETH_HDR_LEN) as u16).udp().set_src_address(
            self.bind_address,
        ).set_dst_address(socket.source_address).calc_checksum();
        ip.store(pb, ETH_HDR_LEN);
        let udp = match UdpHdr::with_packet_buf(pb) {
            Ok(h) => h,
            Err(e) => return Err(e),
        };
        let udp = udp.set_src_port(self.bind_port).set_dst_port(socket.source_port).set_length(
            (packet_len - ETH_HDR_LEN - IP4_HDR_LEN) as u16,
        );
        udp.store(pb, ETH_HDR_LEN + IP4_HDR_LEN);
        let bytes = pb.to_vec();
        proof {
            let e = eth.bytes();
            let i = ip.bytes();
            let u = udp.bytes();
            assert(bytes@ =~= e + i + u + b0.subrange(PAYLOAD_OFFSET as int, packet_len as int));
        }
        let desc = payload_buf.xdp_desc();
        desc.set_len(packet_len as u32);
        let d = *desc;
        umem.write_frame(d.addr, bytes.as_slice());
        proof {
            assert(umem.frame_allocator.buffer@.subrange(d.addr as int, d.addr + packet_len)
                =~= bytes@);
        }
        self.xsk_handle.tx(umem, &d);
        Ok(())
    }
}

impl<A: App> Net<A> {
    /// The stack of one socket around application `app`.
    pub fn new(app: A, netstack: NetStack) -> (r: Self)
        ensures
            r == (Net { app, netstack }),
    {
        Net { app, netstack }
    }

    /// Handles one received frame, described by `desc`: learns the sender's
    /// MAC address, answers an ARP packet, and hands the payload of a UDP
    /// datagram to the application with its source (see [`udp_datagram`]);
    /// other EtherTypes and IP protocols are ignored. Fails with
    /// `NotEnoughBytes` when the descriptor lies outside the area or the
    /// frame is too short for what its headers announce.
    pub fn do_rx_packet(&mut self, umem: &mut Umem, desc: XdpDesc) -> (r: Result<()>)
        requires
            old(self).netstack.wf_with(*old(umem)),
        ensures
            rx_step(*old(self), *final(self), *old(umem), *final(umem), desc, r),
    {
        let frame = match umem.read_frame(desc.addr, desc.len as usize) {
            Some(f) => f,
            None => return Err(Error::NotEnoughBytes),
        };
        let f = frame.as_slice();
        if f.len() < ETH_HDR_LEN {
            return Err(Error::NotEnoughBytes);
        }
        let eth_type = read_be16(f, 12);
        if eth_type == EthType::ARP.value() {
            self.rx_arp_packet(umem, f)
        } else if eth_type == EthType::IP4.value() {
            self.rx_ip4_packet(umem, f)
        } else {
            Ok(())
        }
    }

    /// Handles the IPv4 frame `f`: learns the source of a UDP datagram and
    /// hands its payload to the application.
    fn rx_ip4_packet(&mut self, umem: &mut Umem, f: &[u8]) -> (r: Result<()>)
        requires
            old(self).netstack.wf_with(*old(umem)),
            f@.len() >= ETH_HDR_LEN,
            be16(f@.subrange(12, 14)) == ETH_P_IP,
        ensures
            final(self).netstack.wf_with(*final(umem)),
            final(self).netstack.iface_mac == old(self).netstack.iface_mac,
            final(self).netstack.bind_address == old(self).netstack.bind_address,
            final(self).netstack.bind_port == old(self).netstack.bind_port,
            final(umem).fq == old(umem).fq,
            if f@.len() >= ETH_HDR_LEN + IP4_HDR_LEN && f@[23] == IPPROTO_UDP {
                &&& final(self).netstack.arp_table.spec_get(be32(f@.subrange(26, 30))) matches Some(
                    mac,
                ) && mac@ == f@.subrange(6, 12)
                &&& forall|k: u32|
                    k != be32(f@.subrange(26, 30)) ==> #[trigger] final(self).netstack.arp_table.spec_get(k) == old(self).netstack.arp_table.spec_get(k)
            } else {
                final(self).netstack.arp_table == old(self).netstack.arp_table
            },
            udp_handled(*old(self), *final(self), *old(umem), *final(umem), f@, r),
    {
        if f.len() >= ETH_HDR_LEN + IP4_HDR_LEN && f[23] == IpProto::UDP.value() {
            self.update_arp_cache(read_be32(f, 26), array6(f, 6));
        }
        match udp_datagram(f) {
            Err(e) => Err(e),
            Ok(None) => Ok(()),
            Ok(Some((socket, payload))) => {
                let ghost mid = self.netstack;
                let ghost app0 = self.app;
                let r = self.app.rx_payload(&mut self.netstack, umem, &socket, payload.as_slice());
                proof {
                    assert(app0.handled(
                        self.app,
                        mid,
                        self.netstack,
                        *old(umem),
                        *umem,
                        socket,
                        payload@,
                        r,
                    ));
                }
                r
            },
        }
    }

    /// Handles the ARP frame `f`: learns the sender and answers.
    fn rx_arp_packet(&mut self, umem: &mut Umem, f: &[u8]) -> (r: Result<()>)
        requires
            old(self).netstack.wf_with(*old(umem)),
            f@.len() >= ETH_HDR_LEN,
        ensures
            final(self).app == old(self).app,
            final(self).netstack.wf_with(*final(umem)),
            final(self).netstack.iface_mac == old(self).netstack.iface_mac,
            final(self).netstack.bind_address == old(self).netstack.bind_address,
            final(self).netstack.bind_port == old(self).netstack.bind_port,
            final(umem).fq == old(umem).fq,
            f@.len() < ETH_HDR_LEN + ARP_HDR_LEN ==> r == Err::<(), Error>(Error::NotEnoughBytes)
                && *final(self) == *old(self) && *final(umem) == *old(umem),
            f@.len() >= ETH_HDR_LEN + ARP_HDR_LEN ==> {
                &&& final(self).netstack.arp_table.spec_get(be32(f@.subrange(28, 32))) matches Some(
                    mac,
                ) && mac@ == f@.subrange(6, 12)
                &&& forall|k: u32|
                    k != be32(f@.subrange(28, 32)) ==> #[trigger] final(self).netstack.arp_table.spec_get(k) == old(self).netstack.arp_table.spec_get(k)
                &&& arp_answered(old(self).netstack, final(self).netstack, *final(umem), f@, r)
            },
    {
        if f.len() < ETH_HDR_LEN + ARP_HDR_LEN {
            return Err(Error::NotEnoughBytes);
        }
        let eth = EthHdr {
            dst_address: array6(f, 0),
            src_address: array6(f, 6),
            eth_address: read_be16(f, 12),
        };
        let arp = ArpHdr {
            hw_type: read_be16(f, 14),
            proto_type: read_be16(f, 16),
            hw_addr_len: f[18],
            proto_addr_len: f[19],
            opcode: read_be16(f, 20),
            sender_hw_addr: array6(f, 22),
            sender_proto_addr: array4(f, 28),
            target_hw_addr: array6(f, 32),
            target_proto_addr: array4(f, 38),
        };
        self.update_arp_cache(read_be32(f, 28), eth.src_address);
        let ghost before = self.netstack;
        let r = self.send_arp_reply(umem, &eth, &arp);
        proof {
            let m = before.iface_mac;
            assert(arp_reply_eth(m, eth).bytes() + arp_reply(m, arp).bytes() =~= arp_reply_frame(
                m,
                f@,
            ));
        }
        r
    }

    /// Caches `mac` for `ip`.
    fn update_arp_cache(&mut self, ip: u32, mac: [u8; 6])
        requires
            old(self).netstack.arp_table.wf(),
        ensures
            final(self).netstack.arp_table.wf(),
            final(self).netstack.arp_table.spec_get(ip) == Some(mac),
            forall|k: u32|
                k != ip ==> #[trigger] final(self).netstack.arp_table.spec_get(k) == old(self).netstack.arp_table.spec_get(k),
            final(self).netstack.xsk_handle == old(self).netstack.xsk_handle,
            final(self).netstack.iface_mac == old(self).netstack.iface_mac,
            final(self).netstack.bind_address == old(self).netstack.bind_address,
            final(self).netstack.bind_port == old(self).netstack.bind_port,
            final(self).app == old(self).app,
    {
        self.netstack.arp_table.insert(ip, mac);
    }

    /// Answers the ARP packet `rx_arp` that came in with `rx_eth`: takes a
    /// TX slot, writes the reply (see [`arp_reply`]) into its frame and
    /// transmits it. Fails when every TX slot is held.
    pub fn send_arp_reply(&mut self, umem: &mut Umem, rx_eth: &EthHdr, rx_arp: &ArpHdr) -> (r:
        Result<()>)
        requires
            old(self).netstack.wf_with(*old(umem)),
        ensures
            final(self).app == old(self).app,
            final(self).netstack.wf_with(*final(umem)),
            final(self).netstack.same_settings(old(self).netstack),
            r is Ok <==> old(self).netstack.xsk_handle.tx.free_slots() >= 1,
            r matches Ok(_) ==> {
                let tx = old(self).netstack.xsk_handle.tx;
                let slot = tx.slot(tx.cached_prod);
                let addr = tx.ring@[slot].addr;
                &&& final(umem).frame_allocator.buffer@.subrange(
                    addr as int,
                    addr + ETH_HDR_LEN + ARP_HDR_LEN,
                ) == arp_reply_eth(old(self).netstack.iface_mac, *rx_eth).bytes() + arp_reply(
                    old(self).netstack.iface_mac,
                    *rx_arp,
                ).bytes()
                &&& final(self).netstack.xsk_handle.tx.ring@[slot].len == ETH_HDR_LEN + ARP_HDR_LEN
                &&& final(self).netstack.xsk_handle.tx.cached_prod == advance(tx.cached_prod, 1)
                &&& TxSocket::transmitted(
                    old(self).netstack.xsk_handle,
                    final(self).netstack.xsk_handle,
                    slot,
                    (ETH_HDR_LEN + ARP_HDR_LEN) as u32,
                    tx.pending() + 1,
                    TxSocket::run_after(old(self).netstack.xsk_handle, slot, tx.pending() + 1),
                )
            },
            r is Err ==> final(self).netstack.xsk_handle == old(self).netstack.xsk_handle
                && *final(umem) == *old(umem) && r == Err::<(), Error>(
                Error::Xsk(crate::xsk::Error::XskTxRingProdReserveFailed),
            ),
            final(umem).fq == old(umem).fq,
            final(umem).frame_allocator.buffer@.len() == old(umem).frame_allocator.buffer@.len(),
    {
        let mut tx_desc = match self.netstack.xsk_handle.next_tx_slot() {
            Ok(d) => d,
            Err(e) => return Err(Error::Xsk(e)),
        };
        let fs = self.netstack.xsk_handle.frame_size;
        let buffer = match umem.read_frame(tx_desc.addr, fs) {
            Some(b) => b,
            None => return Err(Error::NotEnoughBytes),
        };
        let mut packet_buf = PacketBufMut::from_raw_parts(buffer, fs);
        let eth = match EthHdr::from_packet_buf(&mut packet_buf) {
            Ok(h) => h,
            Err(e) => return Err(e),
        };
        let eth = eth.set_src_address(self.netstack.iface_mac).set_dst_address(
            rx_eth.src_address,
        ).arp();
        eth.store(&mut packet_buf, 0);
        let arp = match ArpHdr::from_packet_buf(&mut packet_buf) {
            Ok(h) => h,
            Err(e) => return Err(e),
        };
        let arp = arp.arp_reply_ip().set_sender_hw_address(self.netstack.iface_mac).set_sender_proto_address(
            rx_arp.target_proto_addr,
        ).set_target_hw_address(rx_arp.sender_hw_addr).set_target_proto_address(
            rx_arp.sender_proto_addr,
        );
        arp.store(&mut packet_buf, ETH_HDR_LEN);
        let bytes = packet_buf.to_vec();
        proof {
            assert(bytes@ =~= eth.bytes() + arp.bytes());
        }
        tx_desc.set_len(packet_buf.packet_len as u32);
        umem.write_frame(tx_desc.addr, bytes.as_slice());
        proof {
            assert(umem.frame_allocator.buffer@.subrange(
                tx_desc.addr as int,
                tx_desc.addr + ETH_HDR_LEN + ARP_HDR_LEN,
            ) =~= bytes@);
        }
        self.netstack.xsk_handle.tx(umem, &tx_desc);
        Ok(())
    }
}

} // verus!
