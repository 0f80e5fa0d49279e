use libh2o2::net::app::Socket as AppSocket;
use libh2o2::net::stack::udp_datagram;
use libh2o2::net::NetStack;
use libh2o2::xsk::socket::RxStep;
use libh2o2::xsk::xdp_prog::Queue;
use libh2o2::echo::EchoApp;
use libh2o2::net::arp::{ArpHdr, ArpOpcode};
use libh2o2::net::arp_table::ArpTable;
use libh2o2::net::eth::{EthType, ETH_P_ARP, ETH_P_IP};
use libh2o2::net::utils::{htonl, htons, mac_to_string, ntohl, ntohs};
use libh2o2::net::{EthHdr, Error as NetError, Ip4Hdr, PacketBufMut, UdpHdr};
use libh2o2::xsk::configuration::{
    XDP_COPY, XDP_FLAGS_DRV_MODE, XDP_FLAGS_SKB_MODE, XDP_USE_NEED_WAKEUP, XDP_ZEROCOPY,
};
use libh2o2::xsk::desc::Desc;
use libh2o2::xsk::frame_allocator::FrameAllocator;
use libh2o2::xsk::ring::{is_power_of_two, ConsRing, ProdRing, XdpDesc};
use libh2o2::xsk::socket::{Socket, TxSocket};
use libh2o2::xsk::umem::{FqStatus, Umem};
use libh2o2::xsk::xdp_prog::{MapUpdate, MapValue, XdpMap, XdpProg};
use libh2o2::xsk::{Configuration, Error, NeedsWakeup, XskMode};

fn small_config(needs_wakeup: bool) -> Configuration {
    let mut cfg = Configuration::new();
    cfg.set_interface("hype_tun0".to_string());
    cfg.set_rx_size(8);
    cfg.set_tx_size(4);
    cfg.set_needs_wakeup(NeedsWakeup::new(needs_wakeup));
    cfg
}

#[test]
fn desc_test_new() {
    let xdp_desc = XdpDesc { addr: 0, len: 54, options: 0 };
    let desc = Desc::new_from_xdp_desc(xdp_desc, 0);
    assert_eq!(desc.packet(), 0);
    assert_eq!(desc.len(), 54);
    assert_eq!(desc.index(), 0);
}

#[test]
fn test_packet() {
    let frame_allocator = FrameAllocator::new(4096, 4096);
    assert!(frame_allocator.is_ok());
    assert_eq!(frame_allocator.unwrap().buffer.len(), 4096 * 4096);

    let xdp_desc = XdpDesc { addr: 0, len: 54, options: 0 };
    let mut desc = Desc::new_from_xdp_desc(xdp_desc, 0);
    assert!(!desc.is_empty());

    desc.set_len(80);
    assert_eq!(desc.len(), 80);
}

#[test]
fn test_new_frame_allocator() {
    let frame_allocator = FrameAllocator::new(4096, 4096);
    assert!(frame_allocator.is_ok());

    let frame_allocator = frame_allocator.unwrap();
    assert_eq!(frame_allocator.buffer.len(), 4096 * 4096);
}

#[test]
fn test_frame_allocator_alloc_frame() {
    let frame_allocator = FrameAllocator::new(2, 4096);
    assert!(frame_allocator.is_ok());

    let mut frame_allocator = frame_allocator.unwrap();

    let frame = frame_allocator.alloc_frame();
    assert!(frame.is_some());

    let frame = frame.unwrap();
    assert_eq!(frame, 0);

    let frame = frame_allocator.alloc_frame();
    assert!(frame.is_some());

    let frame = frame.unwrap();
    assert_eq!(frame, 4096);

    let frame = frame_allocator.alloc_frame();
    assert!(frame.is_none());
}

#[test]
fn frame_allocator_area_too_large() {
    assert_eq!(
        FrameAllocator::new(usize::MAX, 2).err(),
        Some(Error::FrameAllocatorAllocationFailed(12))
    );
}

#[test]
fn umem_test_new() {
    let mut cfg = Configuration::new();
    cfg.set_needs_wakeup(NeedsWakeup::new(false));

    let umem = Umem::new(&cfg);
    assert!(umem.is_ok());
    let umem = umem.unwrap();
    assert_eq!(umem.fq.size, 2048);
    assert_eq!(umem.cq.size, 2048);
    assert_eq!(umem.fq.producer, 2048);
    assert_eq!(umem.fq.ring[0], 0);
    assert_eq!(umem.fq.ring[5], 5 * 4096);
    assert_eq!(umem.frame_allocator.frame_addr.len(), 2048);
}

#[test]
fn test_invalid_ring_size() {
    let mut cfg = Configuration::new();
    cfg.set_rx_size(42);
    cfg.set_needs_wakeup(NeedsWakeup::new(false));

    let umem = Umem::new(&cfg);
    assert!(umem.is_err());
    assert_eq!(umem.err(), Some(Error::XskUmemCreateFailed(22)));
}

#[test]
fn socket_test_new() {
    let cfg = small_config(false);
    let mut umem = Umem::new(&cfg).unwrap();
    let socket = Socket::new(&cfg, &mut umem, 7, 3);
    assert!(socket.is_ok());
    let mut socket = socket.unwrap();
    let tx = socket.take_tx_socket().unwrap();
    // The TX slots are bound to the frames after the fill queue's.
    for i in 0..4 {
        assert_eq!(tx.tx.ring[i].addr, (8 + i as u64) * 4096);
    }
    assert!(socket.take_rx_socket().is_some());
    assert!(socket.take_rx_socket().is_none());
}

#[test]
fn socket_new_without_frames() {
    let cfg = small_config(false);
    let mut umem = Umem::new(&cfg).unwrap();
    assert!(Socket::new(&cfg, &mut umem, 7, 3).is_ok());
    let r = Socket::new(&cfg, &mut umem, 8, 3);
    assert_eq!(r.err(), Some(Error::FrameAllocatorAllocationFailed(12)));
}

#[test]
fn flags_of_modes() {
    assert_eq!(XskMode::Skb.into_xdp_flags(), XDP_FLAGS_SKB_MODE);
    assert_eq!(XskMode::Drv.into_xdp_flags(), XDP_FLAGS_DRV_MODE);
    assert_eq!(XskMode::DrvZeroCopy.into_xdp_flags(), XDP_FLAGS_DRV_MODE);
    assert_eq!(XskMode::Skb.into_bind_flags(), XDP_COPY);
    assert_eq!(XskMode::Drv.into_bind_flags(), XDP_COPY);
    assert_eq!(XskMode::DrvZeroCopy.into_bind_flags(), XDP_ZEROCOPY);
    assert_eq!(NeedsWakeup::new(true).into_bind_flags(), XDP_USE_NEED_WAKEUP);
    assert_eq!(NeedsWakeup::new(false).into_bind_flags(), 0);

    let mut cfg = Configuration::new();
    assert_eq!(Socket::xdp_flags(&cfg), 1 | 2);
    assert_eq!(Socket::bind_flags(&cfg), 8 | 2);
    cfg.set_mode(XskMode::DrvZeroCopy);
    cfg.set_needs_wakeup(NeedsWakeup::new(false));
    assert_eq!(Socket::xdp_flags(&cfg), 1 | 4);
    assert_eq!(Socket::bind_flags(&cfg), 4);
}

#[test]
fn mode_names() {
    assert_eq!(XskMode::from_name(b"skb"), Ok(XskMode::Skb));
    assert_eq!(XskMode::from_name(b"drv"), Ok(XskMode::Drv));
    assert_eq!(XskMode::from_name(b"drv-zc"), Ok(XskMode::DrvZeroCopy));
    assert_eq!(XskMode::from_name(b"zc"), Err(Error::InvalidXskMode));
}

#[test]
fn validate_names_the_missing_setting() {
    let mut cfg = Configuration::new();
    assert_eq!(
        cfg.validate(),
        Err(Error::InvalidConfigWithMissingProperty("interface".to_string()))
    );
    cfg.set_interface("eth0".to_string());
    assert_eq!(
        cfg.validate(),
        Err(Error::InvalidConfigWithMissingProperty("bind address".to_string()))
    );
    cfg.set_bind_address(1);
    assert_eq!(
        cfg.validate(),
        Err(Error::InvalidConfigWithMissingProperty("bind port".to_string()))
    );
    cfg.set_bind_port(1234);
    assert_eq!(cfg.validate(), Ok(()));
    assert_eq!(cfg.interface(), "eth0");
    assert_eq!(cfg.bind_address(), 1);
    assert_eq!(cfg.bind_port(), 1234);
}

#[test]
fn defaults() {
    let cfg = Configuration::new();
    assert_eq!(cfg.xdp_prog_path, "./kern/xsk_kern.o");
    assert_eq!(cfg.queues, vec![0]);
    assert_eq!(cfg.socks_per_queue, 1);
    assert_eq!(cfg.rx_size, 2048);
    assert_eq!(cfg.tx_size, 2048);
    assert_eq!(cfg.frame_size, 4096);
    assert_eq!(cfg.mode, XskMode::Skb);
    assert!(cfg.needs_wakeup.value);
}

#[test]
fn powers_of_two() {
    assert!(is_power_of_two(1));
    assert!(is_power_of_two(2048));
    assert!(!is_power_of_two(0));
    assert!(!is_power_of_two(42));
}

#[test]
fn ring_is_fifo_and_never_overwrites() {
    let mut prod: ProdRing<u64> = ProdRing::new(4, 0);
    let mut idx = 0u32;
    assert_eq!(prod.reserve(3, &mut idx), 3);
    assert_eq!(idx, 0);
    for i in 0..3u32 {
        prod.fill_addr(idx + i, 100 + i as u64);
    }
    prod.submit(3);
    // Only one slot is left.
    assert_eq!(prod.reserve(2, &mut idx), 0);
    assert_eq!(prod.kernel_consume(), Some(100));
    assert_eq!(prod.kernel_consume(), Some(101));
    // The kernel consumed two: a reservation of two now succeeds.
    assert_eq!(prod.reserve(2, &mut idx), 2);
    assert_eq!(idx, 3);
    prod.fill_addr(idx, 103);
    prod.fill_addr(idx + 1, 104);
    prod.submit(2);
    assert_eq!(prod.kernel_consume(), Some(102));
    assert_eq!(prod.kernel_consume(), Some(103));
    assert_eq!(prod.kernel_consume(), Some(104));
    assert_eq!(prod.kernel_consume(), None);
}

#[test]
fn consumer_ring_peeks_at_most_what_was_produced() {
    let mut cons: ConsRing<u64> = ConsRing::new(4, 0);
    let mut idx = 0u32;
    assert_eq!(cons.peek(64, &mut idx), 0);
    assert!(cons.kernel_produce(7));
    assert!(cons.kernel_produce(8));
    assert_eq!(cons.peek(64, &mut idx), 2);
    assert_eq!(idx, 0);
    assert_eq!(cons.get_desc(idx), 7);
    assert_eq!(cons.get_desc(idx + 1), 8);
    assert!(cons.kernel_produce(9));
    assert!(cons.kernel_produce(10));
    // The ring is full until the user releases.
    assert!(!cons.kernel_produce(11));
    cons.release(2);
    assert!(cons.kernel_produce(11));
    assert_eq!(cons.peek(1, &mut idx), 1);
    assert_eq!(cons.get_desc(idx), 9);
}

#[test]
fn ring_counters_wrap_around() {
    let mut prod: ProdRing<u64> = ProdRing::new(4, 0);
    prod.producer = u32::MAX - 1;
    prod.consumer = u32::MAX - 1;
    prod.cached_prod = u32::MAX - 1;
    prod.cached_cons = (u32::MAX - 1).wrapping_add(4);
    let mut idx = 0u32;
    assert_eq!(prod.reserve(4, &mut idx), 4);
    assert_eq!(idx, u32::MAX - 1);
    for i in 0..4u32 {
        prod.fill_addr(idx.wrapping_add(i), i as u64);
    }
    prod.submit(4);
    assert_eq!(prod.producer, 2);
    for i in 0..4u64 {
        assert_eq!(prod.kernel_consume(), Some(i));
    }
    assert_eq!(prod.kernel_consume(), None);
}

fn tx_socket(needs_wakeup: bool) -> (TxSocket, Umem) {
    let cfg = small_config(needs_wakeup);
    let mut umem = Umem::new(&cfg).unwrap();
    let mut socket = Socket::new(&cfg, &mut umem, 7, 3).unwrap();
    (socket.take_tx_socket().unwrap(), umem)
}

#[test]
fn tx_submits_in_ring_order_whatever_the_completion_order() {
    let (mut tx, mut umem) = tx_socket(false);
    let a = tx.next_tx_slot().unwrap();
    let b = tx.next_tx_slot().unwrap();
    let c = tx.next_tx_slot().unwrap();
    assert_eq!((a.index, b.index, c.index), (0, 1, 2));

    assert_eq!(tx.tx(&mut umem, &b), 0);
    assert_eq!(tx.tx.producer, 0);
    assert_eq!(tx.tx(&mut umem, &a), 2);
    assert_eq!(tx.tx.producer, 2);
    assert_eq!(tx.tx(&mut umem, &c), 1);
    assert_eq!(tx.tx.producer, 3);
    assert_eq!(tx.current_tx_slot, 3);

    let addrs: Vec<u64> = (0..3).map(|_| tx.tx.kernel_consume().unwrap().addr).collect();
    assert_eq!(addrs, vec![a.addr, b.addr, c.addr]);
}

#[test]
fn sendto_is_gated_by_the_wakeup_flag() {
    // Wakeups off: every submitting transmit asks for a sendto.
    let (mut tx, mut umem) = tx_socket(false);
    for _ in 0..3 {
        let d = tx.next_tx_slot().unwrap();
        tx.tx(&mut umem, &d);
    }
    assert_eq!(tx.take_sendto_requests(), 3);
    assert_eq!(tx.take_sendto_requests(), 0);

    // Wakeups on: only when the kernel flagged the TX ring.
    let (mut tx, mut umem) = tx_socket(true);
    let d = tx.next_tx_slot().unwrap();
    tx.tx(&mut umem, &d);
    assert_eq!(tx.take_sendto_requests(), 0);
    tx.tx.set_flags(1);
    let d = tx.next_tx_slot().unwrap();
    tx.tx(&mut umem, &d);
    assert_eq!(tx.take_sendto_requests(), 1);
}

#[test]
fn sendto_errors() {
    assert_eq!(TxSocket::sendto_result(11), Ok(()));
    assert_eq!(TxSocket::sendto_result(105), Ok(()));
    assert_eq!(TxSocket::sendto_result(16), Ok(()));
    assert_eq!(TxSocket::sendto_result(100), Ok(()));
    assert_eq!(TxSocket::sendto_result(1), Err(Error::XskTxSendtoFailed(1)));
}

#[test]
fn tx_ring_full() {
    let (mut tx, _umem) = tx_socket(false);
    for _ in 0..4 {
        assert!(tx.next_tx_slot().is_ok());
    }
    assert_eq!(tx.next_tx_slot().err(), Some(Error::XskTxRingProdReserveFailed));
}

#[test]
fn completions_are_reclaimed() {
    let (mut tx, mut umem) = tx_socket(false);
    let d = tx.next_tx_slot().unwrap();
    tx.tx(&mut umem, &d);
    let sent = tx.tx.kernel_consume().unwrap();
    assert!(umem.cq.kernel_produce(sent.addr));
    let d = tx.next_tx_slot().unwrap();
    tx.tx(&mut umem, &d);
    assert_eq!(umem.cq.consumer, 1);
}

#[test]
fn fill_queue_refill() {
    let cfg = small_config(true);
    let mut umem = Umem::new(&cfg).unwrap();
    let mut rx: ConsRing<XdpDesc> = ConsRing::new(8, XdpDesc { addr: 0, len: 0, options: 0 });
    assert_eq!(umem.reclaim_fq_bufs(&rx, 0, 0), FqStatus::Done);
    umem.fq.set_flags(1);
    assert_eq!(umem.reclaim_fq_bufs(&rx, 0, 0), FqStatus::NeedsPoll);
    // The fill queue is full: the frame is not given back.
    assert_eq!(umem.reclaim_fq_bufs(&rx, 0, 1), FqStatus::Done);
    assert_eq!(umem.fq.producer, 8);
    let addr = umem.fq.kernel_consume().unwrap();
    assert!(rx.kernel_produce(XdpDesc { addr, len: 60, options: 0 }));
    let mut idx = 0u32;
    assert_eq!(rx.peek(64, &mut idx), 1);
    // Fewer than BATCH_SIZE free slots: the frame is not given back yet.
    assert_eq!(umem.reclaim_fq_bufs(&rx, idx, 1), FqStatus::Done);
    assert_eq!(umem.fq.producer, 8);
}

#[test]
fn fill_queue_refill_with_a_batch_free() {
    let mut cfg = small_config(true);
    cfg.set_rx_size(128);
    let mut umem = Umem::new(&cfg).unwrap();
    let mut rx: ConsRing<XdpDesc> = ConsRing::new(128, XdpDesc { addr: 0, len: 0, options: 0 });
    let mut addr = 0;
    for _ in 0..64 {
        addr = umem.fq.kernel_consume().unwrap();
    }
    assert!(rx.kernel_produce(XdpDesc { addr, len: 60, options: 0 }));
    let mut idx = 0u32;
    assert_eq!(rx.peek(64, &mut idx), 1);
    assert_eq!(umem.reclaim_fq_bufs(&rx, idx, 1), FqStatus::Done);
    assert_eq!(umem.fq.producer, 129);
    assert_eq!(umem.fq.ring[0], addr);
}

#[test]
fn map_updates() {
    let fds = vec![10, 11, 12];
    let updates = XdpProg::load_xdp_prog_maps(0xc0122a2a, 1234, &fds, 1);
    assert_eq!(updates.len(), 6);
    assert_eq!(updates[1], MapUpdate { map: XdpMap::XsksMap, key: 1, value: MapValue::Fd(11) });
    assert_eq!(
        updates[3],
        MapUpdate { map: XdpMap::SocksPerQueueMap, key: 0, value: MapValue::Count(1) }
    );
    assert_eq!(
        updates[4],
        MapUpdate { map: XdpMap::BindAddrMap, key: 0, value: MapValue::Addr(0xc0122a2a) }
    );
    assert_eq!(updates[5], MapUpdate { map: XdpMap::BindPortMap, key: 0, value: MapValue::Port(1234) });
}

#[test]
fn byte_order() {
    assert_eq!(ntohs(0x3412), 0x1234);
    assert_eq!(htons(0x1234), 0x3412);
    assert_eq!(ntohl(0x78563412), 0x12345678);
    assert_eq!(htonl(0x12345678), 0x78563412);
}

#[test]
fn mac_strings() {
    assert_eq!(mac_to_string([0x00, 0x1b, 0x2c, 0xa0, 0xff, 0x09]), "00:1B:2C:A0:FF:09");
}

#[test]
fn packet_buf_reads_and_bounds() {
    let bytes = [1u8, 2, 3, 4, 5, 6, 7, 8, 9, 10, 11, 12, 13, 14, 15];
    let mut pb = PacketBufMut::from_slice(&bytes);
    assert_eq!(pb.peek_u8(), Ok(1));
    assert_eq!(pb.get_u8(), Ok(1));
    assert_eq!(pb.get_be16(), Ok(0x0203));
    assert_eq!(pb.get_be32(), Ok(0x04050607));
    assert_eq!(pb.get_be64(), Ok(0x08090a0b0c0d0e0f));
    assert_eq!(pb.packet_len, 15);
    assert_eq!(pb.get_u8(), Err(NetError::NotEnoughBytes));
    assert_eq!(pb.peek_u8(), Err(NetError::NotEnoughBytes));
    assert_eq!(pb.seek(16), Err(NetError::InvalidSeekPos));
    assert_eq!(pb.seek(2), Ok(()));
    assert_eq!(pb.packet_offset, 2);
    assert_eq!(pb.packet_len, 15);
    assert_eq!(pb.get_bytes(3), Ok(vec![3, 4, 5]));

    let mut pb = PacketBufMut::from_raw_parts(vec![0u8; 10], 4);
    assert_eq!(pb.put_bytes(&[1, 2, 3, 4, 5]), Err(NetError::NotEnoughBytes));
    assert_eq!(pb.put_bytes(&[9, 8]), Ok(()));
    assert_eq!(pb.to_vec(), vec![9, 8]);
}

#[test]
fn ip4_checksum_of_a_known_header() {
    let hdr = [
        0x45u8, 0x00, 0x00, 0x73, 0x00, 0x00, 0x40, 0x00, 0x40, 0x11, 0x00, 0x00, 0xc0, 0xa8, 0x00,
        0x01, 0xc0, 0xa8, 0x00, 0xc7,
    ];
    let mut pb = PacketBufMut::from_slice(&hdr);
    let ip = Ip4Hdr::from_packet_buf(&mut pb).unwrap();
    assert_eq!(ip.version(), 4);
    assert_eq!(ip.hdr_len(), 5);
    assert_eq!(ip.flags(), 2);
    assert_eq!(ip.frag_offset(), 0);
    assert_eq!(ip.total_len, 0x73);
    assert_eq!(ip.calc_checksum().checksum, 0xb861);
}

#[test]
fn ip4_builder_fields() {
    let mut pb = PacketBufMut::from_slice(&[0xffu8; 20]);
    let ip = Ip4Hdr::with_packet_buf(&mut pb).unwrap();
    assert_eq!(ip.hdr_len_version, 0x45);
    assert_eq!(ip.tos, 0);
    assert_eq!(ip.id, 0);
    assert_eq!(ip.flags_frag_offset, 0x4000);
    assert_eq!(ip.ttl, 64);
    let ip = ip.set_version(6).set_hdr_len(7).set_flags(1).set_frag_offset(0x123);
    assert_eq!(ip.version(), 6);
    assert_eq!(ip.hdr_len(), 7);
    assert_eq!(ip.flags(), 1);
    assert_eq!(ip.frag_offset(), 0x123);
    let mut out = PacketBufMut::from_raw_parts(vec![0u8; 20], 20);
    ip.store(&mut out, 0);
    let mut back = PacketBufMut::from_slice(&out.to_vec());
    assert_eq!(Ip4Hdr::from_packet_buf(&mut back).unwrap(), ip);
}

#[test]
fn header_round_trips() {
    let eth = EthHdr { dst_address: [1, 2, 3, 4, 5, 6], src_address: [7, 8, 9, 10, 11, 12], eth_address: 0 }
        .ip4();
    assert_eq!(eth.eth_address, ETH_P_IP);
    assert_eq!(eth.encode()[12..14], [0x08, 0x00]);
    assert_eq!(eth.arp().eth_address, ETH_P_ARP);
    assert_eq!(EthType::try_from_u16(0x0806), Some(EthType::ARP));
    assert_eq!(EthType::try_from_u16(0x86dd), None);

    let udp = UdpHdr { src_port: 1, dst_port: 2, len: 3, sum: 9 }.set_src_port(8000).set_dst_port(1234).set_length(12);
    assert_eq!(udp.encode(), vec![0x1f, 0x40, 0x04, 0xd2, 0x00, 0x0c, 0x00, 0x09]);
    let mut pb = PacketBufMut::from_slice(&udp.encode());
    assert_eq!(UdpHdr::with_packet_buf(&mut pb).unwrap().sum, 0);

    let arp = ArpHdr {
        hw_type: 0,
        proto_type: 0,
        hw_addr_len: 0,
        proto_addr_len: 0,
        opcode: ArpOpcode::REQUEST.value(),
        sender_hw_addr: [0; 6],
        sender_proto_addr: [0; 4],
        target_hw_addr: [0; 6],
        target_proto_addr: [0; 4],
    }
    .arp_reply_ip()
    .set_sender_hw_address([1; 6])
    .set_sender_proto_address([2; 4])
    .set_target_hw_address([3; 6])
    .set_target_proto_address([4; 4]);
    let bytes = arp.encode();
    assert_eq!(bytes[0..8], [0, 1, 8, 0, 6, 4, 0, 2]);
    let mut pb = PacketBufMut::from_slice(&bytes);
    assert_eq!(ArpHdr::from_packet_buf(&mut pb).unwrap(), arp);
}

#[test]
fn arp_table_keeps_one_entry_per_address() {
    let mut t = ArpTable::new();
    assert_eq!(t.get(1), None);
    t.insert(1, [1; 6]);
    t.insert(2, [2; 6]);
    t.insert(1, [3; 6]);
    assert_eq!(t.get(1), Some([3; 6]));
    assert_eq!(t.get(2), Some([2; 6]));
    assert_eq!(t.entries.len(), 2);
}

#[test]
fn echo_app_schedules_a_second_answer() {
    let mut app = EchoApp::new(true);
    assert!(app.repeat);
    assert!(app.take_scheduled().is_empty());
}

#[test]
fn socket_new_rejects_bad_ring_sizes() {
    let cfg = small_config(false);
    let mut umem = Umem::new(&cfg).unwrap();
    let mut bad = small_config(false);
    bad.set_rx_size(3);
    let r = Socket::new(&bad, &mut umem, 7, 3);
    assert_eq!(r.err(), Some(Error::XskSocketCreateFailed(22)));
    assert_eq!(umem.frame_allocator.frame_addr.len(), 4);
}

#[test]
fn runner_stops_once() {
    let runner = libh2o2::xsk::Runner::new([5, 6]);
    let other = runner.clone();
    assert!(runner.is_running());
    assert_eq!(runner.pipe_reader_fd(), 5);
    assert_eq!(runner.pipe_writer_fd(), 6);
    assert!(other.stop());
    assert!(!runner.is_running());
    assert!(!runner.stop());
}

#[test]
fn read_only_cursor() {
    let mut pb = libh2o2::net::PacketBuf::from_slice(&[0x12, 0x34, 0x56]);
    assert_eq!(pb.peek_u8(), Ok(0x12));
    assert_eq!(pb.get_be16(), Ok(0x1234));
    assert_eq!(pb.get_bytes(2), Err(NetError::NotEnoughBytes));
    assert_eq!(pb.get_u8(), Ok(0x56));
    assert_eq!(pb.to_vec(), vec![0x12, 0x34, 0x56]);
}

#[test]
fn sendto_is_recorded_even_when_nothing_is_submitted() {
    let (mut tx, mut umem) = tx_socket(false);
    let a = tx.next_tx_slot().unwrap();
    let b = tx.next_tx_slot().unwrap();
    assert_eq!(tx.tx(&mut umem, &b), 0);
    assert_eq!(tx.take_sendto_requests(), 1);
    assert_eq!(tx.tx(&mut umem, &a), 2);
    assert_eq!(tx.take_sendto_requests(), 1);
    assert_eq!(tx.current_tx_slot as u32, tx.tx.producer % tx.tx.size);
}

fn udp_frame(udp_len: u16, payload: &[u8]) -> Vec<u8> {
    let mut f = vec![0u8; 6];
    f.extend_from_slice(&[0, 1, 2, 3, 4, 5]);
    f.extend_from_slice(&[0x08, 0x00]);
    f.extend_from_slice(&[0x45, 0, 0, 32, 0, 0, 0x40, 0, 64, 17, 0, 0]);
    f.extend_from_slice(&[192, 18, 42, 1]);
    f.extend_from_slice(&[192, 18, 42, 42]);
    f.extend_from_slice(&8000u16.to_be_bytes());
    f.extend_from_slice(&1234u16.to_be_bytes());
    f.extend_from_slice(&udp_len.to_be_bytes());
    f.extend_from_slice(&[0, 0]);
    f.extend_from_slice(payload);
    f
}

#[test]
fn udp_datagram_gives_source_and_payload() {
    let f = udp_frame(12, b"lol\n");
    assert_eq!(f.len(), 46);
    let (socket, payload) = udp_datagram(&f).unwrap().unwrap();
    assert_eq!(socket, AppSocket { source_address: 0xc0122a01, source_port: 8000 });
    assert_eq!(payload, b"lol\n".to_vec());
    // A UDP length below the header's, or past the frame.
    assert_eq!(udp_datagram(&udp_frame(7, b"lol\n")), Err(NetError::NotEnoughBytes));
    assert_eq!(udp_datagram(&udp_frame(13, b"lol\n")), Err(NetError::NotEnoughBytes));
    // Too short for the headers.
    assert_eq!(udp_datagram(&f[..40]), Err(NetError::NotEnoughBytes));
    assert_eq!(udp_datagram(&f[..10]), Err(NetError::NotEnoughBytes));
    // Not UDP, not IPv4.
    let mut tcp = f.clone();
    tcp[23] = 6;
    assert_eq!(udp_datagram(&tcp), Ok(None));
    let mut v6 = f.clone();
    v6[12] = 0x86;
    v6[13] = 0xdd;
    assert_eq!(udp_datagram(&v6), Ok(None));
}

fn echo_net(repeat: bool) -> (libh2o2::net::Net<EchoApp>, Umem) {
    let (tx, umem) = tx_socket(false);
    let ns = NetStack::new(tx, [2, 0, 0, 0, 0, 1], 0xc0122a2a, 1234);
    (libh2o2::net::Net::new(EchoApp::new(repeat), ns), umem)
}

#[test]
fn received_frames_results() {
    let (mut net, mut umem) = echo_net(true);
    let put = |umem: &mut Umem, f: &[u8]| {
        umem.write_frame(0, f);
        XdpDesc { addr: 0, len: f.len() as u32, options: 0 }
    };
    // Another EtherType is ignored.
    let mut other = udp_frame(12, b"lol\n");
    other[12] = 0x86;
    let d = put(&mut umem, &other);
    assert_eq!(net.do_rx_packet(&mut umem, d), Ok(()));
    assert_eq!(net.netstack.xsk_handle.tx.cached_prod, 0);
    // A short ARP frame fails.
    let mut arp = other.clone();
    arp[12] = 0x08;
    arp[13] = 0x06;
    let d = put(&mut umem, &arp[..30]);
    assert_eq!(net.do_rx_packet(&mut umem, d), Err(NetError::NotEnoughBytes));
    // A descriptor outside the area fails.
    let d = XdpDesc { addr: umem.frame_allocator.buffer.len() as u64, len: 1, options: 0 };
    assert_eq!(net.do_rx_packet(&mut umem, d), Err(NetError::NotEnoughBytes));
    // A datagram is echoed and, with repeat, scheduled once more.
    let d = put(&mut umem, &udp_frame(12, b"lol\n"));
    assert_eq!(net.do_rx_packet(&mut umem, d), Ok(()));
    assert_eq!(net.netstack.xsk_handle.tx.producer, 1);
    let scheduled = net.app.take_scheduled();
    assert_eq!(scheduled.len(), 1);
    assert_eq!(scheduled[0].0.source_port, 8000);
    assert_eq!(scheduled[0].1, b"lol\n".to_vec());
}

#[test]
fn queue_new_errors() {
    let cfg = small_config(false);
    assert!(Queue::new(&cfg, 0, &vec![7], 3).is_ok());
    assert_eq!(
        Queue::new(&cfg, 0, &vec![7, 8], 3).err(),
        Some(Error::FrameAllocatorAllocationFailed(12))
    );
    let mut bad = small_config(false);
    bad.set_socks_per_queue(2);
    bad.set_rx_size(4);
    assert!(Queue::new(&bad, 0, &vec![7, 8], 3).is_ok());
    let mut bad = small_config(false);
    bad.set_rx_size(42);
    assert_eq!(Queue::new(&bad, 0, &vec![], 3).err(), Some(Error::XskUmemCreateFailed(22)));
}

#[test]
fn rx_cycle_with_nothing_received_is_idle() {
    let cfg = small_config(false);
    let mut umem = Umem::new(&cfg).unwrap();
    let mut socket = Socket::new(&cfg, &mut umem, 7, 3).unwrap();
    let mut rx = socket.take_rx_socket().unwrap();
    let (mut net, _) = echo_net(false);
    let _ = &mut net;
    let mut net2 = {
            let tx = socket.take_tx_socket().unwrap();
        libh2o2::net::Net::new(EchoApp::new(false), NetStack::new(tx, [2, 0, 0, 0, 0, 1], 1, 1))
    };
    assert!(matches!(rx.run_rx_loop(&mut umem, &mut net2), RxStep::Idle { poll: false }));
}

#[test]
fn umem_area_size() {
    let cfg = small_config(false);
    assert_eq!(Umem::size(&cfg), Some((8 + 4) * 4096));
    let mut big = small_config(false);
    big.set_rx_size(usize::MAX);
    assert_eq!(Umem::size(&big), None);
    big.set_frame_size(0);
    assert_eq!(Umem::size(&big), Some(0));
}
