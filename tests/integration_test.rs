use libh2o2::echo::EchoApp;
use libh2o2::net::app::Socket as AppSocket;
use libh2o2::net::stack::{Net, NetStack};
use libh2o2::net::{EthHdr, Ip4Hdr, PacketBufMut, UdpHdr};
use libh2o2::xsk::ring::XdpDesc;
use libh2o2::xsk::socket::{RxSocket, RxStep};
use libh2o2::xsk::umem::Umem;
use libh2o2::xsk::xdp_prog::Queue;
use libh2o2::xsk::{Configuration, NeedsWakeup, XskMode};

const IFACE_MAC: [u8; 6] = [0x02, 0x00, 0x00, 0x00, 0x00, 0x01];
const PEER_MAC: [u8; 6] = [0, 1, 2, 3, 4, 5];
const BIND_ADDR: u32 = 0xc0122a2a; // 192.18.42.42
const PEER_ADDR: u32 = 0xc0122a01; // 192.18.42.1
const BIND_PORT: u16 = 1234;

/// One queue of the endpoint: its UMEM, and the RX half and stack of each
/// socket.
struct SimQueue {
    umem: Umem,
    rx: Vec<RxSocket>,
    nets: Vec<Net<EchoApp>>,
}

/// The endpoint, with the kernel's side of the rings played by the test.
struct SimXsk {
    queues: Vec<SimQueue>,
    socks_per_queue: usize,
}

fn init_xsk(queues: Vec<usize>, socks_per_queue: usize, repeated: bool) -> SimXsk {
    let mut cfg = Configuration::new();
    cfg.set_interface("hype_tun0".to_string());
    cfg.set_bind_address(BIND_ADDR);
    cfg.set_bind_port(BIND_PORT);
    cfg.set_rx_size(256);
    cfg.set_tx_size(256);
    cfg.set_queues(queues.clone());
    cfg.set_needs_wakeup(NeedsWakeup::new(false));
    cfg.set_mode(XskMode::Drv);
    cfg.set_socks_per_queue(socks_per_queue);
    assert!(cfg.validate().is_ok());

    let mut sim = Vec::new();
    let mut next_fd = 10;
    for q in queues {
        let fds: Vec<i32> = (0..socks_per_queue).map(|i| next_fd + i as i32).collect();
        next_fd += socks_per_queue as i32;
        let queue = Queue::new(&cfg, q, &fds, 3).unwrap();
        let Queue { umem, sockets, .. } = queue;
        let mut rx = Vec::new();
        let mut nets = Vec::new();
        for mut socket in sockets {
            rx.push(socket.take_rx_socket().unwrap());
            let netstack =
                NetStack::new(socket.take_tx_socket().unwrap(), IFACE_MAC, BIND_ADDR, BIND_PORT);
            nets.push(Net::new(EchoApp::new(repeated), netstack));
        }
        sim.push(SimQueue { umem, rx, nets });
    }
    SimXsk { queues: sim, socks_per_queue }
}

impl SimXsk {
    /// The NIC receives `frame` on `queue`; the XDP program picks the socket
    /// by source port. The kernel takes a frame from the fill queue, copies
    /// the packet there and posts it on the socket's RX ring; the socket's
    /// RX cycle then runs.
    fn receive(&mut self, queue: usize, frame: &[u8], src_port: u16) -> usize {
        let sock = src_port as usize % self.socks_per_queue;
        let q = &mut self.queues[queue];
        let addr = q.umem.fq.kernel_consume().expect("fill queue empty");
        q.umem.write_frame(addr, frame);
        let desc = XdpDesc { addr, len: frame.len() as u32, options: 0 };
        assert!(q.rx[sock].rx.kernel_produce(desc));
        match q.rx[sock].run_rx_loop(&mut q.umem, &mut q.nets[sock]) {
            RxStep::Done { rcvd, errors } => {
                assert!(errors.is_empty());
                rcvd
            },
            _ => panic!("RX cycle did not complete"),
        }
    }

    /// The kernel takes the next submitted TX descriptor of a socket, sends
    /// its frame and posts the completion.
    fn transmit(&mut self, queue: usize, sock: usize) -> Option<Vec<u8>> {
        let q = &mut self.queues[queue];
        let tx = &mut q.nets[sock].netstack.xsk_handle.tx;
        let desc = tx.kernel_consume()?;
        let bytes = q.umem.read_frame(desc.addr, desc.len as usize).unwrap();
        assert!(q.umem.cq.kernel_produce(desc.addr));
        Some(bytes)
    }
}

fn build_tx_packet(src_port: u16) -> Vec<u8> {
    let buf = [0u8; 1024];
    let mut packet_buf = PacketBufMut::from_slice(&buf);

    EthHdr::with_packet_buf(&mut packet_buf)
        .unwrap()
        .set_src_address(PEER_MAC)
        .set_dst_address(IFACE_MAC)
        .ip4()
        .store(&mut packet_buf, 0);

    Ip4Hdr::with_packet_buf(&mut packet_buf)
        .unwrap()
        .set_total_length(32)
        .udp()
        .set_src_address(PEER_ADDR)
        .set_dst_address(BIND_ADDR)
        .calc_checksum()
        .store(&mut packet_buf, 14);

    UdpHdr::with_packet_buf(&mut packet_buf)
        .unwrap()
        .set_src_port(src_port)
        .set_dst_port(BIND_PORT)
        .set_length(12)
        .store(&mut packet_buf, 34);

    packet_buf.put_bytes(b"lol\n").unwrap();
    packet_buf.to_vec()
}

fn assert_echo_response(tx_packet: &[u8], rx_packet: &[u8]) {
    let mut tx_packet = PacketBufMut::from_slice(tx_packet);
    let mut rx_packet = PacketBufMut::from_slice(rx_packet);

    let tx_eth = EthHdr::from_packet_buf(&mut tx_packet).unwrap();
    let rx_eth = EthHdr::from_packet_buf(&mut rx_packet).unwrap();
    assert_eq!(tx_eth.src_address, rx_eth.dst_address);
    assert_eq!(tx_eth.dst_address, rx_eth.src_address);
    assert_eq!(tx_eth.eth_address, rx_eth.eth_address);

    let tx_ip = Ip4Hdr::from_packet_buf(&mut tx_packet).unwrap();
    let rx_ip = Ip4Hdr::from_packet_buf(&mut rx_packet).unwrap();
    assert_eq!(tx_ip.proto, rx_ip.proto);
    assert_eq!(tx_ip.src_addr, rx_ip.dst_addr);
    assert_eq!(tx_ip.dst_addr, rx_ip.src_addr);
    assert_eq!(rx_ip.ttl, 64);
    assert_eq!(rx_ip.flags(), 2);
    assert_eq!(rx_ip.checksum, rx_ip.calc_checksum().checksum);

    let tx_udp = UdpHdr::from_packet_buf(&mut tx_packet).unwrap();
    let rx_udp = UdpHdr::from_packet_buf(&mut rx_packet).unwrap();
    assert_eq!(tx_udp.src_port, rx_udp.dst_port);
    assert_eq!(tx_udp.dst_port, rx_udp.src_port);

    let tx_payload = tx_packet.get_bytes(4).unwrap();
    let rx_payload = rx_packet.get_bytes(4).unwrap();

    assert_eq!(tx_payload, rx_payload);
}

fn test_echo_server_with_tx_packet(
    dev: &mut SimXsk,
    queue: usize,
    tx_packet: &[u8],
    src_port: u16,
    packet_count: usize,
    repeated: bool,
) {
    let sock = src_port as usize % dev.socks_per_queue;
    for _ in 0..packet_count {
        assert_eq!(dev.receive(queue, tx_packet, src_port), 1);

        let rx_packet = dev.transmit(queue, sock).expect("no echo");
        assert_eq!(tx_packet.len(), rx_packet.len());
        assert_echo_response(tx_packet, &rx_packet);

        if repeated {
            // The second answer, due 50 ms later.
            let q = &mut dev.queues[queue];
            let scheduled = q.nets[sock].app.take_scheduled();
            assert_eq!(scheduled.len(), 1);
            for (socket, payload) in scheduled {
                EchoApp::send_echo_response(
                    &mut q.nets[sock].netstack,
                    &mut q.umem,
                    &socket,
                    &payload,
                )
                .unwrap();
            }
            let rx_packet = dev.transmit(queue, sock).expect("no second echo");
            assert_eq!(tx_packet.len(), rx_packet.len());
            assert_echo_response(tx_packet, &rx_packet);
        }
        assert!(dev.transmit(queue, sock).is_none());
    }
}

fn test_echo_server(dev: &mut SimXsk, queue: usize) {
    let tx_packet = build_tx_packet(8000);
    test_echo_server_with_tx_packet(dev, queue, &tx_packet, 8000, 512, false);
}

fn test_echo_server_odd_src_port(dev: &mut SimXsk, queue: usize) {
    let tx_packet = build_tx_packet(8001);
    test_echo_server_with_tx_packet(dev, queue, &tx_packet, 8001, 512, false);
}

fn test_echo_server_repeated(dev: &mut SimXsk, queue: usize) {
    let tx_packet = build_tx_packet(8000);
    test_echo_server_with_tx_packet(dev, queue, &tx_packet, 8000, 1, true);
}

#[test]
fn test_echo_server_single_queue() {
    let mut dev = init_xsk(vec![0], 1, false);

    test_echo_server(&mut dev, 0);
}

#[test]
fn test_echo_server_multi_queue() {
    let mut dev = init_xsk(vec![0, 1], 1, false);

    for i in 0..2 {
        test_echo_server(&mut dev, i);
    }
}

#[test]
fn test_echo_server_multi_socks_per_queue() {
    let mut dev = init_xsk(vec![0], 2, false);

    test_echo_server(&mut dev, 0);
    test_echo_server_odd_src_port(&mut dev, 0);
}

#[test]
fn test_echo_server_multi_queue_multi_socks_per_queue() {
    let mut dev = init_xsk(vec![0, 1], 2, false);

    for i in 0..2 {
        test_echo_server(&mut dev, i);
        test_echo_server_odd_src_port(&mut dev, i);
    }
}

#[test]
fn test_echo_server_single_queue_repeated() {
    let mut dev = init_xsk(vec![0, 1], 2, true);

    test_echo_server_repeated(&mut dev, 0);
}

#[test]
fn two_queues_reply_on_the_queue_of_the_source_port() {
    let mut dev = init_xsk(vec![0, 1], 1, false);
    for src_port in [8000u16, 8001] {
        let queue = (src_port % 2) as usize;
        let tx_packet = build_tx_packet(src_port);
        assert_eq!(dev.receive(queue, &tx_packet, src_port), 1);
        let other = 1 - queue;
        assert!(dev.transmit(other, 0).is_none());
        let rx_packet = dev.transmit(queue, 0).expect("no echo");
        assert_echo_response(&tx_packet, &rx_packet);
    }
}

#[test]
fn arp_request_gets_one_reply_and_teaches_the_cache() {
    let mut dev = init_xsk(vec![0], 1, false);

    let mut request = vec![0xffu8; 6];
    request.extend_from_slice(&PEER_MAC);
    request.extend_from_slice(&[0x08, 0x06]);
    request.extend_from_slice(&[0x00, 0x01, 0x08, 0x00, 6, 4, 0x00, 0x01]);
    request.extend_from_slice(&PEER_MAC);
    request.extend_from_slice(&PEER_ADDR.to_be_bytes());
    request.extend_from_slice(&[0u8; 6]);
    request.extend_from_slice(&BIND_ADDR.to_be_bytes());
    assert_eq!(request.len(), 42);

    assert_eq!(dev.receive(0, &request, 0), 1);
    let reply = dev.transmit(0, 0).expect("no ARP reply");
    assert!(dev.transmit(0, 0).is_none());
    assert_eq!(reply.len(), 42);
    assert_eq!(&reply[0..6], &PEER_MAC);
    assert_eq!(&reply[6..12], &IFACE_MAC);
    assert_eq!(&reply[12..14], &[0x08, 0x06]);
    assert_eq!(&reply[14..22], &[0x00, 0x01, 0x08, 0x00, 6, 4, 0x00, 0x02]);
    assert_eq!(&reply[22..28], &IFACE_MAC);
    assert_eq!(&reply[28..32], &BIND_ADDR.to_be_bytes());
    assert_eq!(&reply[32..38], &PEER_MAC);
    assert_eq!(&reply[38..42], &PEER_ADDR.to_be_bytes());

    let net = &dev.queues[0].nets[0];
    assert_eq!(net.netstack.arp_table.get(PEER_ADDR), Some(PEER_MAC));

    // A datagram to the requester goes out at once, to the learned MAC.
    let q = &mut dev.queues[0];
    let socket = AppSocket { source_address: PEER_ADDR, source_port: 9000 };
    EchoApp::send_echo_response(&mut q.nets[0].netstack, &mut q.umem, &socket, b"hi").unwrap();
    let datagram = dev.transmit(0, 0).expect("no datagram");
    assert_eq!(&datagram[0..6], &PEER_MAC);
    assert_eq!(&datagram[42..], b"hi");
}

#[test]
fn tx_ring_full_is_an_error_not_a_block() {
    let mut dev = init_xsk(vec![0], 1, false);
    let q = &mut dev.queues[0];
    let netstack = &mut q.nets[0].netstack;
    let mut held = Vec::new();
    for _ in 0..256 {
        held.push(netstack.new_tx_payload_buf(&q.umem).unwrap());
    }
    let r = netstack.new_tx_payload_buf(&q.umem);
    assert!(matches!(
        r,
        Err(libh2o2::net::Error::Xsk(libh2o2::xsk::Error::XskTxRingProdReserveFailed))
    ));
}
