use vstd::prelude::*;

use crate::xsk::configuration::{Configuration, XskMode};
use crate::xsk::socket::Socket;
use crate::xsk::frame_allocator::ENOMEM;
use crate::xsk::ring::{is_pow2, MAX_RING_SIZE};
use crate::xsk::umem::{umem_config_ok, Umem, EINVAL};
use crate::xsk::{Error, Result};

verus! {

/// The maps of the XDP program that the loader fills.
#[derive(Debug, Clone, Copy, PartialEq, Eq)]
pub enum XdpMap {
    /// Socket index to socket fd.
    XsksMap,
    /// Entry 0: sockets per queue.
    SocksPerQueueMap,
    /// Entry 0: the bind IPv4 address.
    BindAddrMap,
    /// Entry 0: the bind UDP port.
    BindPortMap,
}

/// A value written into a map, with the width the program reads.
#[derive(Debug, Clone, Copy, PartialEq, Eq)]
pub enum MapValue {
    Fd(i32),
    Count(u32),
    Addr(u32),
    Port(u16),
}

/// One map entry to write.
#[derive(Debug, Clone, Copy, PartialEq, Eq)]
pub struct MapUpdate {
    pub map: XdpMap,
    pub key: u32,
    pub value: MapValue,
}

/// An XDP program attached to an interface, in a mode.
#[derive(Debug, Clone, Copy, PartialEq, Eq)]
pub struct XdpProg {
    pub iface_index: u32,
    pub mode: XskMode,
}

/// One UMEM and the sockets that share it, on one interface queue.
pub struct Queue {
    pub queue_num: usize,
    pub umem: Umem,
    pub sockets: Vec<Socket>,
}

impl Queue {
    /// Sets up queue `queue_num` for `cfg`: its UMEM, then one socket per
    /// fd of `socket_fds` (the kernel sockets bound to the queue), in order.
    /// Succeeds iff the UMEM can be made and, when there are sockets, their
    /// ring sizes are valid and the pool holds a TX frame for every TX slot.
    pub fn new(cfg: &Configuration, queue_num: usize, socket_fds: &Vec<i32>, pipe_reader_fd: i32) -> (r:
        Result<Queue>)
        ensures
            r matches Ok(q) ==> {
                &&& q.queue_num == queue_num
                &&& q.umem.wf()
                &&& q.sockets@.len() == socket_fds@.len()
                &&& forall|i: int| 0 <= i < q.sockets@.len() ==> #[trigger] q.sockets@[i].fd == socket_fds@[i]
            },
            r is Ok <==> umem_config_ok(*cfg) && (socket_fds@.len() == 0 || (socket_sizes_ok(*cfg)
                && socket_fds@.len() * cfg.tx_size <= cfg.tx_size * cfg.socks_per_queue)),
            !umem_config_ok(*cfg) ==> (r == Err::<Queue, Error>(Error::XskUmemCreateFailed(EINVAL))
                || r == Err::<Queue, Error>(Error::FrameAllocatorAllocationFailed(ENOMEM))),
            umem_config_ok(*cfg) && socket_fds@.len() > 0 && !socket_sizes_ok(*cfg) ==> r == Err::<
                Queue,
                Error,
            >(Error::XskSocketCreateFailed(EINVAL)),
            umem_config_ok(*cfg) && socket_fds@.len() > 0 && socket_sizes_ok(*cfg)
                && socket_fds@.len() * cfg.tx_size > cfg.tx_size * cfg.socks_per_queue ==> r == Err::<
                Queue,
                Error,
            >(Error::FrameAllocatorAllocationFailed(ENOMEM)),
    {
        let mut umem = Umem::new(cfg)?;
        let ghost tx_total: int = cfg.tx_size * cfg.socks_per_queue;
        let ghost t: int = cfg.tx_size as int;
        let mut sockets: Vec<Socket> = Vec::new();
        let mut i: usize = 0;
        while i < socket_fds.len()
            invariant
                i <= socket_fds@.len(),
                umem.wf(),
                umem_config_ok(*cfg),
                t == cfg.tx_size,
                tx_total == cfg.tx_size * cfg.socks_per_queue,
                i * t <= tx_total,
                umem.frame_allocator.free_frames().len() == tx_total - i * t,
                i > 0 ==> socket_sizes_ok(*cfg),
                sockets@.len() == i,
                forall|j: int| 0 <= j < i ==> #[trigger] sockets@[j].fd == socket_fds@[j],
            decreases socket_fds@.len() - i,
        {
            let ghost free_before = umem.frame_allocator.free_frames().len();
            let socket = match Socket::new(cfg, &mut umem, socket_fds[i], pipe_reader_fd) {
                Ok(s) => s,
                Err(e) => {
                    proof {
                        if socket_sizes_ok(*cfg) {
                            let n = socket_fds@.len() as int;
                            assert(n * t >= (i + 1) * t) by (nonlinear_arith)
                                requires
                                    n >= i + 1,
                                    t >= 0,
                            ;
                            assert((i + 1) * t == i * t + t) by (nonlinear_arith);
                        }
                    }
                    return Err(e);
                },
            };
            sockets.push(socket);
            proof {
                assert((i + 1) * t == i * t + t) by (nonlinear_arith);
            }
            i = i + 1;
        }
        Ok(Queue { queue_num, umem, sockets })
    }
}

/// The RX and TX ring sizes of `cfg` suit a socket.
pub open spec fn socket_sizes_ok(cfg: Configuration) -> bool {
    &&& is_pow2(cfg.rx_size as int)
    &&& is_pow2(cfg.tx_size as int)
    &&& cfg.rx_size <= MAX_RING_SIZE
    &&& cfg.tx_size <= MAX_RING_SIZE
}

/// The fds of the sockets of `queues`: queues in order, and the sockets of
/// each queue in order. Entry `k` is the socket the program's index `k`
/// selects.
pub open spec fn queue_socket_fds(queues: Seq<Queue>) -> Seq<i32>
    decreases queues.len(),
{
    if queues.len() == 0 {
        Seq::empty()
    } else {
        queue_socket_fds(queues.drop_last()) + queues.last().sockets@.map_values(|s: Socket| s.fd)
    }
}

/// The map entries that wire the program to the sockets: entry `k` of
/// `xsks_map` is the fd of the `k`-th socket (queues in order, the sockets
/// of each queue in order), then sockets per queue, bind address and bind
/// port, each at entry 0.
pub open spec fn map_updates(
    bind_addr: u32,
    bind_port: u16,
    socket_fds: Seq<i32>,
    socks_per_queue: u32,
) -> Seq<MapUpdate> {
    Seq::new(
        socket_fds.len(),
        |k: int| MapUpdate { map: XdpMap::XsksMap, key: k as u32, value: MapValue::Fd(socket_fds[k]) },
    ) + seq![
        MapUpdate { map: XdpMap::SocksPerQueueMap, key: 0, value: MapValue::Count(socks_per_queue) },
        MapUpdate { map: XdpMap::BindAddrMap, key: 0, value: MapValue::Addr(bind_addr) },
        MapUpdate { map: XdpMap::BindPortMap, key: 0, value: MapValue::Port(bind_port) },
    ]
}

impl XdpProg {
    /// The fds of the sockets of `queues`, queues in order and the sockets
    /// of each queue in order.
    pub fn socket_fds(queues: &Vec<Queue>) -> (r: Vec<i32>)
        ensures
            r@ == queue_socket_fds(queues@),
    {
        let mut r: Vec<i32> = Vec::new();
        let mut q: usize = 0;
        while q < queues.len()
            invariant
                q <= queues@.len(),
                r@ == queue_socket_fds(queues@.subrange(0, q as int)),
            decreases queues@.len() - q,
        {
            let sockets = &queues[q].sockets;
            let ghost before = r@;
            let mut i: usize = 0;
            while i < sockets.len()
                invariant
                    i <= sockets@.len(),
                    r@ == before + sockets@.subrange(0, i as int).map_values(|s: Socket| s.fd),
                decreases sockets@.len() - i,
            {
                r.push(sockets[i].fd);
                i = i + 1;
                assert(r@ =~= before + sockets@.subrange(0, i as int).map_values(|s: Socket| s.fd));
            }
            proof {
                let s = queues@.subrange(0, q + 1);
                assert(s.drop_last() =~= queues@.subrange(0, q as int));
                assert(sockets@.subrange(0, sockets@.len() as int) =~= sockets@);
            }
            q = q + 1;
        }
        proof {
            assert(queues@.subrange(0, queues@.len() as int) =~= queues@);
        }
        r
    }

    /// The map entries to write for sockets `socket_fds` (see
    /// [`map_updates`]).
    pub fn load_xdp_prog_maps(
        bind_addr: u32,
        bind_port: u16,
        socket_fds: &Vec<i32>,
        socks_per_queue: u32,
    ) -> (r: Vec<MapUpdate>)
        requires
            socket_fds@.len() <= u32::MAX,
        ensures
            r@ == map_updates(bind_addr, bind_port, socket_fds@, socks_per_queue),
    {
        let mut r: Vec<MapUpdate> = Vec::new();
        let mut k: usize = 0;
        while k < socket_fds.len()
            invariant
                k <= socket_fds@.len(),
                socket_fds@.len() <= u32::MAX,
                r@ =~= Seq::new(
                    k as nat,
                    |j: int|
                        MapUpdate {
                            map: XdpMap::XsksMap,
                            key: j as u32,
                            value: MapValue::Fd(socket_fds@[j]),
                        },
                ),
            decreases socket_fds@.len() - k,
        {
            r.push(MapUpdate { map: XdpMap::XsksMap, key: k as u32, value: MapValue::Fd(socket_fds[k]) });
            k = k + 1;
        }
        r.push(
            MapUpdate {
                map: XdpMap::SocksPerQueueMap,
                key: 0,
                value: MapValue::Count(socks_per_queue),
            },
        );
        r.push(MapUpdate { map: XdpMap::BindAddrMap, key: 0, value: MapValue::Addr(bind_addr) });
        r.push(MapUpdate { map: XdpMap::BindPortMap, key: 0, value: MapValue::Port(bind_port) });
        proof {
            assert(r@ =~= map_updates(bind_addr, bind_port, socket_fds@, socks_per_queue));
        }
        r
    }
}

} // verus!
