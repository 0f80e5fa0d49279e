use vstd::prelude::*;

use crate::net::packet_buf::{copy_range, overwrite, write_range};
use crate::xsk::configuration::{Configuration, NeedsWakeup};
use crate::xsk::frame_allocator::{initial_free_list, FrameAllocator, ENOMEM};
use crate::xsk::ring::{
    advance, is_pow2, is_power_of_two, lemma_slots_distinct, ConsRing, ProdRing, XdpDesc, MAX_RING_SIZE,
};
use crate::xsk::{Error, Result, BATCH_SIZE};

verus! {

/// Invalid argument.
pub const EINVAL: i32 = 22;

/// The frame pool of one queue with its fill queue (user to kernel: frames
/// to receive into) and completion queue (kernel to user: frames sent).
pub struct Umem {
    pub frame_allocator: FrameAllocator,
    pub fq: ProdRing<u64>,
    pub cq: ConsRing<u64>,
    pub needs_wakeup: NeedsWakeup,
}

/// What the fill-queue refill asks of the caller.
#[derive(Debug, Clone, Copy, PartialEq, Eq)]
pub enum FqStatus {
    /// Nothing more to do.
    Done,
    /// The kernel asked for a wakeup: poll the socket.
    NeedsPoll,
    /// The fill queue had no room for the frames: poll the socket if
    /// `poll` holds, then try again.
    Retry { poll: bool },
}

/// The fill and completion queue sizes of `cfg` fit in memory addresses.
pub open spec fn ring_frames_fit(cfg: Configuration) -> bool {
    &&& cfg.rx_size * cfg.socks_per_queue <= usize::MAX
    &&& cfg.tx_size * cfg.socks_per_queue <= usize::MAX
}

/// The fill and completion queue sizes and the frame size of `cfg` are
/// powers of two, and the rings are not too large.
pub open spec fn ring_sizes_ok(cfg: Configuration) -> bool {
    &&& is_pow2(cfg.rx_size * cfg.socks_per_queue)
    &&& is_pow2(cfg.tx_size * cfg.socks_per_queue)
    &&& cfg.rx_size * cfg.socks_per_queue <= MAX_RING_SIZE
    &&& cfg.tx_size * cfg.socks_per_queue <= MAX_RING_SIZE
    &&& is_pow2(cfg.frame_size as int)
}

/// A UMEM can be made for `cfg`: valid sizes, and an area that fits in
/// memory addresses.
pub open spec fn umem_config_ok(cfg: Configuration) -> bool {
    &&& ring_frames_fit(cfg)
    &&& ring_sizes_ok(cfg)
    &&& (cfg.rx_size * cfg.socks_per_queue + cfg.tx_size * cfg.socks_per_queue) * cfg.frame_size
        <= usize::MAX
}

/// `fq2` is `fq` after the frames of the `n` RX descriptors from counter
/// `idx_rx` of `rx` were given back: the producer moved by `n`, and the
/// slots after the old reservation point hold those frames, in order.
pub open spec fn fq_refilled(
    fq: ProdRing<u64>,
    fq2: ProdRing<u64>,
    rx: ConsRing<XdpDesc>,
    idx_rx: u32,
    n: int,
) -> bool {
    &&& fq2.submitted() == fq.submitted() + n
    &&& fq2.pending() == fq.pending()
    &&& fq2.producer == advance(fq.producer, n)
    &&& forall|i: int|
        0 <= i < n ==> #[trigger] fq2.ring@[fq2.slot(advance(fq.cached_prod, i))] == rx.ring@[rx.slot(
            advance(idx_rx, i),
        )].addr
}

impl Umem {
    /// Bytes of the UMEM area of `cfg`:
    /// `(rx_size + tx_size) × socks_per_queue × frame_size`, if that fits in
    /// memory addresses.
    pub fn size(cfg: &Configuration) -> (r: Option<usize>)
        ensures
            r == (if (cfg.rx_size * cfg.socks_per_queue + cfg.tx_size * cfg.socks_per_queue)
                * cfg.frame_size <= usize::MAX {
                Some(
                    ((cfg.rx_size * cfg.socks_per_queue + cfg.tx_size * cfg.socks_per_queue)
                        * cfg.frame_size) as usize,
                )
            } else {
                None
            }),
    {
        let fs = cfg.frame_size;
        if fs == 0 {
            proof {
                let t = cfg.rx_size * cfg.socks_per_queue + cfg.tx_size * cfg.socks_per_queue;
                assert(t * 0 == 0) by (nonlinear_arith);
            }
            return Some(0);
        }
        let ghost rxi: int = cfg.rx_size * cfg.socks_per_queue;
        let ghost txi: int = cfg.tx_size * cfg.socks_per_queue;
        proof {
            assert(rxi >= 0 && txi >= 0) by (nonlinear_arith)
                requires
                    rxi == cfg.rx_size * cfg.socks_per_queue,
                    txi == cfg.tx_size * cfg.socks_per_queue,
            ;
            assert((rxi + txi) * fs >= rxi + txi) by (nonlinear_arith)
                requires
                    fs >= 1,
                    rxi + txi >= 0,
            ;
        }
        let rx = match cfg.rx_size.checked_mul(cfg.socks_per_queue) {
            Some(v) => v,
            None => return None,
        };
        let tx = match cfg.tx_size.checked_mul(cfg.socks_per_queue) {
            Some(v) => v,
            None => return None,
        };
        let total = match rx.checked_add(tx) {
            Some(v) => v,
            None => return None,
        };
        total.checked_mul(fs)
    }

    pub open spec fn wf(&self) -> bool {
        &&& self.frame_allocator.wf()
        &&& self.fq.wf()
        &&& self.cq.wf()
        &&& self.cq.peeked() == 0
    }

    /// Creates the UMEM of a queue for `cfg`: a pool of
    /// `(rx_size + tx_size) × socks_per_queue` frames, a fill queue of
    /// `rx_size × socks_per_queue` slots primed with the first frames, and a
    /// completion queue of `tx_size × socks_per_queue` slots.
    ///
    /// Fails with `XskUmemCreateFailed(EINVAL)` when a ring size or the frame
    /// size is not a power of two or a ring would be too large, and with
    /// `FrameAllocatorAllocationFailed(ENOMEM)` when the area does not fit in
    /// memory addresses.
    pub fn new(cfg: &Configuration) -> (r: Result<Umem>)
        ensures
            match r {
                Ok(u) => {
                    let rx = cfg.rx_size * cfg.socks_per_queue;
                    let tx = cfg.tx_size * cfg.socks_per_queue;
                    &&& u.wf()
                    &&& u.needs_wakeup == cfg.needs_wakeup
                    &&& u.fq.size == rx
                    &&& u.cq.size == tx
                    &&& u.frame_allocator.frame_size == cfg.frame_size
                    &&& u.fq.submitted() == rx
                    &&& forall|i: int| 0 <= i < rx ==> #[trigger] u.fq.ring@[i] == (i * cfg.frame_size) as u64
                    &&& u.frame_allocator.free_frames() == initial_free_list(
                        (rx + tx) as nat,
                        cfg.frame_size as nat,
                    ).subrange(0, tx)
                },
                Err(e) => e == Error::XskUmemCreateFailed(EINVAL) || e
                    == Error::FrameAllocatorAllocationFailed(ENOMEM),
            },
            r is Ok <==> umem_config_ok(*cfg),
            r == Err::<Umem, Error>(Error::XskUmemCreateFailed(EINVAL)) <==> (ring_frames_fit(*cfg)
                && !ring_sizes_ok(*cfg)),
    {
        let rx_size = match cfg.rx_size.checked_mul(cfg.socks_per_queue) {
            Some(n) => n,
            None => return Err(Error::FrameAllocatorAllocationFailed(ENOMEM)),
        };
        let tx_size = match cfg.tx_size.checked_mul(cfg.socks_per_queue) {
            Some(n) => n,
            None => return Err(Error::FrameAllocatorAllocationFailed(ENOMEM)),
        };
        if !is_power_of_two(rx_size) || !is_power_of_two(tx_size) || rx_size > MAX_RING_SIZE as usize
            || tx_size > MAX_RING_SIZE as usize || !is_power_of_two(cfg.frame_size) {
            return Err(Error::XskUmemCreateFailed(EINVAL));
        }
        let total = match rx_size.checked_add(tx_size) {
            Some(n) => n,
            None => {
                proof {
                    let fs = cfg.frame_size as int;
                    assert(fs > 0);
                    assert((rx_size + tx_size) * fs >= rx_size + tx_size) by (nonlinear_arith)
                        requires
                            fs > 0,
                            rx_size + tx_size >= 0,
                    ;
                }
                return Err(Error::FrameAllocatorAllocationFailed(ENOMEM));
            },
        };
        let mut frame_allocator = FrameAllocator::new(total, cfg.frame_size)?;
        let mut fq: ProdRing<u64> = ProdRing::new(rx_size as u32, 0);
        let cq: ConsRing<u64> = ConsRing::new(tx_size as u32, 0);
        let mut rx_idx: u32 = 0;
        let n = fq.reserve(rx_size, &mut rx_idx);
        if n != rx_size {
            return Err(Error::XskFqRingProdReserveFailed);
        }
        let ghost init = frame_allocator.free_frames();
        let mut i: usize = 0;
        while i < rx_size
            invariant
                i <= rx_size,
                rx_size <= MAX_RING_SIZE,
                rx_size + tx_size == total,
                frame_allocator.wf(),
                frame_allocator.frame_size == cfg.frame_size,
                init == initial_free_list(total as nat, cfg.frame_size as nat),
                frame_allocator.free_frames() == init.subrange(0, total - i),
                fq.wf(),
                fq.size == rx_size,
                fq.producer == 0,
                fq.consumer == 0,
                fq.cached_prod == rx_size,
                forall|j: int| 0 <= j < i ==> #[trigger] fq.ring@[j] == (j * cfg.frame_size) as u64,
            decreases rx_size - i,
        {
            let addr = frame_allocator.alloc_frame();
            proof {
                assert(init.subrange(0, total - i).last() == init[total - i - 1]);
            }
            let addr = addr.unwrap();
            proof {
                vstd::arithmetic::div_mod::lemma_small_mod(i as nat, rx_size as nat);
            }
            fq.fill_addr(i as u32, addr);
            proof {
                assert(init.subrange(0, total - i).drop_last() =~= init.subrange(0, total - i - 1));
                vstd::arithmetic::div_mod::lemma_small_mod(i as nat, rx_size as nat);
            }
            i = i + 1;
        }
        fq.submit(rx_size);
        Ok(Umem { frame_allocator, fq, cq, needs_wakeup: cfg.needs_wakeup })
    }

    /// Gives the frames of `num_bufs` descriptors just peeked from an RX
    /// ring, from counter `idx_rx` on, back to the fill queue.
    ///
    /// With nothing received, asks for a poll when wakeups are on and the
    /// fill queue is flagged. Otherwise, when the fill queue has at least
    /// `BATCH_SIZE` free slots, reserves `num_bufs` slots, writes the frame
    /// offsets and submits them; when the reservation fails, asks to retry, after a poll when wakeups
    /// are on and the fill queue is flagged.
    pub fn reclaim_fq_bufs(&mut self, rx: &ConsRing<XdpDesc>, idx_rx: u32, num_bufs: usize) -> (r:
        FqStatus)
        requires
            old(self).wf(),
            rx.wf(),
        ensures
            final(self).wf(),
            final(self).frame_allocator == old(self).frame_allocator,
            final(self).cq == old(self).cq,
            final(self).needs_wakeup == old(self).needs_wakeup,
            r == FqStatus::NeedsPoll ==> num_bufs == 0,
            final(self).fq.consumer == old(self).fq.consumer,
            final(self).fq.size == old(self).fq.size,
            final(self).fq.flags == old(self).fq.flags,
            num_bufs == 0 ==> *final(self) == *old(self) && r == (if old(self).needs_wakeup.value
                && old(self).fq.flags % 2 == 1 {
                FqStatus::NeedsPoll
            } else {
                FqStatus::Done
            }),
            r matches FqStatus::Retry { poll } ==> (num_bufs > old(self).fq.free_slots() && poll == (
            old(self).needs_wakeup.value && old(self).fq.flags % 2 == 1)),
            num_bufs > 0 && num_bufs <= old(self).fq.free_slots() && BATCH_SIZE <= old(self).fq.free_slots() ==> r == FqStatus::Done && fq_refilled(
                old(self).fq,
                final(self).fq,
                *rx,
                idx_rx,
                num_bufs as int,
            ),
            num_bufs > 0 && old(self).fq.free_slots() < BATCH_SIZE ==> r == FqStatus::Done
                && final(self).fq.producer == old(self).fq.producer && final(self).fq.cached_prod
                == old(self).fq.cached_prod && final(self).fq.ring == old(self).fq.ring,
            final(self).fq.submitted() == old(self).fq.submitted() || final(self).fq.submitted()
                == old(self).fq.submitted() + num_bufs,
    {
        if num_bufs == 0 {
            if self.needs_wakeup.value && self.fq.needs_wakeup() {
                return FqStatus::NeedsPoll;
            }
            return FqStatus::Done;
        }
        let ghost before = self.fq;
        if self.fq.free(BATCH_SIZE as u32) >= BATCH_SIZE as u32 {
            let mut idx_fq: u32 = 0;
            let ret = self.fq.reserve(num_bufs, &mut idx_fq);
            if ret != num_bufs {
                return FqStatus::Retry { poll: self.needs_wakeup.value && self.fq.needs_wakeup() };
            }
            let mut i: usize = 0;
            while i < num_bufs
                invariant
                    i <= num_bufs,
                    self.fq.wf(),
                    self.fq.producer == before.producer,
                    self.fq.consumer == before.consumer,
                    self.fq.cached_prod == advance(before.cached_prod, num_bufs as int),
                    self.fq.size == before.size,
                    self.fq.flags == before.flags,
                    num_bufs <= before.size,
                    before.size <= MAX_RING_SIZE,
                    idx_fq == before.cached_prod,
                    forall|j: int|
                        0 <= j < i ==> #[trigger] self.fq.ring@[self.fq.slot(advance(idx_fq, j))]
                            == rx.ring@[rx.slot(advance(idx_rx, j))].addr,
                    self.frame_allocator == old(self).frame_allocator,
                    self.cq == old(self).cq,
                    self.needs_wakeup == old(self).needs_wakeup,
                    rx.wf(),
                decreases num_bufs - i,
            {
                let d = rx.get_desc(idx_rx.wrapping_add(i as u32));
                let ghost prev = self.fq;
                self.fq.fill_addr(idx_fq.wrapping_add(i as u32), d.addr);
                proof {
                    assert forall|j: int| 0 <= j <= i implies #[trigger] self.fq.ring@[self.fq.slot(
                        advance(idx_fq, j),
                    )] == rx.ring@[rx.slot(advance(idx_rx, j))].addr by {
                        if j < i {
                            assert(prev.ring@[prev.slot(advance(idx_fq, j))] == rx.ring@[rx.slot(
                                advance(idx_rx, j),
                            )].addr);
                            lemma_slots_distinct(idx_fq, self.fq.size, j, i as int);
                        }
                    }
                }
                i = i + 1;
            }
            let ghost filled = self.fq;
            self.fq.submit(num_bufs);
            proof {
                assert forall|j: int| 0 <= j < num_bufs implies #[trigger] self.fq.ring@[self.fq.slot(
                    advance(old(self).fq.cached_prod, j),
                )] == rx.ring@[rx.slot(advance(idx_rx, j))].addr by {
                    assert(filled.ring@[filled.slot(advance(idx_fq, j))] == rx.ring@[rx.slot(
                        advance(idx_rx, j),
                    )].addr);
                }
            }
        }
        FqStatus::Done
    }

    /// Takes up to `num_bufs` completed TX frames from the completion queue
    /// and hands the slots back; returns how many.
    pub fn reclaim_cq_bufs(&mut self, num_bufs: usize) -> (r: usize)
        requires
            old(self).wf(),
            old(self).cq.peeked() == 0,
        ensures
            final(self).wf(),
            final(self).cq.peeked() == 0,
            r == (if num_bufs <= old(self).cq.available() { num_bufs as int } else { old(self).cq.available() }),
            final(self).cq.consumer == advance(old(self).cq.consumer, r as int),
            final(self).cq.producer == old(self).cq.producer,
            final(self).fq == old(self).fq,
            final(self).frame_allocator == old(self).frame_allocator,
            final(self).needs_wakeup == old(self).needs_wakeup,
    {
        let mut tx_idx: u32 = 0;
        let completed = self.cq.peek(num_bufs, &mut tx_idx);
        if completed > 0 {
            self.cq.release(completed);
        }
        completed
    }

    /// Copies `len` bytes of the frame at offset `addr`, if they lie inside
    /// the area.
    pub fn read_frame(&self, addr: u64, len: usize) -> (r: Option<Vec<u8>>)
        requires
            self.wf(),
        ensures
            addr + len <= self.frame_allocator.buffer@.len() ==> (r matches Some(v) && v@
                == self.frame_allocator.buffer@.subrange(addr as int, addr + len)),
            addr + len > self.frame_allocator.buffer@.len() ==> r is None,
    {
        let n = self.frame_allocator.buffer.len();
        if addr > n as u64 || len > n - addr as usize {
            return None;
        }
        Some(copy_range(self.frame_allocator.buffer.as_slice(), addr as usize, len))
    }

    /// Writes `bytes` into the area from offset `addr`.
    pub fn write_frame(&mut self, addr: u64, bytes: &[u8])
        requires
            old(self).wf(),
            addr + bytes@.len() <= old(self).frame_allocator.buffer@.len(),
        ensures
            final(self).wf(),
            final(self).frame_allocator.buffer@ == overwrite(
                old(self).frame_allocator.buffer@,
                addr as int,
                bytes@,
            ),
            final(self).frame_allocator.frame_addr == old(self).frame_allocator.frame_addr,
            final(self).frame_allocator.frame_size == old(self).frame_allocator.frame_size,
            final(self).frame_allocator.num_frames == old(self).frame_allocator.num_frames,
            final(self).fq == old(self).fq,
            final(self).cq == old(self).cq,
            final(self).needs_wakeup == old(self).needs_wakeup,
    {
        let _n = self.frame_allocator.buffer.len();
        write_range(&mut self.frame_allocator.buffer, addr as usize, bytes);
        proof {
            let fa = self.frame_allocator;
            assert forall|i: int| 0 <= i < fa.frame_addr@.len() implies #[trigger] fa.frame_addr@[i]
                + fa.frame_size <= fa.buffer@.len() by {
                assert(old(self).frame_allocator.frame_addr@[i] + fa.frame_size <= old(self).frame_allocator.buffer@.len());
            }
        }
    }
}

} // verus!
