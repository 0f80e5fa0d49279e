use vstd::prelude::*;

use crate::xsk::configuration::{
    Configuration, NeedsWakeup, XDP_FLAGS_UPDATE_IF_NOEXIST, XDP_USE_NEED_WAKEUP,
};
use crate::xsk::desc::Desc;
use crate::xsk::frame_allocator::ENOMEM;
use crate::xsk::ring::{
    lemma_advance_mod,
    advance, is_pow2, is_power_of_two, ConsRing, ProdRing, XdpDesc, MAX_RING_SIZE,
};
use crate::net::app::App;
use crate::net::stack::{rx_step, Net};
use crate::xsk::umem::{fq_refilled, FqStatus, Umem, EINVAL};
use crate::xsk::BATCH_SIZE;
use crate::xsk::{Error, Result};

verus! {

/// No buffer space available.
pub const ENOBUFS: i32 = 105;

/// Resource temporarily unavailable.
pub const EAGAIN: i32 = 11;

/// Device or resource busy.
pub const EBUSY: i32 = 16;

/// Network is down.
pub const ENETDOWN: i32 = 100;

/// The slot after `c` in a ring of `n` slots.
pub open spec fn next_slot(c: int, n: int) -> int {
    if c + 1 == n {
        0
    } else {
        c + 1
    }
}

/// The slot `k` places after `c` in a ring of `n` slots.
pub open spec fn slot_after(c: int, n: int, k: nat) -> int
    decreases k,
{
    if k == 0 {
        c
    } else {
        next_slot(slot_after(c, n, (k - 1) as nat), n)
    }
}

/// Stepping `k` slots from `c` lands on `(c + k) mod n`.
pub proof fn lemma_slot_after(c: int, n: int, k: nat)
    requires
        0 <= c < n,
    ensures
        slot_after(c, n, k) == (c + k) % n,
    decreases k,
{
    if k == 0 {
        vstd::arithmetic::div_mod::lemma_small_mod(c as nat, n as nat);
    } else {
        lemma_slot_after(c, n, (k - 1) as nat);
        let x = c + k - 1;
        let p = x % n;
        vstd::arithmetic::div_mod::lemma_mod_bound(x, n);
        vstd::arithmetic::div_mod::lemma_add_mod_noop(x, 1, n);
        vstd::arithmetic::div_mod::lemma_add_mod_noop_right(p, 1, n);
        if p + 1 == n {
            vstd::arithmetic::div_mod::lemma_mod_self_0(n);
        } else {
            vstd::arithmetic::div_mod::lemma_small_mod((p + 1) as nat, n as nat);
        }
    }
}

/// Slots from `cur` on, at most `limit` of them, that are ready, stopping
/// at the first that is not.
pub open spec fn ready_run(ready: Seq<bool>, cur: int, limit: nat) -> nat
    decreases limit,
{
    if limit == 0 || !ready[cur] {
        0
    } else {
        1 + ready_run(ready, next_slot(cur, ready.len() as int), (limit - 1) as nat)
    }
}

/// `ready` with the `k` slots from `cur` on (around the ring) cleared.
pub open spec fn clear_run(ready: Seq<bool>, cur: int, k: nat) -> Seq<bool>
    decreases k,
{
    if k == 0 {
        ready
    } else {
        clear_run(ready, cur, (k - 1) as nat).update(
            slot_after(cur, ready.len() as int, (k - 1) as nat),
            false,
        )
    }
}

/// An errno of `sendto` that only says the kernel is busy; the next
/// transmit tries again.
pub open spec fn is_transient_sendto_errno(errno: i32) -> bool {
    errno == ENOBUFS || errno == EAGAIN || errno == EBUSY || errno == ENETDOWN
}

/// The RX half of a socket: its RX ring, its fd and the read end of the
/// shutdown pipe, which a poll watches together.
pub struct RxSocket {
    pub rx: ConsRing<XdpDesc>,
    pub fd: i32,
    pub pipe_reader_fd: i32,
}

/// The TX half of a socket.
///
/// Each TX slot is bound to one frame for good. The application may finish
/// the slots it holds in any order; `ready_for_tx_slots` records which are
/// finished and `current_tx_slot` is the oldest slot not yet submitted, so
/// that slots reach the kernel in ring order. `sendto_requests` counts the
/// `sendto` calls the kernel is owed.
pub struct TxSocket {
    pub tx: ProdRing<XdpDesc>,
    pub fd: i32,
    pub needs_wakeup: NeedsWakeup,
    pub current_tx_slot: usize,
    pub ready_for_tx_slots: Vec<bool>,
    pub frame_size: usize,
    pub sendto_requests: usize,
}

/// One socket bound to an interface queue, before its halves are taken.
pub struct Socket {
    pub fd: i32,
    pub rx_socket: Option<RxSocket>,
    pub tx_socket: Option<TxSocket>,
}

/// The errors among `results`, in order.
pub open spec fn errors_of(results: Seq<crate::net::Result<()>>) -> Seq<crate::net::Error>
    decreases results.len(),
{
    if results.len() == 0 {
        Seq::empty()
    } else {
        errors_of(results.drop_last()) + match results.last() {
            Err(e) => seq![e],
            Ok(_) => Seq::empty(),
        }
    }
}

/// `nets` and `umems` are the states of a stack and its UMEM as the `n`
/// descriptors of `ring` from counter `idx_rx` were received one after the
/// other, in ring order, with `results` the results (see [`rx_step`]).
pub open spec fn rx_chain<A: App>(
    nets: Seq<Net<A>>,
    umems: Seq<Umem>,
    results: Seq<crate::net::Result<()>>,
    ring: Seq<XdpDesc>,
    idx_rx: u32,
    n: int,
) -> bool {
    &&& nets.len() == n + 1
    &&& umems.len() == n + 1
    &&& results.len() == n
    &&& forall|i: int|
        0 <= i < n ==> #[trigger] rx_step(
            nets[i],
            nets[i + 1],
            umems[i],
            umems[i + 1],
            ring[advance(idx_rx, i) as int % ring.len() as int],
            results[i],
        )
}

/// `net1` and `umem1` are `net0` and `umem0` after the `n` descriptors of
/// `ring` from counter `idx_rx` were handed to the stack one by one, in
/// ring order; `errors` are the failures among them, in order.
pub open spec fn batch_handled<A: App>(
    net0: Net<A>,
    net1: Net<A>,
    umem0: Umem,
    umem1: Umem,
    ring: Seq<XdpDesc>,
    idx_rx: u32,
    n: int,
    errors: Seq<crate::net::Error>,
) -> bool {
    exists|nets: Seq<Net<A>>, umems: Seq<Umem>, results: Seq<crate::net::Result<()>>|
        {
            &&& #[trigger] rx_chain(nets, umems, results, ring, idx_rx, n)
            &&& nets[0] == net0
            &&& umems[0] == umem0
            &&& nets[n] == net1
            &&& umems[n] == umem1
            &&& errors == errors_of(results)
        }
}

/// What an RX cycle did, and what it asks of the caller.
pub enum RxStep {
    /// Nothing was received; poll the socket before waiting again if `poll`
    /// holds (the kernel asked for a wakeup of the fill queue).
    Idle { poll: bool },
    /// `rcvd` descriptors from counter `idx` were taken but the fill queue
    /// had no room for their frames: poll the socket if `poll` holds, then
    /// finish the batch with [`RxSocket::finish_rx_batch`].
    Retry { idx: u32, rcvd: usize, poll: bool },
    /// `rcvd` packets were handled and released; `errors` are those the
    /// packets that failed gave, in order.
    Done { rcvd: usize, errors: Vec<crate::net::Error> },
}

impl RxSocket {
    /// The RX ring is consistent and no batch is half done.
    pub open spec fn wf(&self) -> bool {
        &&& self.rx.wf()
        &&& self.rx.peeked() == 0
    }

    /// One RX cycle after the socket polled readable: takes up to
    /// `BATCH_SIZE` received descriptors, gives their frames back to the
    /// fill queue, hands each packet to `net` in ring order and releases
    /// them.
    pub fn run_rx_loop<A: App>(&mut self, umem: &mut Umem, net: &mut Net<A>) -> (r: RxStep)
        requires
            old(self).wf(),
            old(net).netstack.wf_with(*old(umem)),
        ensures
            final(net).netstack.wf_with(*final(umem)),
            final(self).fd == old(self).fd,
            final(self).pipe_reader_fd == old(self).pipe_reader_fd,
            final(self).rx.wf(),
            final(self).rx.size == old(self).rx.size,
            final(self).rx.producer == old(self).rx.producer,
            match r {
                RxStep::Retry { idx, rcvd, poll } => 0 < rcvd <= BATCH_SIZE && final(self).rx.peeked() == rcvd
                    && idx == old(self).rx.cached_cons,
                RxStep::Done { rcvd, errors } => {
                    &&& 0 < rcvd <= BATCH_SIZE
                    &&& final(self).rx.peeked() == 0
                    &&& final(self).rx.consumer == advance(old(self).rx.consumer, rcvd as int)
                    &&& batch_handled(
                        *old(net),
                        *final(net),
                        Umem { fq: final(umem).fq, ..*old(umem) },
                        *final(umem),
                        old(self).rx.ring@,
                        old(self).rx.cached_cons,
                        rcvd as int,
                        errors@,
                    )
                },
                RxStep::Idle { poll } => final(self).rx.peeked() == 0 && final(self).rx.consumer
                    == old(self).rx.consumer,
            },
            ({
                let n = if BATCH_SIZE <= old(self).rx.available() {
                    BATCH_SIZE as int
                } else {
                    old(self).rx.available()
                };
                &&& r is Idle <==> n == 0
                &&& r matches RxStep::Done { rcvd, .. } ==> rcvd == n
                &&& r matches RxStep::Retry { rcvd, .. } ==> rcvd == n && n > old(umem).fq.free_slots()
                &&& 0 < n && old(umem).fq.free_slots() < BATCH_SIZE ==> r is Done && final(umem).fq.producer == old(umem).fq.producer
                &&& 0 < n && BATCH_SIZE <= old(umem).fq.free_slots() ==> r is Done && fq_refilled(
                    old(umem).fq,
                    final(umem).fq,
                    old(self).rx,
                    old(self).rx.cached_cons,
                    n,
                )
            }),
    {
        let mut idx_rx: u32 = 0;
        let rcvd = self.rx.peek(BATCH_SIZE, &mut idx_rx);
        self.finish_rx_batch(umem, net, idx_rx, rcvd)
    }

    /// Finishes a batch of `rcvd` descriptors peeked from counter `idx_rx`:
    /// gives their frames back to the fill queue, then hands each packet to
    /// `net` in ring order and releases them. Asks to retry when the fill
    /// queue has no room.
    pub fn finish_rx_batch<A: App>(
        &mut self,
        umem: &mut Umem,
        net: &mut Net<A>,
        idx_rx: u32,
        rcvd: usize,
    ) -> (r: RxStep)
        requires
            old(self).rx.wf(),
            old(self).rx.peeked() == rcvd,
            rcvd <= BATCH_SIZE,
            old(net).netstack.wf_with(*old(umem)),
        ensures
            final(net).netstack.wf_with(*final(umem)),
            final(self).fd == old(self).fd,
            final(self).pipe_reader_fd == old(self).pipe_reader_fd,
            final(self).rx.wf(),
            final(self).rx.size == old(self).rx.size,
            final(self).rx.producer == old(self).rx.producer,
            match r {
                RxStep::Retry { idx, rcvd: n, poll } => 0 < rcvd && n == rcvd && idx == idx_rx
                    && *final(self) == *old(self),
                RxStep::Done { rcvd: n, errors } => {
                    &&& 0 < rcvd && n == rcvd
                    &&& final(self).rx.peeked() == 0
                    &&& final(self).rx.consumer == advance(old(self).rx.consumer, rcvd as int)
                    &&& batch_handled(
                        *old(net),
                        *final(net),
                        Umem { fq: final(umem).fq, ..*old(umem) },
                        *final(umem),
                        old(self).rx.ring@,
                        idx_rx,
                        rcvd as int,
                        errors@,
                    )
                },
                RxStep::Idle { poll } => rcvd == 0 && *final(self) == *old(self),
            },
            rcvd == 0 ==> r is Idle,
            r is Retry ==> rcvd > old(umem).fq.free_slots(),
            0 < rcvd && old(umem).fq.free_slots() < BATCH_SIZE ==> r is Done && final(umem).fq.producer == old(umem).fq.producer,
            0 < rcvd && BATCH_SIZE <= old(umem).fq.free_slots() ==> r is Done && fq_refilled(
                old(umem).fq,
                final(umem).fq,
                old(self).rx,
                idx_rx,
                rcvd as int,
            ),
    {
        let ghost fq0 = umem.fq;
        match umem.reclaim_fq_bufs(&self.rx, idx_rx, rcvd) {
            FqStatus::NeedsPoll => return RxStep::Idle { poll: true },
            FqStatus::Retry { poll } => return RxStep::Retry { idx: idx_rx, rcvd, poll },
            FqStatus::Done => {},
        }
        if rcvd == 0 {
            return RxStep::Idle { poll: false };
        }
        let ghost fq1 = umem.fq;
        let ghost u0 = *umem;
        let ghost mut nets: Seq<Net<A>> = seq![*net];
        let ghost mut umems: Seq<Umem> = seq![*umem];
        let ghost mut results: Seq<crate::net::Result<()>> = Seq::empty();
        let mut errors: Vec<crate::net::Error> = Vec::new();
        let mut i: usize = 0;
        while i < rcvd
            invariant
                i <= rcvd,
                rcvd <= BATCH_SIZE,
                umem.fq == fq1,
                u0 == (Umem { fq: fq1, ..*old(umem) }),
                rx_chain(nets, umems, results, old(self).rx.ring@, idx_rx, i as int),
                nets[0] == *old(net),
                umems[0] == u0,
                nets.last() == *net,
                umems.last() == *umem,
                errors@ == errors_of(results),
                self.rx == old(self).rx,
                self.rx.wf(),
                self.fd == old(self).fd,
                self.pipe_reader_fd == old(self).pipe_reader_fd,
                net.netstack.wf_with(*umem),
            decreases rcvd - i,
        {
            let desc = self.rx.get_desc(idx_rx.wrapping_add(i as u32));
            let r = net.do_rx_packet(umem, desc);
            proof {
                let nets0 = nets;
                let umems0 = umems;
                let results0 = results;
                nets = nets.push(*net);
                umems = umems.push(*umem);
                results = results.push(r);
                assert(results.drop_last() =~= results0);
                assert forall|j: int| 0 <= j < i + 1 implies #[trigger] rx_step(
                    nets[j],
                    nets[j + 1],
                    umems[j],
                    umems[j + 1],
                    old(self).rx.ring@[advance(idx_rx, j) as int % old(self).rx.ring@.len() as int],
                    results[j],
                ) by {
                    if j < i {
                        assert(nets[j] == nets0[j] && nets[j + 1] == nets0[j + 1]);
                        assert(umems[j] == umems0[j] && umems[j + 1] == umems0[j + 1]);
                        assert(results[j] == results0[j]);
                    }
                }
            }
            match r {
                Ok(_) => {},
                Err(e) => errors.push(e),
            }
            i = i + 1;
        }
        self.rx.release(rcvd);
        proof {
            assert(rx_chain(nets, umems, results, old(self).rx.ring@, idx_rx, rcvd as int));
        }
        RxStep::Done { rcvd, errors }
    }
}

impl TxSocket {
    pub open spec fn wf(&self) -> bool {
        &&& self.tx.wf()
        &&& self.ready_for_tx_slots@.len() == self.tx.size
        &&& self.current_tx_slot < self.tx.size
        &&& self.current_tx_slot == self.tx.producer as int % self.tx.size as int
    }

    /// `new` is `old` after one more slot was taken: only the reservation
    /// point moved.
    pub open spec fn took_slot(old: TxSocket, new: TxSocket) -> bool {
        &&& new.tx.ring == old.tx.ring
        &&& new.tx.producer == old.tx.producer
        &&& new.tx.consumer == old.tx.consumer
        &&& new.tx.size == old.tx.size
        &&& new.tx.flags == old.tx.flags
        &&& new.tx.cached_prod == advance(old.tx.cached_prod, 1)
        &&& new.ready_for_tx_slots == old.ready_for_tx_slots
        &&& new.current_tx_slot == old.current_tx_slot
        &&& new.sendto_requests == old.sendto_requests
        &&& new.needs_wakeup == old.needs_wakeup
        &&& new.frame_size == old.frame_size
        &&& new.fd == old.fd
    }

    /// The number of slots that handing slot `index` to [`TxSocket::tx`]
    /// submits when `pending` slots are taken and unsubmitted.
    pub open spec fn run_after(old: TxSocket, index: int, pending: int) -> int {
        ready_run(
            old.ready_for_tx_slots@.update(index, true),
            old.current_tx_slot as int,
            pending as nat,
        ) as int
    }

    /// `new` is `old` after slot `index` was finished with `len` bytes and
    /// handed to [`TxSocket::tx`], which submitted `r` slots: the finished
    /// slots from the oldest unsubmitted one on, stopping at the first
    /// unfinished, in ring order. A `sendto` is recorded whenever wakeups are
    /// off or the TX ring is flagged, whatever was submitted. `pending` is
    /// the number of slots taken and not yet submitted.
    pub open spec fn transmitted(
        old: TxSocket,
        new: TxSocket,
        index: int,
        len: u32,
        pending: int,
        r: int,
    ) -> bool {
        let ready = old.ready_for_tx_slots@.update(index, true);
        let cur = old.current_tx_slot as int;
        &&& r == ready_run(ready, cur, pending as nat)
        &&& new.ready_for_tx_slots@ == clear_run(ready, cur, r as nat)
        &&& new.current_tx_slot == slot_after(cur, old.tx.size as int, r as nat)
        &&& new.tx.ring@ == old.tx.ring@.update(index, XdpDesc { len, ..old.tx.ring@[index] })
        &&& new.tx.producer == advance(old.tx.producer, r)
        &&& new.tx.submitted() == old.tx.submitted() + r
        &&& new.tx.consumer == old.tx.consumer
        &&& new.tx.size == old.tx.size
        &&& new.tx.flags == old.tx.flags
        &&& new.sendto_requests == (if (!old.needs_wakeup.value || old.tx.flags % 2 == 1)
            && old.sendto_requests < usize::MAX {
            old.sendto_requests + 1
        } else {
            old.sendto_requests as int
        })
        &&& new.needs_wakeup == old.needs_wakeup
        &&& new.frame_size == old.frame_size
        &&& new.fd == old.fd
    }

    /// Takes the next TX slot. Fails with `XskTxRingProdReserveFailed`
    /// when every slot is held by the application or the kernel.
    pub fn next_tx_slot(&mut self) -> (r: Result<Desc>)
        requires
            old(self).wf(),
        ensures
            final(self).wf(),
            final(self).tx.ring == old(self).tx.ring,
            final(self).tx.producer == old(self).tx.producer,
            final(self).tx.consumer == old(self).tx.consumer,
            final(self).tx.size == old(self).tx.size,
            final(self).ready_for_tx_slots == old(self).ready_for_tx_slots,
            final(self).current_tx_slot == old(self).current_tx_slot,
            final(self).needs_wakeup == old(self).needs_wakeup,
            final(self).frame_size == old(self).frame_size,
            final(self).fd == old(self).fd,
            final(self).sendto_requests == old(self).sendto_requests,
            final(self).tx.flags == old(self).tx.flags,
            r is Ok ==> final(self).tx.cached_prod == advance(old(self).tx.cached_prod, 1),
            r is Ok <==> old(self).tx.free_slots() >= 1,
            r matches Ok(d) ==> {
                &&& d.index == old(self).tx.slot(old(self).tx.cached_prod)
                &&& d.addr == old(self).tx.ring@[d.index as int].addr
                &&& d.len == old(self).tx.ring@[d.index as int].len
                &&& final(self).tx.pending() == old(self).tx.pending() + 1
            },
            r matches Err(e) ==> e == Error::XskTxRingProdReserveFailed && *final(self) == *old(
                self),
    {
        let mut tx_idx: u32 = 0;
        if self.tx.reserve(1, &mut tx_idx) != 1 {
            return Err(Error::XskTxRingProdReserveFailed);
        }
        let slot = (tx_idx % self.tx.size) as usize;
        let d = self.tx.ring[slot];
        Ok(Desc::new_from_xdp_desc(d, slot))
    }

    /// Marks slot `index` ready.
    fn mark_slot_ready_for_tx(&mut self, index: usize)
        requires
            old(self).wf(),
            index < old(self).tx.size,
        ensures
            final(self).wf(),
            *final(self) == (TxSocket {
                ready_for_tx_slots: final(self).ready_for_tx_slots,
                ..*old(self)
            }),
            final(self).ready_for_tx_slots@ == old(self).ready_for_tx_slots@.update(
                index as int,
                true,
            ),
    {
        self.ready_for_tx_slots.set(index, true);
    }

    /// Counts the ready slots from the current one, at most `limit`, stops
    /// at the first that is not ready, clears those counted and moves the
    /// current slot past them.
    fn ready_for_tx_slot_counts(&mut self, limit: usize) -> (r: usize)
        requires
            old(self).wf(),
            limit <= old(self).tx.size,
        ensures
            final(self).tx.wf(),
            final(self).ready_for_tx_slots@.len() == final(self).tx.size,
            final(self).current_tx_slot < final(self).tx.size,
            r == ready_run(
                old(self).ready_for_tx_slots@,
                old(self).current_tx_slot as int,
                limit as nat,
            ),
            final(self).ready_for_tx_slots@ == clear_run(
                old(self).ready_for_tx_slots@,
                old(self).current_tx_slot as int,
                r as nat,
            ),
            r <= limit,
            final(self).current_tx_slot == slot_after(
                old(self).current_tx_slot as int,
                old(self).tx.size as int,
                r as nat,
            ),
            *final(self) == (TxSocket {
                ready_for_tx_slots: final(self).ready_for_tx_slots,
                current_tx_slot: final(self).current_tx_slot,
                ..*old(self)
            }),
    {
        let slots_count = self.ready_for_tx_slots.len();
        let ghost ready = self.ready_for_tx_slots@;
        let ghost cur0 = self.current_tx_slot as int;
        let mut count: usize = 0;
        let mut cur = self.current_tx_slot;
        while count < limit && self.ready_for_tx_slots[cur]
            invariant
                slots_count == ready.len(),
                self.ready_for_tx_slots@ == ready,
                count <= limit,
                limit <= slots_count,
                cur < slots_count,
                cur == slot_after(cur0, slots_count as int, count as nat),
                ready_run(ready, cur0, limit as nat) == count + ready_run(
                    ready,
                    cur as int,
                    (limit - count) as nat,
                ),
            decreases limit - count,
        {
            cur = if cur + 1 == slots_count { 0 } else { cur + 1 };
            count = count + 1;
        }
        let mut i: usize = 0;
        let mut pos = self.current_tx_slot;
        while i < count
            invariant
                i <= count,
                slots_count == ready.len(),
                pos < slots_count,
                pos == slot_after(cur0, slots_count as int, i as nat),
                self.ready_for_tx_slots@.len() == slots_count,
                self.ready_for_tx_slots@ == clear_run(ready, cur0, i as nat),
                self.tx == old(self).tx,
                self.current_tx_slot == old(self).current_tx_slot,
                *self == (TxSocket { ready_for_tx_slots: self.ready_for_tx_slots, ..*old(self) }),
            decreases count - i,
        {
            self.ready_for_tx_slots.set(pos, false);
            pos = if pos + 1 == slots_count { 0 } else { pos + 1 };
            i = i + 1;
        }
        self.current_tx_slot = cur;
        count
    }

    /// Marks slot `desc.index` finished, with `desc.len` bytes, and submits
    /// every finished slot from the oldest unsubmitted one on, stopping at
    /// the first unfinished: slots reach the kernel in ring order whatever
    /// the order they were finished in. Records a `sendto` request if
    /// wakeups are off or the TX ring is flagged, and reclaims as many
    /// completions as were submitted. Returns how many slots were submitted.
    pub fn tx(&mut self, umem: &mut Umem, desc: &Desc) -> (r: usize)
        requires
            old(self).wf(),
            old(umem).wf(),
            desc.index < old(self).tx.size,
        ensures
            final(self).wf(),
            final(umem).wf(),
            TxSocket::transmitted(
                *old(self),
                *final(self),
                desc.index as int,
                desc.len,
                old(self).tx.pending(),
                r as int,
            ),
            final(self).tx.cached_prod == old(self).tx.cached_prod,
            final(umem).frame_allocator == old(umem).frame_allocator,
            final(umem).fq == old(umem).fq,
            r == 0 ==> final(umem).cq == old(umem).cq,
    {
        self.tx.set_len(desc.index, desc.len);
        self.mark_slot_ready_for_tx(desc.index);
        let limit = (self.tx.cached_prod.wrapping_sub(self.tx.producer)) as usize;
        let count = self.ready_for_tx_slot_counts(limit);
        let kick = if self.needs_wakeup.value {
            self.tx.needs_wakeup()
        } else {
            true
        };
        if kick && self.sendto_requests < usize::MAX {
            self.sendto_requests = self.sendto_requests + 1;
        }
        if count == 0 {
            return 0;
        }
        let ghost p0 = self.tx.producer;
        let ghost c0 = old(self).current_tx_slot as int;
        self.tx.submit(count);
        proof {
            let n = self.tx.size as int;
            lemma_slot_after(c0, n, count as nat);
            lemma_advance_mod(p0, self.tx.size, count as int);
            vstd::arithmetic::div_mod::lemma_add_mod_noop(p0 as int, count as int, n);
            vstd::arithmetic::div_mod::lemma_add_mod_noop(c0, count as int, n);
            vstd::arithmetic::div_mod::lemma_mod_twice(p0 as int, n);
            assert(p0 == old(self).tx.producer);
            assert(c0 == p0 as int % n);
            assert(c0 % n == c0);
            assert((c0 + count) % n == (p0 + count) % n);
            assert(self.current_tx_slot == (c0 + count) % n);
            assert(self.tx.producer as int % n == (p0 + count) % n);
        }
        umem.reclaim_cq_bufs(count);
        count
    }

    /// Takes the recorded `sendto` requests, leaving none.
    pub fn take_sendto_requests(&mut self) -> (r: usize)
        ensures
            r == old(self).sendto_requests,
            *final(self) == (TxSocket { sendto_requests: 0, ..*old(self) }),
    {
        let r = self.sendto_requests;
        self.sendto_requests = 0;
        r
    }

    /// What a `sendto` that returned -1 with `errno` means: the transient
    /// errors are ignored, any other fails the transmit.
    pub fn sendto_result(errno: i32) -> (r: Result<()>)
        ensures
            r == (if is_transient_sendto_errno(errno) {
                Ok(())
            } else {
                Err(Error::XskTxSendtoFailed(errno))
            }),
    {
        if errno == ENOBUFS || errno == EAGAIN || errno == EBUSY || errno == ENETDOWN {
            Ok(())
        } else {
            Err(Error::XskTxSendtoFailed(errno))
        }
    }
}

/// One transmit round with nothing outstanding: a slot is taken and at once
/// finished and handed to [`TxSocket::tx`]. Exactly that slot is submitted,
/// and with wakeups off exactly one `sendto` is recorded.
pub proof fn lemma_tx_round(old: TxSocket, mid: TxSocket, new: TxSocket, len: u32, r: int)
    requires
        old.wf(),
        old.tx.pending() == 0,
        TxSocket::took_slot(old, mid),
        TxSocket::transmitted(mid, new, old.tx.slot(old.tx.cached_prod), len, mid.tx.pending(), r),
    ensures
        r == 1,
        new.tx.producer == advance(old.tx.producer, 1),
        new.tx.submitted() == old.tx.submitted() + 1,
        new.current_tx_slot == slot_after(old.current_tx_slot as int, old.tx.size as int, 1),
        !old.needs_wakeup.value && old.sendto_requests < usize::MAX ==> new.sendto_requests
            == old.sendto_requests + 1,
{
    assert(old.tx.cached_prod == old.tx.producer);
    assert(mid.tx.pending() == 1);
    let ready = mid.ready_for_tx_slots@.update(old.tx.slot(old.tx.cached_prod), true);
    assert(ready[mid.current_tx_slot as int]);
    reveal_with_fuel(ready_run, 2);
}

/// `tx` has its slots bound, in slot order, to the last frames of the free
/// list `frames` (as [`Socket::new`] binds them), and `rest` is what is
/// left of the list.
pub open spec fn pinned_from(tx: TxSocket, frames: Seq<u64>, rest: Seq<u64>) -> bool {
    &&& tx.tx.size <= frames.len()
    &&& tx.tx.ring@.len() == tx.tx.size
    &&& rest == frames.subrange(0, frames.len() - tx.tx.size)
    &&& forall|i: int|
        0 <= i < tx.tx.size ==> #[trigger] tx.tx.ring@[i].addr == frames[frames.len() - 1 - i]
}

/// Two sockets set up one after the other on one UMEM, from a free list
/// without repeats, own distinct frames: no frame is bound to two TX slots,
/// and every bound frame was free before.
pub proof fn lemma_sockets_share_no_frame(
    frames: Seq<u64>,
    rest: Seq<u64>,
    rest2: Seq<u64>,
    a: TxSocket,
    b: TxSocket,
)
    requires
        frames.no_duplicates(),
        pinned_from(a, frames, rest),
        pinned_from(b, rest, rest2),
    ensures
        forall|i: int, j: int|
            0 <= i < a.tx.size && 0 <= j < b.tx.size ==> #[trigger] a.tx.ring@[i].addr
                != #[trigger] b.tx.ring@[j].addr,
        forall|i: int, j: int|
            0 <= i < j < a.tx.size ==> a.tx.ring@[i].addr != a.tx.ring@[j].addr,
        forall|i: int, j: int|
            0 <= i < j < b.tx.size ==> b.tx.ring@[i].addr != b.tx.ring@[j].addr,
        forall|i: int| 0 <= i < a.tx.size ==> frames.contains(#[trigger] a.tx.ring@[i].addr),
        forall|i: int| 0 <= i < b.tx.size ==> frames.contains(#[trigger] b.tx.ring@[i].addr),
{
    let n = frames.len() as int;
    let ta = a.tx.size as int;
    assert forall|i: int, j: int|
        0 <= i < a.tx.size && 0 <= j < b.tx.size implies #[trigger] a.tx.ring@[i].addr
            != #[trigger] b.tx.ring@[j].addr by {
        assert(b.tx.ring@[j].addr == rest[rest.len() - 1 - j]);
        assert(rest[rest.len() - 1 - j] == frames[n - ta - 1 - j]);
    }
    assert forall|i: int| 0 <= i < b.tx.size implies frames.contains(#[trigger] b.tx.ring@[i].addr) by {
        assert(rest[rest.len() - 1 - i] == frames[n - ta - 1 - i]);
    }
    assert forall|i: int| 0 <= i < a.tx.size implies frames.contains(#[trigger] a.tx.ring@[i].addr) by {
        assert(frames[n - 1 - i] == a.tx.ring@[i].addr);
    }
    assert forall|i: int, j: int| 0 <= i < j < b.tx.size implies b.tx.ring@[i].addr
        != b.tx.ring@[j].addr by {
        assert(rest[rest.len() - 1 - i] == frames[n - ta - 1 - i]);
        assert(rest[rest.len() - 1 - j] == frames[n - ta - 1 - j]);
    }
}

impl Socket {
    /// The XDP attach flags for `cfg`: attach only if no program is
    /// attached, in the mode's hook.
    pub fn xdp_flags(cfg: &Configuration) -> (r: u32)
        ensures
            r == XDP_FLAGS_UPDATE_IF_NOEXIST + cfg.mode.spec_xdp_flags(),
    {
        XDP_FLAGS_UPDATE_IF_NOEXIST + cfg.mode.into_xdp_flags()
    }

    /// The bind flags for `cfg`: need-wakeup if asked for, and copy or
    /// zero-copy by the mode.
    pub fn bind_flags(cfg: &Configuration) -> (r: u16)
        ensures
            r == (if cfg.needs_wakeup.value { XDP_USE_NEED_WAKEUP } else { 0 })
                + cfg.mode.spec_bind_flags(),
    {
        cfg.needs_wakeup.into_bind_flags() + cfg.mode.into_bind_flags()
    }

    /// Sets up the rings of a socket bound with fd `fd` on a queue of
    /// `umem`: an RX ring of `cfg.rx_size` slots and a TX ring of
    /// `cfg.tx_size` slots, each TX slot bound for good to a frame taken from
    /// the pool, in slot order.
    ///
    /// Fails with `XskSocketCreateFailed(EINVAL)` when a ring size is not a
    /// power of two or too large, and with
    /// `FrameAllocatorAllocationFailed(ENOMEM)` when the pool has fewer free
    /// frames than TX slots.
    pub fn new(cfg: &Configuration, umem: &mut Umem, fd: i32, pipe_reader_fd: i32) -> (r: Result<
        Socket,
    >)
        requires
            old(umem).wf(),
        ensures
            final(umem).wf(),
            final(umem).fq == old(umem).fq,
            final(umem).cq == old(umem).cq,
            final(umem).needs_wakeup == old(umem).needs_wakeup,
            final(umem).frame_allocator.buffer == old(umem).frame_allocator.buffer,
            final(umem).frame_allocator.frame_size == old(umem).frame_allocator.frame_size,
            match r {
                Ok(s) => {
                    let frames = old(umem).frame_allocator.free_frames();
                    &&& s.fd == fd
                    &&& s.rx_socket matches Some(rx) && rx.wf() && rx.rx.size == cfg.rx_size
                        && rx.fd == fd && rx.pipe_reader_fd == pipe_reader_fd
                    &&& s.tx_socket matches Some(tx) && tx.wf() && tx.tx.size == cfg.tx_size
                        && tx.fd == fd && tx.needs_wakeup == cfg.needs_wakeup
                        && tx.frame_size == old(umem).frame_allocator.frame_size
                        && tx.current_tx_slot == 0 && tx.sendto_requests == 0
                        && tx.tx.free_slots() == cfg.tx_size
                        && (forall|i: int| 0 <= i < cfg.tx_size ==> !#[trigger] tx.ready_for_tx_slots@[i])
                        && (forall|i: int|
                        0 <= i < cfg.tx_size ==> #[trigger] tx.tx.ring@[i].addr == frames[frames.len() - 1 - i])
                    &&& cfg.tx_size <= frames.len()
                    &&& final(umem).frame_allocator.free_frames() == frames.subrange(
                        0,
                        frames.len() - cfg.tx_size,
                    )
                    &&& s.tx_socket matches Some(tx) && pinned_from(
                        tx,
                        frames,
                        final(umem).frame_allocator.free_frames(),
                    )
                    &&& frames.no_duplicates()
                },
                Err(e) => {
                    &&& e == Error::XskSocketCreateFailed(EINVAL) || e
                        == Error::FrameAllocatorAllocationFailed(ENOMEM)
                    &&& *final(umem) == *old(umem)
                },
            },
            !(is_pow2(cfg.rx_size as int) && is_pow2(cfg.tx_size as int) && cfg.rx_size
                <= MAX_RING_SIZE && cfg.tx_size <= MAX_RING_SIZE) ==> r == Err::<Socket, Error>(
                Error::XskSocketCreateFailed(EINVAL),
            ),
            (is_pow2(cfg.rx_size as int) && is_pow2(cfg.tx_size as int) && cfg.rx_size
                <= MAX_RING_SIZE && cfg.tx_size <= MAX_RING_SIZE) && cfg.tx_size > old(
                umem).frame_allocator.free_frames().len() ==> r == Err::<Socket, Error>(
                Error::FrameAllocatorAllocationFailed(ENOMEM),
            ),
            r is Ok <==> (is_pow2(cfg.rx_size as int) && is_pow2(cfg.tx_size as int) && cfg.rx_size
                <= MAX_RING_SIZE && cfg.tx_size <= MAX_RING_SIZE && cfg.tx_size <= old(
                umem).frame_allocator.free_frames().len()),
    {
        if !is_power_of_two(cfg.rx_size) || !is_power_of_two(cfg.tx_size) || cfg.rx_size
            > MAX_RING_SIZE as usize || cfg.tx_size > MAX_RING_SIZE as usize {
            return Err(Error::XskSocketCreateFailed(EINVAL));
        }
        if cfg.tx_size > umem.frame_allocator.frame_addr.len() {
            return Err(Error::FrameAllocatorAllocationFailed(ENOMEM));
        }
        let rx: ConsRing<XdpDesc> = ConsRing::new(
            cfg.rx_size as u32,
            XdpDesc { addr: 0, len: 0, options: 0 },
        );
        let mut tx: ProdRing<XdpDesc> = ProdRing::new(
            cfg.tx_size as u32,
            XdpDesc { addr: 0, len: 0, options: 0 },
        );
        let ghost frames = umem.frame_allocator.free_frames();
        let mut i: usize = 0;
        while i < cfg.tx_size
            invariant
                i <= cfg.tx_size,
                cfg.tx_size <= MAX_RING_SIZE,
                cfg.tx_size <= frames.len(),
                umem.wf(),
                umem.fq == old(umem).fq,
                umem.cq == old(umem).cq,
                umem.needs_wakeup == old(umem).needs_wakeup,
                umem.frame_allocator.buffer == old(umem).frame_allocator.buffer,
                umem.frame_allocator.frame_size == old(umem).frame_allocator.frame_size,
                umem.frame_allocator.free_frames() == frames.subrange(0, frames.len() - i),
                tx.wf(),
                tx.size == cfg.tx_size,
                tx.producer == 0 && tx.consumer == 0 && tx.cached_prod == 0,
                tx.free_slots() == cfg.tx_size,
                forall|j: int| 0 <= j < i ==> #[trigger] tx.ring@[j].addr == frames[frames.len() - 1 - j],
            decreases cfg.tx_size - i,
        {
            let addr = umem.frame_allocator.alloc_frame();
            proof {
                assert(frames.subrange(0, frames.len() - i).last() == frames[frames.len() - i - 1]);
                assert(frames.subrange(0, frames.len() - i).drop_last() =~= frames.subrange(
                    0,
                    frames.len() - i - 1,
                ));
                vstd::arithmetic::div_mod::lemma_small_mod(i as nat, cfg.tx_size as nat);
            }
            let addr = addr.unwrap();
            tx.fill_addr(i as u32, addr);
            i = i + 1;
        }
        let ready_for_tx_slots: Vec<bool> = vec![false; cfg.tx_size];
        Ok(
            Socket {
                fd,
                rx_socket: Some(RxSocket { rx, fd, pipe_reader_fd }),
                tx_socket: Some(
                    TxSocket {
                        tx,
                        fd,
                        needs_wakeup: cfg.needs_wakeup,
                        current_tx_slot: 0,
                        ready_for_tx_slots,
                        frame_size: umem.frame_allocator.frame_size,
                        sendto_requests: 0,
                    },
                ),
            },
        )
    }

    /// Takes the RX half.
    pub fn take_rx_socket(&mut self) -> (r: Option<RxSocket>)
        ensures
            r == old(self).rx_socket,
            *final(self) == (Socket { rx_socket: None, ..*old(self) }),
    {
        self.rx_socket.take()
    }

    /// Takes the TX half.
    pub fn take_tx_socket(&mut self) -> (r: Option<TxSocket>)
        ensures
            r == old(self).tx_socket,
            *final(self) == (Socket { tx_socket: None, ..*old(self) }),
    {
        self.tx_socket.take()
    }
}

} // verus!
