use vstd::prelude::*;

verus! {

/// `a - b` on 32-bit counters that wrap around.
pub open spec fn dist(a: u32, b: u32) -> int {
    if a >= b {
        a - b
    } else {
        a - b + 0x1_0000_0000
    }
}

/// `a + n` on a 32-bit counter that wraps around.
pub open spec fn advance(a: u32, n: int) -> u32 {
    if a + n > u32::MAX {
        (a + n - 0x1_0000_0000) as u32
    } else {
        (a + n) as u32
    }
}

/// `n` is a power of two.
pub open spec fn is_pow2(n: int) -> bool
    decreases n,
{
    if n <= 0 {
        false
    } else if n == 1 {
        true
    } else {
        n % 2 == 0 && is_pow2(n / 2)
    }
}

/// Decides whether `n` is a power of two.
pub fn is_power_of_two(n: usize) -> (r: bool)
    ensures
        r == is_pow2(n as int),
{
    let mut m = n;
    while m > 1 && m % 2 == 0
        invariant
            is_pow2(n as int) == is_pow2(m as int),
        decreases m,
    {
        m = m / 2;
    }
    m == 1
}

/// A power of two divides any larger power of two.
proof fn lemma_pow2_divides(n: int, t: int)
    requires
        is_pow2(n),
        is_pow2(t),
        n <= t,
    ensures
        t % n == 0,
    decreases n,
{
    if n == 1 {
        vstd::arithmetic::div_mod::lemma_mod_multiples_basic(t, 1);
        assert(t * 1 == t);
    } else {
        let m = n / 2;
        assert(t > 1);
        assert(t % 2 == 0 && is_pow2(t / 2));
        lemma_pow2_divides(m, t / 2);
        let k = (t / 2) / m;
        vstd::arithmetic::div_mod::lemma_fundamental_div_mod(t / 2, m);
        assert(t == n * k) by (nonlinear_arith)
            requires
                t / 2 == m * k + 0,
                n == 2 * m,
                t == 2 * (t / 2),
        ;
        vstd::arithmetic::div_mod::lemma_mod_multiples_basic(k, n);
        assert(k * n == n * k) by (nonlinear_arith);
    }
}

/// The counters `c`, `c + 1`, ... `c + n - 1` (wrapping) of a ring of a
/// power-of-two size at least `n` fall in distinct slots.
pub proof fn lemma_slots_distinct(c: u32, size: u32, i: int, j: int)
    requires
        is_pow2(size as int),
        size <= MAX_RING_SIZE,
        0 <= i < j < size,
    ensures
        advance(c, i) as int % size as int != advance(c, j) as int % size as int,
{
    let t: int = 0x1_0000_0000;
    let n = size as int;
    assert(is_pow2(t)) by {
        reveal_with_fuel(is_pow2, 34);
    }
    lemma_pow2_divides(n, t);
    lemma_advance_mod(c, size, i);
    lemma_advance_mod(c, size, j);
    if (c + i) % n == (c + j) % n {
        vstd::arithmetic::div_mod::lemma_fundamental_div_mod(c + i, n);
        vstd::arithmetic::div_mod::lemma_fundamental_div_mod(c + j, n);
        let q1 = (c + i) / n;
        let q2 = (c + j) / n;
        assert(j - i == (q2 - q1) * n) by (nonlinear_arith)
            requires
                c + i == n * q1 + (c + i) % n,
                c + j == n * q2 + (c + j) % n,
                (c + i) % n == (c + j) % n,
        ;
        assert(false) by (nonlinear_arith)
            requires
                j - i == (q2 - q1) * n,
                0 < j - i < n,
        ;
    }
}

/// The slot of a wrapping counter is the slot of the unwrapped sum.
pub proof fn lemma_advance_mod(c: u32, size: u32, i: int)
    requires
        is_pow2(size as int),
        size <= MAX_RING_SIZE,
        0 <= i <= size,
    ensures
        advance(c, i) as int % size as int == (c + i) % (size as int),
{
    let t: int = 0x1_0000_0000;
    let n = size as int;
    assert(is_pow2(t)) by {
        reveal_with_fuel(is_pow2, 34);
    }
    lemma_pow2_divides(n, t);
    if c + i > u32::MAX {
        vstd::arithmetic::div_mod::lemma_fundamental_div_mod(t, n);
        let k = t / n;
        assert(c + i - t == n * (-k) + (c + i)) by (nonlinear_arith)
            requires
                t == n * k + 0,
        ;
        vstd::arithmetic::div_mod::lemma_mod_multiples_vanish(-k, c + i, n);
        assert((c + i - t) % n == (c + i) % n);
    }
}

/// Largest ring this library manages; counters then never wrap past an
/// unconsumed entry.
pub const MAX_RING_SIZE: u32 = 0x8000_0000;

/// The flag the kernel sets in a ring when it must be woken up.
pub const XDP_RING_NEED_WAKEUP: u32 = 1;

/// A descriptor in an RX or TX ring: a frame offset in the UMEM, the bytes
/// used in the frame, and reserved options.
#[derive(Debug, Clone, Copy, PartialEq, Eq)]
pub struct XdpDesc {
    pub addr: u64,
    pub len: u32,
    pub options: u32,
}

/// A ring the user produces into and the kernel consumes from (the fill
/// queue and the TX rings).
///
/// `producer`, `consumer` and `flags` are the words shared with the kernel;
/// `cached_prod` is the user's reservation point and `cached_cons` the
/// consumer position plus `size` as last read. All counters are 32-bit and
/// wrap around; an entry's slot is its counter modulo `size`.
pub struct ProdRing<T> {
    pub ring: Vec<T>,
    pub size: u32,
    pub producer: u32,
    pub consumer: u32,
    pub flags: u32,
    pub cached_prod: u32,
    pub cached_cons: u32,
}

/// A ring the kernel produces into and the user consumes from (the RX
/// rings and the completion queue).
///
/// `cached_prod` is the producer position as last read and `cached_cons`
/// the user's peek point; `consumer` is what the user has released.
pub struct ConsRing<T> {
    pub ring: Vec<T>,
    pub size: u32,
    pub producer: u32,
    pub consumer: u32,
    pub flags: u32,
    pub cached_prod: u32,
    pub cached_cons: u32,
}

impl<T: Copy> ProdRing<T> {
    /// Entries reserved by the user and not yet consumed by the kernel.
    pub open spec fn reserved(&self) -> int {
        dist(self.cached_prod, self.consumer)
    }

    /// Entries submitted and not yet consumed by the kernel.
    pub open spec fn submitted(&self) -> int {
        dist(self.producer, self.consumer)
    }

    /// Entries reserved and not yet submitted.
    pub open spec fn pending(&self) -> int {
        dist(self.cached_prod, self.producer)
    }

    /// Slots the user may still reserve.
    pub open spec fn free_slots(&self) -> int {
        self.size - self.reserved()
    }

    /// The ring's counters are consistent: what is reserved fits in the
    /// ring, what is submitted was reserved, and the cached free count
    /// never exceeds the true one, so a reservation never reaches a slot
    /// the kernel has not consumed.
    pub open spec fn wf(&self) -> bool {
        &&& is_pow2(self.size as int)
        &&& self.size <= MAX_RING_SIZE
        &&& self.ring@.len() == self.size
        &&& self.reserved() <= self.size
        &&& self.submitted() <= self.reserved()
        &&& dist(self.cached_cons, self.cached_prod) <= self.free_slots()
    }

    /// Creates an empty ring of `size` slots, each holding `fill`.
    pub fn new(size: u32, fill: T) -> (r: Self)
        requires
            is_pow2(size as int),
            size <= MAX_RING_SIZE,
        ensures
            r.wf(),
            r.size == size,
            r.producer == 0 && r.consumer == 0 && r.cached_prod == 0,
            r.flags == 0,
            r.free_slots() == size,
            forall|i: int| 0 <= i < size ==> r.ring@[i] == fill,
    {
        let mut ring: Vec<T> = Vec::new();
        let mut i: u32 = 0;
        while i < size
            invariant
                i <= size,
                ring@.len() == i,
                forall|j: int| 0 <= j < i ==> ring@[j] == fill,
            decreases size - i,
        {
            ring.push(fill);
            i = i + 1;
        }
        ProdRing { ring, size, producer: 0, consumer: 0, flags: 0, cached_prod: 0, cached_cons: size }
    }

    /// Returns the number of free slots, reading the kernel's consumer
    /// position again when the cached count is below `nb`.
    pub fn free(&mut self, nb: u32) -> (r: u32)
        requires
            old(self).wf(),
        ensures
            final(self).wf(),
            final(self).ring == old(self).ring,
            final(self).producer == old(self).producer,
            final(self).consumer == old(self).consumer,
            final(self).cached_prod == old(self).cached_prod,
            final(self).flags == old(self).flags,
            final(self).size == old(self).size,
            r == dist(final(self).cached_cons, final(self).cached_prod),
            r <= old(self).free_slots(),
            r >= nb || r == old(self).free_slots(),
    {
        let free_entries = self.cached_cons.wrapping_sub(self.cached_prod);
        if free_entries >= nb {
            return free_entries;
        }
        self.cached_cons = self.consumer.wrapping_add(self.size);
        self.cached_cons.wrapping_sub(self.cached_prod)
    }

    /// Reserves `nb` slots if that many are free: returns `nb` and sets
    /// `idx` to the counter of the first; else returns 0.
    pub fn reserve(&mut self, nb: usize, idx: &mut u32) -> (r: usize)
        requires
            old(self).wf(),
        ensures
            final(self).wf(),
            final(self).ring == old(self).ring,
            final(self).producer == old(self).producer,
            final(self).consumer == old(self).consumer,
            final(self).flags == old(self).flags,
            final(self).size == old(self).size,
            r == (if nb <= old(self).free_slots() { nb } else { 0 }),
            nb <= old(self).free_slots() ==> *final(idx) == old(self).cached_prod
                && final(self).cached_prod == advance(old(self).cached_prod, nb as int),
            nb > old(self).free_slots() ==> *final(idx) == *old(idx) && final(self).cached_prod
                == old(self).cached_prod,
    {
        if nb > self.size as usize {
            return 0;
        }
        let n = nb as u32;
        if self.free(n) < n {
            return 0;
        }
        *idx = self.cached_prod;
        self.cached_prod = self.cached_prod.wrapping_add(n);
        nb
    }

    /// Publishes `nb` reserved entries to the kernel.
    pub fn submit(&mut self, nb: usize)
        requires
            old(self).wf(),
            nb <= old(self).pending(),
        ensures
            final(self).wf(),
            final(self).producer == advance(old(self).producer, nb as int),
            final(self).submitted() == old(self).submitted() + nb,
            final(self).ring == old(self).ring,
            final(self).consumer == old(self).consumer,
            final(self).cached_prod == old(self).cached_prod,
            final(self).cached_cons == old(self).cached_cons,
            final(self).flags == old(self).flags,
            final(self).size == old(self).size,
    {
        libbpf_smp_wmb();
        self.producer = self.producer.wrapping_add(nb as u32);
    }

    /// The kernel asked to be woken up for this ring.
    pub fn needs_wakeup(&self) -> (r: bool)
        ensures
            r == (self.flags % 2 == 1),
    {
        self.flags % 2 == 1
    }

    /// The slot of counter `idx`.
    pub open spec fn slot(&self, idx: u32) -> int {
        idx as int % self.size as int
    }

    /// Kernel side: consumes the oldest submitted entry.
    pub fn kernel_consume(&mut self) -> (r: Option<T>)
        requires
            old(self).wf(),
        ensures
            final(self).wf(),
            final(self).ring == old(self).ring,
            final(self).producer == old(self).producer,
            final(self).cached_prod == old(self).cached_prod,
            final(self).cached_cons == old(self).cached_cons,
            final(self).flags == old(self).flags,
            final(self).size == old(self).size,
            old(self).submitted() == 0 ==> r is None && final(self).consumer == old(self).consumer,
            old(self).submitted() > 0 ==> r == Some(old(self).ring@[old(self).slot(old(self).consumer)])
                && final(self).consumer == advance(old(self).consumer, 1),
    {
        if self.producer == self.consumer {
            return None;
        }
        let v = self.ring[(self.consumer % self.size) as usize];
        self.consumer = self.consumer.wrapping_add(1);
        Some(v)
    }

    /// Kernel side: sets the ring's flags word.
    pub fn set_flags(&mut self, flags: u32)
        requires
            old(self).wf(),
        ensures
            final(self).wf(),
            *final(self) == (ProdRing { flags, ..*old(self) }),
    {
        self.flags = flags;
    }
}

impl ProdRing<u64> {
    /// Writes frame offset `addr` in the slot of counter `idx`.
    pub fn fill_addr(&mut self, idx: u32, addr: u64)
        requires
            old(self).wf(),
        ensures
            final(self).wf(),
            final(self).ring@ == old(self).ring@.update(old(self).slot(idx), addr),
            final(self).producer == old(self).producer,
            final(self).consumer == old(self).consumer,
            final(self).cached_prod == old(self).cached_prod,
            final(self).cached_cons == old(self).cached_cons,
            final(self).flags == old(self).flags,
            final(self).size == old(self).size,
    {
        let i = (idx % self.size) as usize;
        self.ring.set(i, addr);
    }
}

impl ProdRing<XdpDesc> {
    /// Binds frame offset `addr` to the descriptor in the slot of counter
    /// `idx`.
    pub fn fill_addr(&mut self, idx: u32, addr: u64)
        requires
            old(self).wf(),
        ensures
            final(self).wf(),
            final(self).ring@ == old(self).ring@.update(
                old(self).slot(idx),
                XdpDesc { addr, ..old(self).ring@[old(self).slot(idx)] },
            ),
            final(self).producer == old(self).producer,
            final(self).consumer == old(self).consumer,
            final(self).cached_prod == old(self).cached_prod,
            final(self).cached_cons == old(self).cached_cons,
            final(self).flags == old(self).flags,
            final(self).size == old(self).size,
    {
        let i = (idx % self.size) as usize;
        let d = self.ring[i];
        self.ring.set(i, XdpDesc { addr, ..d });
    }

    /// Sets the length of the descriptor in slot `slot`.
    pub fn set_len(&mut self, slot: usize, len: u32)
        requires
            old(self).wf(),
            slot < old(self).size,
        ensures
            final(self).wf(),
            final(self).ring@ == old(self).ring@.update(
                slot as int,
                XdpDesc { len, ..old(self).ring@[slot as int] },
            ),
            final(self).producer == old(self).producer,
            final(self).consumer == old(self).consumer,
            final(self).cached_prod == old(self).cached_prod,
            final(self).cached_cons == old(self).cached_cons,
            final(self).flags == old(self).flags,
            final(self).size == old(self).size,
    {
        let d = self.ring[slot];
        self.ring.set(slot, XdpDesc { len, ..d });
    }
}

impl<T: Copy> ConsRing<T> {
    /// Entries the kernel has produced and the user has not released.
    pub open spec fn filled(&self) -> int {
        dist(self.producer, self.consumer)
    }

    /// Entries peeked and not yet released.
    pub open spec fn peeked(&self) -> int {
        dist(self.cached_cons, self.consumer)
    }

    /// The ring's counters are consistent: released ≤ peeked ≤ producer as
    /// last read ≤ producer, all within one ring's length.
    pub open spec fn wf(&self) -> bool {
        &&& is_pow2(self.size as int)
        &&& self.size <= MAX_RING_SIZE
        &&& self.ring@.len() == self.size
        &&& self.filled() <= self.size
        &&& dist(self.cached_prod, self.consumer) <= self.filled()
        &&& self.peeked() <= dist(self.cached_prod, self.consumer)
    }

    /// Entries that a peek finds: those up to the cached producer, or, if
    /// none, those up to the kernel's producer.
    pub open spec fn available(&self) -> int {
        if self.cached_prod != self.cached_cons {
            dist(self.cached_prod, self.cached_cons)
        } else {
            dist(self.producer, self.cached_cons)
        }
    }

    /// The slot of counter `idx`.
    pub open spec fn slot(&self, idx: u32) -> int {
        idx as int % self.size as int
    }

    /// Creates an empty ring of `size` slots, each holding `fill`.
    pub fn new(size: u32, fill: T) -> (r: Self)
        requires
            is_pow2(size as int),
            size <= MAX_RING_SIZE,
        ensures
            r.wf(),
            r.size == size,
            r.producer == 0 && r.consumer == 0 && r.cached_prod == 0 && r.cached_cons == 0,
            r.flags == 0,
    {
        let mut ring: Vec<T> = Vec::new();
        let mut i: u32 = 0;
        while i < size
            invariant
                i <= size,
                ring@.len() == i,
            decreases size - i,
        {
            ring.push(fill);
            i = i + 1;
        }
        ConsRing { ring, size, producer: 0, consumer: 0, flags: 0, cached_prod: 0, cached_cons: 0 }
    }

    /// Takes up to `nb` produced entries: returns how many, and sets `idx`
    /// to the counter of the first when there is at least one.
    pub fn peek(&mut self, nb: usize, idx: &mut u32) -> (r: usize)
        requires
            old(self).wf(),
        ensures
            final(self).wf(),
            final(self).ring == old(self).ring,
            final(self).producer == old(self).producer,
            final(self).consumer == old(self).consumer,
            final(self).flags == old(self).flags,
            final(self).size == old(self).size,
            r == (if nb <= old(self).available() { nb as int } else { old(self).available() }),
            r <= dist(old(self).producer, old(self).cached_cons),
            r > 0 ==> *final(idx) == old(self).cached_cons,
            r == 0 ==> *final(idx) == *old(idx),
            final(self).cached_cons == advance(old(self).cached_cons, r as int),
            final(self).peeked() == old(self).peeked() + r,
    {
        let mut entries = self.cached_prod.wrapping_sub(self.cached_cons);
        if entries == 0 {
            self.cached_prod = self.producer;
            entries = self.cached_prod.wrapping_sub(self.cached_cons);
        }
        let n: usize = if nb < entries as usize { nb } else { entries as usize };
        if n > 0 {
            libbpf_smp_rmb();
            *idx = self.cached_cons;
            self.cached_cons = self.cached_cons.wrapping_add(n as u32);
        }
        n
    }

    /// Hands `nb` peeked entries back to the kernel.
    pub fn release(&mut self, nb: usize)
        requires
            old(self).wf(),
            nb <= old(self).peeked(),
        ensures
            final(self).wf(),
            final(self).consumer == advance(old(self).consumer, nb as int),
            final(self).peeked() == old(self).peeked() - nb,
            final(self).ring == old(self).ring,
            final(self).producer == old(self).producer,
            final(self).cached_prod == old(self).cached_prod,
            final(self).cached_cons == old(self).cached_cons,
            final(self).flags == old(self).flags,
            final(self).size == old(self).size,
    {
        libbpf_smp_rwmb();
        self.consumer = self.consumer.wrapping_add(nb as u32);
    }

    /// The entry of counter `idx`.
    pub fn get_desc(&self, idx: u32) -> (r: T)
        requires
            self.wf(),
        ensures
            r == self.ring@[self.slot(idx)],
    {
        self.ring[(idx % self.size) as usize]
    }

    /// The kernel asked to be woken up for this ring.
    pub fn needs_wakeup(&self) -> (r: bool)
        ensures
            r == (self.flags % 2 == 1),
    {
        self.flags % 2 == 1
    }

    /// Kernel side: produces entry `v` if a slot is free, never one whose
    /// entry the user has not released.
    pub fn kernel_produce(&mut self, v: T) -> (r: bool)
        requires
            old(self).wf(),
        ensures
            final(self).wf(),
            r == (old(self).filled() < old(self).size),
            r ==> final(self).ring@ == old(self).ring@.update(old(self).slot(old(self).producer), v)
                && final(self).producer == advance(old(self).producer, 1),
            !r ==> *final(self) == *old(self),
            final(self).consumer == old(self).consumer,
            final(self).cached_prod == old(self).cached_prod,
            final(self).cached_cons == old(self).cached_cons,
            final(self).flags == old(self).flags,
            final(self).size == old(self).size,
    {
        if self.producer.wrapping_sub(self.consumer) >= self.size {
            return false;
        }
        let i = (self.producer % self.size) as usize;
        self.ring.set(i, v);
        self.producer = self.producer.wrapping_add(1);
        true
    }

    /// Kernel side: sets the ring's flags word.
    pub fn set_flags(&mut self, flags: u32)
        requires
            old(self).wf(),
        ensures
            final(self).wf(),
            *final(self) == (ConsRing { flags, ..*old(self) }),
    {
        self.flags = flags;
    }
}

/// Relies on `std::sync::atomic::fence(Acquire)`. It orders this
/// library's own copy of a ring; the driver that mirrors the ring to the
/// kernel keeps its own fences.
#[verifier::external_body]
pub fn libbpf_smp_rmb() {
    std::sync::atomic::fence(std::sync::atomic::Ordering::Acquire);
}

/// Relies on `std::sync::atomic::fence(Release)`. It orders this
/// library's own copy of a ring; the driver that mirrors the ring to the
/// kernel keeps its own fences.
#[verifier::external_body]
pub fn libbpf_smp_wmb() {
    std::sync::atomic::fence(std::sync::atomic::Ordering::Release);
}

/// Relies on `std::sync::atomic::fence(AcqRel)`. It orders this
/// library's own copy of a ring; the driver that mirrors the ring to the
/// kernel keeps its own fences.
#[verifier::external_body]
pub fn libbpf_smp_rwmb() {
    std::sync::atomic::fence(std::sync::atomic::Ordering::AcqRel);
}

} // verus!
