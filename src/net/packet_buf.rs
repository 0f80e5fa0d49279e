use vstd::prelude::*;

use crate::net::{Error, Result};

verus! {

/// Big-endian value of two bytes.
pub open spec fn be16(s: Seq<u8>) -> u16 {
    (s[0] as int * 0x100 + s[1] as int) as u16
}

/// Big-endian value of four bytes.
pub open spec fn be32(s: Seq<u8>) -> u32 {
    (s[0] as int * 0x100_0000 + s[1] as int * 0x1_0000 + s[2] as int * 0x100 + s[3] as int) as u32
}

/// Big-endian value of eight bytes.
pub open spec fn be64(s: Seq<u8>) -> u64 {
    (be32(s.subrange(0, 4)) as int * 0x1_0000_0000 + be32(s.subrange(4, 8)) as int) as u64
}

/// The two bytes of `v` in network byte order.
pub open spec fn be16_bytes(v: u16) -> Seq<u8> {
    seq![(v / 0x100) as u8, (v % 0x100) as u8]
}

/// The four bytes of `v` in network byte order.
pub open spec fn be32_bytes(v: u32) -> Seq<u8> {
    seq![
        (v / 0x100_0000) as u8,
        ((v / 0x1_0000) % 0x100) as u8,
        ((v / 0x100) % 0x100) as u8,
        (v % 0x100) as u8,
    ]
}

/// `s` with `bytes` written over it from position `at`.
pub open spec fn overwrite(s: Seq<u8>, at: int, bytes: Seq<u8>) -> Seq<u8> {
    s.subrange(0, at) + bytes + s.subrange(at + bytes.len(), s.len() as int)
}

/// The six bytes of `s` from `at` as an array.
pub fn array6(s: &[u8], at: usize) -> (r: [u8; 6])
    requires
        at + 6 <= s@.len(),
    ensures
        r@ == s@.subrange(at as int, at + 6),
{
    let r = [s[at], s[at + 1], s[at + 2], s[at + 3], s[at + 4], s[at + 5]];
    assert(r@ =~= s@.subrange(at as int, at + 6));
    r
}

/// The four bytes of `s` from `at` as an array.
pub fn array4(s: &[u8], at: usize) -> (r: [u8; 4])
    requires
        at + 4 <= s@.len(),
    ensures
        r@ == s@.subrange(at as int, at + 4),
{
    let r = [s[at], s[at + 1], s[at + 2], s[at + 3]];
    assert(r@ =~= s@.subrange(at as int, at + 4));
    r
}

/// Big-endian value of the two bytes of `s` from `at`.
pub fn read_be16(s: &[u8], at: usize) -> (r: u16)
    requires
        at + 2 <= s@.len(),
    ensures
        r == be16(s@.subrange(at as int, at + 2)),
{
    s[at] as u16 * 0x100 + s[at + 1] as u16
}

/// Big-endian value of the four bytes of `s` from `at`.
pub fn read_be32(s: &[u8], at: usize) -> (r: u32)
    requires
        at + 4 <= s@.len(),
    ensures
        r == be32(s@.subrange(at as int, at + 4)),
{
    s[at] as u32 * 0x100_0000 + s[at + 1] as u32 * 0x1_0000 + s[at + 2] as u32 * 0x100 + s[at + 3] as u32
}

/// Appends the two bytes of `v` in network byte order.
pub fn push_be16(out: &mut Vec<u8>, v: u16)
    ensures
        final(out)@ == old(out)@ + be16_bytes(v),
{
    out.push((v / 0x100) as u8);
    out.push((v % 0x100) as u8);
    assert(final(out)@ =~= old(out)@ + be16_bytes(v));
}

/// Appends the four bytes of `v` in network byte order.
pub fn push_be32(out: &mut Vec<u8>, v: u32)
    ensures
        final(out)@ == old(out)@ + be32_bytes(v),
{
    out.push((v / 0x100_0000) as u8);
    out.push(((v / 0x1_0000) % 0x100) as u8);
    out.push(((v / 0x100) % 0x100) as u8);
    out.push((v % 0x100) as u8);
    assert(final(out)@ =~= old(out)@ + be32_bytes(v));
}

/// Appends all of `bytes`.
pub fn push_all(out: &mut Vec<u8>, bytes: &[u8])
    ensures
        final(out)@ == old(out)@ + bytes@,
{
    let mut i: usize = 0;
    while i < bytes.len()
        invariant
            i <= bytes@.len(),
            out@ == old(out)@ + bytes@.subrange(0, i as int),
        decreases bytes@.len() - i,
    {
        out.push(bytes[i]);
        i = i + 1;
        assert(out@ =~= old(out)@ + bytes@.subrange(0, i as int));
    }
    assert(bytes@.subrange(0, bytes@.len() as int) =~= bytes@);
}

/// Decoding the encoding of a 16-bit value gives it back.
pub proof fn lemma_be16_round_trip(v: u16)
    ensures
        be16(be16_bytes(v)) == v,
{
}

/// Decoding the encoding of a 32-bit value gives it back.
pub proof fn lemma_be32_round_trip(v: u32)
    ensures
        be32(be32_bytes(v)) == v,
{
}

/// Copies `n` bytes of `src` from position `start`.
pub fn copy_range(src: &[u8], start: usize, n: usize) -> (r: Vec<u8>)
    requires
        start + n <= src@.len(),
    ensures
        r@ == src@.subrange(start as int, start + n),
{
    let len = src.len();
    let mut r: Vec<u8> = Vec::with_capacity(n);
    let mut i: usize = 0;
    while i < n
        invariant
            len == src@.len(),
            start + n <= src@.len(),
            i <= n,
            r@ == src@.subrange(start as int, start + i),
        decreases n - i,
    {
        r.push(src[start + i]);
        i = i + 1;
        assert(r@ =~= src@.subrange(start as int, start + i));
    }
    r
}

/// Writes `bytes` into `dst` from position `at`.
pub fn write_range(dst: &mut Vec<u8>, at: usize, bytes: &[u8])
    requires
        at + bytes@.len() <= old(dst)@.len(),
    ensures
        final(dst)@ == overwrite(old(dst)@, at as int, bytes@),
        final(dst)@.len() == old(dst)@.len(),
{
    let len = dst.len();
    let mut i: usize = 0;
    while i < bytes.len()
        invariant
            len == dst@.len(),
            at + bytes@.len() <= dst@.len(),
            dst@.len() == old(dst)@.len(),
            i <= bytes@.len(),
            dst@ == overwrite(old(dst)@, at as int, bytes@.subrange(0, i as int)),
        decreases bytes@.len() - i,
    {
        dst.set(at + i, bytes[i]);
        i = i + 1;
        assert(dst@ =~= overwrite(old(dst)@, at as int, bytes@.subrange(0, i as int)));
    }
    assert(bytes@.subrange(0, bytes@.len() as int) =~= bytes@);
}

/// How the cursor of a packet buffer moves.
enum OffsetOp {
    To(usize),
    Add(usize),
}

/// A read/write cursor over the bytes of one packet.
///
/// `packet_offset` is where the next read or write happens; `packet_len` is
/// the furthest position the cursor has reached, which is the length of the
/// packet that has been read or written so far.
pub struct PacketBufMut {
    pub buffer: Vec<u8>,
    pub packet_offset: usize,
    pub packet_len: usize,
}

impl PacketBufMut {
    /// The cursor stays inside the buffer.
    pub open spec fn wf(&self) -> bool {
        self.packet_offset <= self.packet_len <= self.buffer@.len()
    }

    /// The cursor moved to `o`, with the length stretched to cover it.
    pub open spec fn moved_to(old: Self, new: Self, o: int) -> bool {
        &&& new.buffer@ == old.buffer@
        &&& new.packet_offset == o
        &&& new.packet_len == if old.packet_len >= o { old.packet_len as int } else { o }
    }

    /// Creates a cursor over a copy of `slice`, at position 0.
    pub fn from_slice(slice: &[u8]) -> (r: Self)
        ensures
            r.wf(),
            r.buffer@ == slice@,
            r.packet_offset == 0,
            r.packet_len == 0,
    {
        let buffer = copy_range(slice, 0, slice.len());
        assert(slice@.subrange(0, slice@.len() as int) =~= slice@);
        PacketBufMut { buffer, packet_offset: 0, packet_len: 0 }
    }

    /// Creates a cursor over the first `buffer_len` bytes of `buffer`, at
    /// position 0.
    pub fn from_raw_parts(buffer: Vec<u8>, buffer_len: usize) -> (r: Self)
        requires
            buffer_len <= buffer@.len(),
        ensures
            r.wf(),
            r.buffer@ == buffer@.subrange(0, buffer_len as int),
            r.packet_offset == 0,
            r.packet_len == 0,
    {
        let mut buffer = buffer;
        buffer.truncate(buffer_len);
        PacketBufMut { buffer, packet_offset: 0, packet_len: 0 }
    }

    fn update_offset(&mut self, packet_offset: OffsetOp)
        requires
            old(self).wf(),
            match packet_offset {
                OffsetOp::To(o) => o <= old(self).buffer@.len(),
                OffsetOp::Add(o) => old(self).packet_offset + o <= old(self).buffer@.len(),
            },
        ensures
            final(self).wf(),
            Self::moved_to(
                *old(self),
                *final(self),
                match packet_offset {
                    OffsetOp::To(o) => o as int,
                    OffsetOp::Add(o) => old(self).packet_offset + o,
                },
            ),
    {
        let _len = self.buffer.len();
        match packet_offset {
            OffsetOp::To(o) => self.packet_offset = o,
            OffsetOp::Add(o) => self.packet_offset = self.packet_offset + o,
        }
        if self.packet_len < self.packet_offset {
            self.packet_len = self.packet_offset;
        }
    }

    /// Returns a copy of the next `n` bytes without moving the cursor.
    pub fn peek_bytes(&self, n: usize) -> (r: Result<Vec<u8>>)
        requires
            self.wf(),
        ensures
            match r {
                Ok(v) => self.packet_offset + n <= self.buffer@.len() && v@ == self.buffer@.subrange(
                    self.packet_offset as int,
                    self.packet_offset + n,
                ),
                Err(e) => e == Error::NotEnoughBytes && self.packet_offset + n > self.buffer@.len(),
            },
    {
        if n > self.buffer.len() - self.packet_offset {
            return Err(Error::NotEnoughBytes);
        }
        Ok(copy_range(self.buffer.as_slice(), self.packet_offset, n))
    }

    /// Returns a copy of the next `n` bytes and moves the cursor past them.
    pub fn get_bytes(&mut self, n: usize) -> (r: Result<Vec<u8>>)
        requires
            old(self).wf(),
        ensures
            final(self).wf(),
            match r {
                Ok(v) => old(self).packet_offset + n <= old(self).buffer@.len() && v@
                    == old(self).buffer@.subrange(
                    old(self).packet_offset as int,
                    old(self).packet_offset + n,
                ) && Self::moved_to(*old(self), *final(self), old(self).packet_offset + n),
                Err(e) => e == Error::NotEnoughBytes && old(self).packet_offset + n > old(self).buffer@.len() && *final(self) == *old(self),
            },
    {
        if n > self.buffer.len() - self.packet_offset {
            return Err(Error::NotEnoughBytes);
        }
        let v = copy_range(self.buffer.as_slice(), self.packet_offset, n);
        self.update_offset(OffsetOp::Add(n));
        Ok(v)
    }

    /// Writes `bytes` at the cursor and moves the cursor past them.
    pub fn put_bytes(&mut self, bytes: &[u8]) -> (r: Result<()>)
        requires
            old(self).wf(),
        ensures
            final(self).wf(),
            match r {
                Ok(_) => {
                    &&& old(self).packet_offset + bytes@.len() <= old(self).buffer@.len()
                    &&& final(self).buffer@ == overwrite(
                        old(self).buffer@,
                        old(self).packet_offset as int,
                        bytes@,
                    )
                    &&& final(self).packet_offset == old(self).packet_offset + bytes@.len()
                    &&& final(self).packet_len == if old(self).packet_len >= final(self).packet_offset {
                        old(self).packet_len as int
                    } else {
                        final(self).packet_offset as int
                    }
                },
                Err(e) => e == Error::NotEnoughBytes && old(self).packet_offset + bytes@.len()
                    > old(self).buffer@.len() && *final(self) == *old(self),
            },
    {
        if bytes.len() > self.buffer.len() - self.packet_offset {
            return Err(Error::NotEnoughBytes);
        }
        let at = self.packet_offset;
        write_range(&mut self.buffer, at, bytes);
        self.packet_offset = at + bytes.len();
        if self.packet_len < self.packet_offset {
            self.packet_len = self.packet_offset;
        }
        Ok(())
    }

    /// Writes `bytes` at position `at`, leaving the cursor where it is; the
    /// packet length grows to cover them.
    pub fn write_at(&mut self, at: usize, bytes: &[u8])
        requires
            old(self).wf(),
            at + bytes@.len() <= old(self).buffer@.len(),
        ensures
            final(self).wf(),
            final(self).buffer@ == overwrite(old(self).buffer@, at as int, bytes@),
            final(self).packet_offset == old(self).packet_offset,
            final(self).packet_len == if old(self).packet_len >= at + bytes@.len() {
                old(self).packet_len as int
            } else {
                at + bytes@.len()
            },
    {
        write_range(&mut self.buffer, at, bytes);
        let _n = self.buffer.len();
        if self.packet_len < at + bytes.len() {
            self.packet_len = at + bytes.len();
        }
    }

    /// Returns the next byte without moving the cursor.
    pub fn peek_u8(&self) -> (r: Result<u8>)
        requires
            self.wf(),
        ensures
            match r {
                Ok(b) => self.packet_offset < self.buffer@.len() && b == self.buffer@[self.packet_offset as int],
                Err(e) => e == Error::NotEnoughBytes && self.packet_offset == self.buffer@.len(),
            },
    {
        let bytes = self.peek_bytes(1)?;
        Ok(bytes[0])
    }

    /// Reads one byte.
    pub fn get_u8(&mut self) -> (r: Result<u8>)
        requires
            old(self).wf(),
        ensures
            final(self).wf(),
            match r {
                Ok(b) => old(self).packet_offset < old(self).buffer@.len() && b == old(self).buffer@[old(self).packet_offset as int]
                    && Self::moved_to(*old(self), *final(self), old(self).packet_offset + 1),
                Err(e) => e == Error::NotEnoughBytes && old(self).packet_offset == old(self).buffer@.len() && *final(self) == *old(self),
            },
    {
        let bytes = self.get_bytes(1)?;
        Ok(bytes[0])
    }

    /// Reads a 16-bit integer in network byte order.
    pub fn get_be16(&mut self) -> (r: Result<u16>)
        requires
            old(self).wf(),
        ensures
            final(self).wf(),
            match r {
                Ok(v) => old(self).packet_offset + 2 <= old(self).buffer@.len() && v == be16(
                    old(self).buffer@.subrange(old(self).packet_offset as int, old(self).packet_offset + 2),
                ) && Self::moved_to(*old(self), *final(self), old(self).packet_offset + 2),
                Err(e) => e == Error::NotEnoughBytes && old(self).packet_offset + 2 > old(self).buffer@.len() && *final(self) == *old(self),
            },
    {
        let b = self.get_bytes(2)?;
        Ok(b[0] as u16 * 0x100 + b[1] as u16)
    }

    /// Reads a 32-bit integer in network byte order.
    pub fn get_be32(&mut self) -> (r: Result<u32>)
        requires
            old(self).wf(),
        ensures
            final(self).wf(),
            match r {
                Ok(v) => old(self).packet_offset + 4 <= old(self).buffer@.len() && v == be32(
                    old(self).buffer@.subrange(old(self).packet_offset as int, old(self).packet_offset + 4),
                ) && Self::moved_to(*old(self), *final(self), old(self).packet_offset + 4),
                Err(e) => e == Error::NotEnoughBytes && old(self).packet_offset + 4 > old(self).buffer@.len() && *final(self) == *old(self),
            },
    {
        let b = self.get_bytes(4)?;
        Ok(b[0] as u32 * 0x100_0000 + b[1] as u32 * 0x1_0000 + b[2] as u32 * 0x100 + b[3] as u32)
    }

    /// Reads a 64-bit integer in network byte order.
    pub fn get_be64(&mut self) -> (r: Result<u64>)
        requires
            old(self).wf(),
        ensures
            final(self).wf(),
            match r {
                Ok(v) => old(self).packet_offset + 8 <= old(self).buffer@.len() && v == be64(
                    old(self).buffer@.subrange(old(self).packet_offset as int, old(self).packet_offset + 8),
                ) && Self::moved_to(*old(self), *final(self), old(self).packet_offset + 8),
                Err(e) => e == Error::NotEnoughBytes && old(self).packet_offset + 8 > old(self).buffer@.len() && *final(self) == *old(self),
            },
    {
        let b = self.get_bytes(8)?;
        let hi: u64 = b[0] as u64 * 0x100_0000 + b[1] as u64 * 0x1_0000 + b[2] as u64 * 0x100 + b[3] as u64;
        let lo: u64 = b[4] as u64 * 0x100_0000 + b[5] as u64 * 0x1_0000 + b[6] as u64 * 0x100 + b[7] as u64;
        assert(b@.subrange(0, 4) =~= seq![b@[0], b@[1], b@[2], b@[3]]);
        assert(b@.subrange(4, 8) =~= seq![b@[4], b@[5], b@[6], b@[7]]);
        Ok(hi * 0x1_0000_0000 + lo)
    }

    /// The bytes of the packet so far: the buffer up to `packet_len`.
    pub fn to_vec(&self) -> (r: Vec<u8>)
        requires
            self.wf(),
        ensures
            r@ == self.buffer@.subrange(0, self.packet_len as int),
    {
        copy_range(self.buffer.as_slice(), 0, self.packet_len)
    }

    /// Moves the cursor to `packet_offset`.
    pub fn seek(&mut self, packet_offset: usize) -> (r: Result<()>)
        requires
            old(self).wf(),
        ensures
            final(self).wf(),
            match r {
                Ok(_) => packet_offset <= old(self).buffer@.len() && Self::moved_to(*old(self), *final(self), packet_offset as int),
                Err(e) => e == Error::InvalidSeekPos && packet_offset > old(self).buffer@.len() && *final(self) == *old(self),
            },
    {
        if packet_offset > self.buffer.len() {
            return Err(Error::InvalidSeekPos);
        }
        self.update_offset(OffsetOp::To(packet_offset));
        Ok(())
    }
}

/// A read-only cursor over the bytes of one packet; it moves like
/// [`PacketBufMut`] and never writes.
pub struct PacketBuf {
    pub inner: PacketBufMut,
}

impl PacketBuf {
    /// The cursor stays inside the buffer.
    pub open spec fn wf(&self) -> bool {
        self.inner.wf()
    }

    /// Creates a cursor over a copy of `slice`, at position 0.
    pub fn from_slice(slice: &[u8]) -> (r: Self)
        ensures
            r.wf(),
            r.inner.buffer@ == slice@,
            r.inner.packet_offset == 0,
            r.inner.packet_len == 0,
    {
        PacketBuf { inner: PacketBufMut::from_slice(slice) }
    }

    /// Creates a cursor over the first `buffer_len` bytes of `buffer`, at
    /// position 0.
    pub fn from_raw_parts(buffer: Vec<u8>, buffer_len: usize) -> (r: Self)
        requires
            buffer_len <= buffer@.len(),
        ensures
            r.wf(),
            r.inner.buffer@ == buffer@.subrange(0, buffer_len as int),
            r.inner.packet_offset == 0,
            r.inner.packet_len == 0,
    {
        PacketBuf { inner: PacketBufMut::from_raw_parts(buffer, buffer_len) }
    }

    /// Returns a copy of the next `n` bytes without moving the cursor.
    pub fn peek_bytes(&self, n: usize) -> (r: Result<Vec<u8>>)
        requires
            self.wf(),
        ensures
            match r {
                Ok(v) => self.inner.packet_offset + n <= self.inner.buffer@.len() && v@
                    == self.inner.buffer@.subrange(
                    self.inner.packet_offset as int,
                    self.inner.packet_offset + n,
                ),
                Err(e) => e == Error::NotEnoughBytes && self.inner.packet_offset + n
                    > self.inner.buffer@.len(),
            },
    {
        self.inner.peek_bytes(n)
    }

    /// Returns a copy of the next `n` bytes and moves the cursor past them.
    pub fn get_bytes(&mut self, n: usize) -> (r: Result<Vec<u8>>)
        requires
            old(self).wf(),
        ensures
            final(self).wf(),
            match r {
                Ok(v) => old(self).inner.packet_offset + n <= old(self).inner.buffer@.len() && v@
                    == old(self).inner.buffer@.subrange(
                    old(self).inner.packet_offset as int,
                    old(self).inner.packet_offset + n,
                ) && PacketBufMut::moved_to(
                    old(self).inner,
                    final(self).inner,
                    old(self).inner.packet_offset + n,
                ),
                Err(e) => e == Error::NotEnoughBytes && old(self).inner.packet_offset + n
                    > old(self).inner.buffer@.len() && final(self).inner == old(self).inner,
            },
    {
        self.inner.get_bytes(n)
    }

    /// Returns the next byte without moving the cursor.
    pub fn peek_u8(&self) -> (r: Result<u8>)
        requires
            self.wf(),
        ensures
            match r {
                Ok(b) => self.inner.packet_offset < self.inner.buffer@.len() && b
                    == self.inner.buffer@[self.inner.packet_offset as int],
                Err(e) => e == Error::NotEnoughBytes && self.inner.packet_offset
                    == self.inner.buffer@.len(),
            },
    {
        self.inner.peek_u8()
    }

    /// Reads one byte.
    pub fn get_u8(&mut self) -> (r: Result<u8>)
        requires
            old(self).wf(),
        ensures
            final(self).wf(),
            match r {
                Ok(b) => old(self).inner.packet_offset < old(self).inner.buffer@.len() && b == old(self).inner.buffer@[old(self).inner.packet_offset as int]
                    && PacketBufMut::moved_to(
                    old(self).inner,
                    final(self).inner,
                    old(self).inner.packet_offset + 1,
                ),
                Err(e) => e == Error::NotEnoughBytes && old(self).inner.packet_offset == old(self).inner.buffer@.len() && final(self).inner == old(self).inner,
            },
    {
        self.inner.get_u8()
    }

    /// Reads a 16-bit integer in network byte order.
    pub fn get_be16(&mut self) -> (r: Result<u16>)
        requires
            old(self).wf(),
        ensures
            final(self).wf(),
            match r {
                Ok(v) => {
                    let o = old(self).inner.packet_offset as int;
                    o + 2 <= old(self).inner.buffer@.len() && v == be16(
                        old(self).inner.buffer@.subrange(o, o + 2),
                    ) && PacketBufMut::moved_to(old(self).inner, final(self).inner, o + 2)
                },
                Err(e) => e == Error::NotEnoughBytes && old(self).inner.packet_offset + 2 > old(self).inner.buffer@.len() && final(self).inner == old(self).inner,
            },
    {
        self.inner.get_be16()
    }

    /// Reads a 32-bit integer in network byte order.
    pub fn get_be32(&mut self) -> (r: Result<u32>)
        requires
            old(self).wf(),
        ensures
            final(self).wf(),
            match r {
                Ok(v) => {
                    let o = old(self).inner.packet_offset as int;
                    o + 4 <= old(self).inner.buffer@.len() && v == be32(
                        old(self).inner.buffer@.subrange(o, o + 4),
                    ) && PacketBufMut::moved_to(old(self).inner, final(self).inner, o + 4)
                },
                Err(e) => e == Error::NotEnoughBytes && old(self).inner.packet_offset + 4 > old(self).inner.buffer@.len() && final(self).inner == old(self).inner,
            },
    {
        self.inner.get_be32()
    }

    /// Reads a 64-bit integer in network byte order.
    pub fn get_be64(&mut self) -> (r: Result<u64>)
        requires
            old(self).wf(),
        ensures
            final(self).wf(),
            match r {
                Ok(v) => {
                    let o = old(self).inner.packet_offset as int;
                    o + 8 <= old(self).inner.buffer@.len() && v == be64(
                        old(self).inner.buffer@.subrange(o, o + 8),
                    ) && PacketBufMut::moved_to(old(self).inner, final(self).inner, o + 8)
                },
                Err(e) => e == Error::NotEnoughBytes && old(self).inner.packet_offset + 8 > old(self).inner.buffer@.len() && final(self).inner == old(self).inner,
            },
    {
        self.inner.get_be64()
    }

    /// The bytes of the packet so far: the buffer up to `packet_len`.
    pub fn to_vec(&self) -> (r: Vec<u8>)
        requires
            self.wf(),
        ensures
            r@ == self.inner.buffer@.subrange(0, self.inner.packet_len as int),
    {
        self.inner.to_vec()
    }

    /// Moves the cursor to `packet_offset`.
    pub fn seek(&mut self, packet_offset: usize) -> (r: Result<()>)
        requires
            old(self).wf(),
        ensures
            final(self).wf(),
            match r {
                Ok(_) => packet_offset <= old(self).inner.buffer@.len() && PacketBufMut::moved_to(
                    old(self).inner,
                    final(self).inner,
                    packet_offset as int,
                ),
                Err(e) => e == Error::InvalidSeekPos && packet_offset > old(self).inner.buffer@.len()
                    && final(self).inner == old(self).inner,
            },
    {
        self.inner.seek(packet_offset)
    }
}

} // verus!
