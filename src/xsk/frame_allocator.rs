use vstd::prelude::*;

use crate::xsk::{Error, Result};

verus! {

/// The UMEM area, split into `num_frames` frames of `frame_size` bytes, and
/// the free list of frame offsets.
pub struct FrameAllocator {
    pub buffer: Vec<u8>,
    pub frame_size: usize,
    pub num_frames: usize,
    pub frame_addr: Vec<u64>,
}

/// The free list that a new pool starts with: every frame offset, highest
/// first, so that frames are handed out from offset 0 upwards.
pub open spec fn initial_free_list(num_frames: nat, frame_size: nat) -> Seq<u64> {
    Seq::new(num_frames, |i: int| ((num_frames - 1 - i) * frame_size) as u64)
}

impl FrameAllocator {
    /// Free frames are distinct frames that lie inside the area.
    pub open spec fn wf(&self) -> bool {
        &&& self.buffer@.len() == self.num_frames * self.frame_size
        &&& self.frame_size > 0
        &&& self.frame_addr@.no_duplicates()
        &&& forall|i: int|
            0 <= i < self.frame_addr@.len() ==> #[trigger] self.frame_addr@[i] + self.frame_size
                <= self.buffer@.len()
    }

    /// The free frame offsets; the last one is handed out next.
    pub open spec fn free_frames(&self) -> Seq<u64> {
        self.frame_addr@
    }

    /// Creates a pool of `num_frames` zeroed frames of `frame_size` bytes.
    /// Fails when the area's size does not fit in memory addresses.
    pub fn new(num_frames: usize, frame_size: usize) -> (r: Result<Self>)
        requires
            frame_size > 0,
        ensures
            match r {
                Ok(a) => {
                    &&& a.wf()
                    &&& a.num_frames == num_frames
                    &&& a.frame_size == frame_size
                    &&& a.free_frames() == initial_free_list(num_frames as nat, frame_size as nat)
                },
                Err(e) => e == Error::FrameAllocatorAllocationFailed(ENOMEM) && num_frames
                    * frame_size > usize::MAX,
            },
            r is Ok <==> num_frames * frame_size <= usize::MAX,
    {
        let size = match num_frames.checked_mul(frame_size) {
            Some(s) => s,
            None => {
                proof {
                    assert(num_frames * frame_size > usize::MAX);
                }
                return Err(Error::FrameAllocatorAllocationFailed(ENOMEM));
            },
        };
        let buffer: Vec<u8> = vec![0u8; size];
        let mut frame_addr: Vec<u64> = Vec::new();
        let mut i: usize = num_frames;
        while i > 0
            invariant
                i <= num_frames,
                size == num_frames * frame_size,
                frame_size > 0,
                frame_addr@.len() == num_frames - i,
                forall|j: int|
                    0 <= j < frame_addr@.len() ==> #[trigger] frame_addr@[j] == ((num_frames - 1
                        - j) * frame_size) as u64,
            decreases i,
        {
            i = i - 1;
            proof {
                assert(i * frame_size + frame_size <= size) by (nonlinear_arith)
                    requires
                        i < num_frames,
                        size == num_frames * frame_size,
                ;
            }
            frame_addr.push((i * frame_size) as u64);
        }
        let a = FrameAllocator { buffer, frame_size, num_frames, frame_addr };
        proof {
            assert(a.frame_addr@ =~= initial_free_list(num_frames as nat, frame_size as nat));
            assert forall|j: int, k: int|
                0 <= j < k < a.frame_addr@.len() implies a.frame_addr@[j] != a.frame_addr@[k] by {
                assert((num_frames - 1 - k) * frame_size < (num_frames - 1 - j) * frame_size)
                    by (nonlinear_arith)
                    requires
                        j < k,
                        frame_size > 0,
                ;
                assert((num_frames - 1 - j) * frame_size + frame_size <= size) by (nonlinear_arith)
                    requires
                        0 <= j < num_frames,
                        size == num_frames * frame_size,
                ;
                assert((num_frames - 1 - k) * frame_size >= 0) by (nonlinear_arith)
                    requires
                        0 <= k < num_frames,
                        frame_size > 0,
                ;
            }
            assert forall|j: int| 0 <= j < a.frame_addr@.len() implies #[trigger] a.frame_addr@[j]
                + a.frame_size <= a.buffer@.len() by {
                assert((num_frames - 1 - j) * frame_size + frame_size <= size) by (nonlinear_arith)
                    requires
                        0 <= j < num_frames,
                        size == num_frames * frame_size,
                ;
            }
        }
        Ok(a)
    }

    /// Hands out a free frame: the last of the free list, or `None` when
    /// none is left. A frame handed out is no longer free.
    pub fn alloc_frame(&mut self) -> (r: Option<u64>)
        requires
            old(self).wf(),
        ensures
            final(self).wf(),
            final(self).buffer == old(self).buffer,
            final(self).frame_size == old(self).frame_size,
            final(self).num_frames == old(self).num_frames,
            old(self).free_frames().len() == 0 ==> r is None && final(self).free_frames()
                == old(self).free_frames(),
            old(self).free_frames().len() > 0 ==> r == Some(old(self).free_frames().last())
                && final(self).free_frames() == old(self).free_frames().drop_last(),
            r matches Some(a) ==> !final(self).free_frames().contains(a) && a + final(self).frame_size <= final(self).buffer@.len(),
    {
        let r = self.frame_addr.pop();
        proof {
            if let Some(a) = r {
                let s = old(self).frame_addr@;
                assert(s =~= self.frame_addr@.push(a));
                if self.frame_addr@.contains(a) {
                    let k = choose|k: int| 0 <= k < self.frame_addr@.len() && self.frame_addr@[k] == a;
                    assert(s[k] == s[s.len() - 1]);
                }
                assert(s[s.len() - 1] == a);
            }
        }
        r
    }
}

/// Out of memory.
pub const ENOMEM: i32 = 12;

} // verus!
