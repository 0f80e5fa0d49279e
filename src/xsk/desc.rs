use vstd::prelude::*;

use crate::xsk::ring::XdpDesc;

verus! {

/// A descriptor handed out by a ring, with the slot it came from.
#[derive(Debug, Clone, Copy, PartialEq, Eq)]
pub struct Desc {
    pub addr: u64,
    pub len: u32,
    pub index: usize,
}

impl Desc {
    /// Wraps the descriptor `desc` found in slot `index`.
    pub fn new_from_xdp_desc(desc: XdpDesc, index: usize) -> (r: Self)
        ensures
            r == (Desc { addr: desc.addr, len: desc.len, index }),
    {
        Desc { addr: desc.addr, len: desc.len, index }
    }

    /// Offset of the descriptor's frame in the UMEM.
    pub fn packet(&self) -> (r: u64)
        ensures
            r == self.addr,
    {
        self.addr
    }

    /// Bytes used in the frame.
    pub fn len(&self) -> (r: usize)
        ensures
            r == self.len,
    {
        self.len as usize
    }

    /// No byte of the frame is used.
    pub fn is_empty(&self) -> (r: bool)
        ensures
            r == (self.len == 0),
    {
        self.len == 0
    }

    /// Sets the bytes used in the frame.
    pub fn set_len(&mut self, len: u32)
        ensures
            *final(self) == (Desc { len, ..*old(self) }),
    {
        self.len = len;
    }

    /// The slot the descriptor came from.
    pub fn index(&self) -> (r: usize)
        ensures
            r == self.index,
    {
        self.index
    }
}

} // verus!
