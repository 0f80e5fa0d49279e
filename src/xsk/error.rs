use vstd::prelude::*;

verus! {

/// Errors of the XSK layer. The `i32` of a variant is an errno value.
#[derive(Debug, Clone, PartialEq, Eq)]
pub enum Error {
    SetrlimitFailed(i32),
    InvalidXskMode,
    InvalidConfigWithMissingProperty(String),
    BpfProgLoadFailed(i32),
    BpfSetLinkXDPFailed(i32),
    MapNotFound(String, i32),
    SetMapFailed(String, i32),
    FrameAllocatorAllocationFailed(i32),
    XskSocketCreateFailed(i32),
    XskUmemCreateFailed(i32),
    XskFqRingProdReserveFailed,
    XskTxRingProdReserveFailed,
    XskSocketPollFailed(i32),
    XskUmemPollFailed(i32),
    XskTxSendtoFailed(i32),
}

/// Result of the XSK layer.
pub type Result<T> = core::result::Result<T, Error>;

} // verus!
