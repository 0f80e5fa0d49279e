//! The AF_XDP data-plane engine: frame pool, rings, UMEM and sockets.
pub mod configuration;
pub mod desc;
pub mod error;
pub mod frame_allocator;
pub mod ring;
pub mod runner;
pub mod socket;
pub mod umem;
pub mod xdp_prog;

pub use self::configuration::{Configuration, NeedsWakeup, XskMode};
pub use self::desc::Desc;
pub use self::error::{Error, Result};
pub use self::runner::Runner;

use vstd::prelude::*;

verus! {

/// Most descriptors handled in one RX or fill-queue cycle.
pub const BATCH_SIZE: usize = 64;

} // verus!
