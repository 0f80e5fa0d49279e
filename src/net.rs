//! The user-space protocol layer: packet cursors, headers, ARP cache and
//! the network stack that dispatches payloads to the application.
pub mod app;
pub mod arp;
pub mod arp_table;
pub mod error;
pub mod eth;
pub mod ip4;
pub mod packet_buf;
pub mod stack;
pub mod udp;
pub mod utils;

pub use self::arp::ArpHdr;
pub use self::error::{Error, Result};
pub use self::eth::EthHdr;
pub use self::ip4::Ip4Hdr;
pub use self::packet_buf::{PacketBuf, PacketBufMut};
pub use self::stack::{Net, NetStack};
pub use self::udp::UdpHdr;
