use vstd::prelude::*;

use crate::xsk::{Error, Result};

verus! {

/// Default number of descriptors of a ring.
pub const XSK_RING_PROD_DEFAULT_NUM_DESCS: usize = 2048;

/// Default frame size.
pub const XSK_UMEM_DEFAULT_FRAME_SIZE: usize = 4096;

/// XDP attach flag: fail if a program is already attached.
pub const XDP_FLAGS_UPDATE_IF_NOEXIST: u32 = 1;

/// XDP attach flag: generic (skb) mode.
pub const XDP_FLAGS_SKB_MODE: u32 = 2;

/// XDP attach flag: native driver mode.
pub const XDP_FLAGS_DRV_MODE: u32 = 4;

/// Bind flag: copy packets between the NIC and the UMEM.
pub const XDP_COPY: u16 = 2;

/// Bind flag: the NIC works on the UMEM directly.
pub const XDP_ZEROCOPY: u16 = 4;

/// Bind flag: the kernel sets the need-wakeup flag of the rings.
pub const XDP_USE_NEED_WAKEUP: u16 = 8;

/// How the XDP program is attached and packets reach the UMEM.
#[derive(Debug, Clone, Copy, PartialEq, Eq)]
pub enum XskMode {
    /// Generic (skb) mode.
    Skb,
    /// Driver mode.
    Drv,
    /// Driver mode with zero-copy.
    DrvZeroCopy,
}

impl XskMode {
    /// The XDP attach flags of the mode.
    pub open spec fn spec_xdp_flags(self) -> u32 {
        match self {
            XskMode::Skb => XDP_FLAGS_SKB_MODE,
            _ => XDP_FLAGS_DRV_MODE,
        }
    }

    /// The bind flags of the mode.
    pub open spec fn spec_bind_flags(self) -> u16 {
        match self {
            XskMode::DrvZeroCopy => XDP_ZEROCOPY,
            _ => XDP_COPY,
        }
    }

    /// The XDP attach flags of the mode.
    pub fn into_xdp_flags(self) -> (r: u32)
        ensures
            r == self.spec_xdp_flags(),
    {
        match self {
            XskMode::Skb => XDP_FLAGS_SKB_MODE,
            XskMode::Drv | XskMode::DrvZeroCopy => XDP_FLAGS_DRV_MODE,
        }
    }

    /// The bind flags of the mode.
    pub fn into_bind_flags(self) -> (r: u16)
        ensures
            r == self.spec_bind_flags(),
    {
        match self {
            XskMode::Skb | XskMode::Drv => XDP_COPY,
            XskMode::DrvZeroCopy => XDP_ZEROCOPY,
        }
    }

    /// The mode named `skb`, `drv` or `drv-zc`.
    pub fn from_name(s: &[u8]) -> (r: Result<XskMode>)
        ensures
            r == (if s@ == seq![115u8, 107u8, 98u8] {
                Ok(XskMode::Skb)
            } else if s@ == seq![100u8, 114u8, 118u8] {
                Ok(XskMode::Drv)
            } else if s@ == seq![100u8, 114u8, 118u8, 45u8, 122u8, 99u8] {
                Ok(XskMode::DrvZeroCopy)
            } else {
                Err(Error::InvalidXskMode)
            }),
    {
        if s.len() == 3 && s[0] == 115u8 && s[1] == 107u8 && s[2] == 98u8 {
            assert(s@ =~= seq![115u8, 107u8, 98u8]);
            Ok(XskMode::Skb)
        } else if s.len() == 3 && s[0] == 100u8 && s[1] == 114u8 && s[2] == 118u8 {
            assert(s@ =~= seq![100u8, 114u8, 118u8]);
            Ok(XskMode::Drv)
        } else if s.len() == 6 && s[0] == 100u8 && s[1] == 114u8 && s[2] == 118u8 && s[3] == 45u8 && s[4]
            == 122u8 && s[5] == 99u8 {
            assert(s@ =~= seq![100u8, 114u8, 118u8, 45u8, 122u8, 99u8]);
            Ok(XskMode::DrvZeroCopy)
        } else {
            Err(Error::InvalidXskMode)
        }
    }
}

/// Whether the kernel is asked to flag the rings when it needs a wakeup.
#[derive(Debug, Clone, Copy, PartialEq, Eq)]
pub struct NeedsWakeup {
    pub value: bool,
}

impl NeedsWakeup {
    /// Wraps `value`.
    pub fn new(value: bool) -> (r: Self)
        ensures
            r.value == value,
    {
        NeedsWakeup { value }
    }

    /// The bind flags of the setting.
    pub fn into_bind_flags(self) -> (r: u16)
        ensures
            r == (if self.value { XDP_USE_NEED_WAKEUP } else { 0 }),
    {
        if self.value {
            XDP_USE_NEED_WAKEUP
        } else {
            0
        }
    }
}

/// `r` reports that the setting called `name` is missing.
pub open spec fn reports_missing(r: Result<()>, name: Seq<char>) -> bool {
    match r {
        Err(Error::InvalidConfigWithMissingProperty(p)) => p@ == name,
        _ => false,
    }
}

/// The settings of an XSK endpoint. Addresses are IPv4 addresses in host
/// order.
pub struct Configuration {
    pub interface: Option<String>,
    pub address: Option<u32>,
    pub port: Option<u16>,
    pub xdp_prog_path: String,
    pub queues: Vec<usize>,
    pub socks_per_queue: usize,
    pub rx_size: usize,
    pub tx_size: usize,
    pub frame_size: usize,
    pub mode: XskMode,
    pub needs_wakeup: NeedsWakeup,
}

impl Configuration {
    /// The default settings: no interface, address or port; program at
    /// `./kern/xsk_kern.o`; queue 0; one socket per queue; 2048-slot rings;
    /// 4096-byte frames; skb mode; wakeups on.
    pub fn new() -> (r: Self)
        ensures
            r.interface is None,
            r.address is None,
            r.port is None,
            r.queues@ == seq![0usize],
            r.socks_per_queue == 1,
            r.rx_size == XSK_RING_PROD_DEFAULT_NUM_DESCS,
            r.tx_size == XSK_RING_PROD_DEFAULT_NUM_DESCS,
            r.frame_size == XSK_UMEM_DEFAULT_FRAME_SIZE,
            r.mode == XskMode::Skb,
            r.needs_wakeup.value,
    {
        Configuration {
            interface: None,
            address: None,
            port: None,
            xdp_prog_path: "./kern/xsk_kern.o".to_string(),
            queues: vec![0usize],
            socks_per_queue: 1,
            rx_size: XSK_RING_PROD_DEFAULT_NUM_DESCS,
            tx_size: XSK_RING_PROD_DEFAULT_NUM_DESCS,
            frame_size: XSK_UMEM_DEFAULT_FRAME_SIZE,
            mode: XskMode::Skb,
            needs_wakeup: NeedsWakeup::new(true),
        }
    }

    /// Sets the listening interface.
    pub fn set_interface(&mut self, name: String)
        ensures
            *final(self) == (Configuration { interface: Some(name), ..*old(self) }),
    {
        self.interface = Some(name);
    }

    /// The listening interface.
    pub fn interface(&self) -> (r: &str)
        requires
            self.interface is Some,
        ensures
            r@ == self.interface->0@,
    {
        self.interface.as_ref().unwrap().as_str()
    }

    /// Sets the listening IPv4 address.
    pub fn set_bind_address(&mut self, addr: u32)
        ensures
            *final(self) == (Configuration { address: Some(addr), ..*old(self) }),
    {
        self.address = Some(addr);
    }

    /// The listening IPv4 address.
    pub fn bind_address(&self) -> (r: u32)
        requires
            self.address is Some,
        ensures
            r == self.address->0,
    {
        self.address.unwrap()
    }

    /// Sets the listening UDP port.
    pub fn set_bind_port(&mut self, port: u16)
        ensures
            *final(self) == (Configuration { port: Some(port), ..*old(self) }),
    {
        self.port = Some(port);
    }

    /// The listening UDP port.
    pub fn bind_port(&self) -> (r: u16)
        requires
            self.port is Some,
        ensures
            r == self.port->0,
    {
        self.port.unwrap()
    }

    /// Sets the path of the XDP program.
    pub fn set_xdp_prog_path(&mut self, value: String)
        ensures
            *final(self) == (Configuration { xdp_prog_path: value, ..*old(self) }),
    {
        self.xdp_prog_path = value;
    }

    /// Sets the queues to run on.
    pub fn set_queues(&mut self, value: Vec<usize>)
        ensures
            *final(self) == (Configuration { queues: value, ..*old(self) }),
    {
        self.queues = value;
    }

    /// Sets the number of sockets per queue.
    pub fn set_socks_per_queue(&mut self, value: usize)
        ensures
            *final(self) == (Configuration { socks_per_queue: value, ..*old(self) }),
    {
        self.socks_per_queue = value;
    }

    /// Sets the number of descriptors of each RX ring.
    pub fn set_rx_size(&mut self, value: usize)
        ensures
            *final(self) == (Configuration { rx_size: value, ..*old(self) }),
    {
        self.rx_size = value;
    }

    /// Sets the number of descriptors of each TX ring.
    pub fn set_tx_size(&mut self, value: usize)
        ensures
            *final(self) == (Configuration { tx_size: value, ..*old(self) }),
    {
        self.tx_size = value;
    }

    /// Sets the frame size.
    pub fn set_frame_size(&mut self, value: usize)
        ensures
            *final(self) == (Configuration { frame_size: value, ..*old(self) }),
    {
        self.frame_size = value;
    }

    /// Sets the mode of operation.
    pub fn set_mode(&mut self, value: XskMode)
        ensures
            *final(self) == (Configuration { mode: value, ..*old(self) }),
    {
        self.mode = value;
    }

    /// Sets the wakeup behaviour.
    pub fn set_needs_wakeup(&mut self, value: NeedsWakeup)
        ensures
            *final(self) == (Configuration { needs_wakeup: value, ..*old(self) }),
    {
        self.needs_wakeup = value;
    }

    /// Checks that the mandatory settings are present: the interface, the
    /// bind address and the bind port, in that order.
    pub fn validate(&self) -> (r: Result<()>)
        ensures
            self.interface is None ==> reports_missing(r, "interface"@),
            self.interface is Some && self.address is None ==> reports_missing(r, "bind address"@),
            self.interface is Some && self.address is Some && self.port is None ==> reports_missing(
                r,
                "bind port"@,
            ),
            r is Ok <==> (self.interface is Some && self.address is Some && self.port is Some),
    {
        if self.interface.is_none() {
            return Err(Error::InvalidConfigWithMissingProperty("interface".to_string()));
        }
        if self.address.is_none() {
            return Err(Error::InvalidConfigWithMissingProperty("bind address".to_string()));
        }
        if self.port.is_none() {
            return Err(Error::InvalidConfigWithMissingProperty("bind port".to_string()));
        }
        Ok(())
    }
}

impl Default for Configuration {
    /// The default settings (see [`Configuration::new`]).
    fn default() -> (r: Self)
        ensures
            r.interface is None,
            r.address is None,
            r.port is None,
            r.queues@ == seq![0usize],
            r.socks_per_queue == 1,
            r.rx_size == XSK_RING_PROD_DEFAULT_NUM_DESCS,
            r.tx_size == XSK_RING_PROD_DEFAULT_NUM_DESCS,
            r.frame_size == XSK_UMEM_DEFAULT_FRAME_SIZE,
            r.mode == XskMode::Skb,
            r.needs_wakeup.value,
    {
        Configuration::new()
    }
}

} // verus!
