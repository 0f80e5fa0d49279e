//! A kernel-bypass UDP endpoint built on AF_XDP-style shared rings.
//!
//! The `xsk` module holds the data-plane engine: the frame pool, the
//! producer and consumer rings with their 32-bit wrapping counters, the
//! UMEM with its fill and completion queues, and the RX and TX halves of
//! each socket. The `net` module holds the user-space Ethernet, ARP, IPv4
//! and UDP layer on top of it, and `echo` a small application that answers
//! every datagram with itself.
//!
//! The rings and the UMEM area are held here as plain values. The side of
//! each ring that the kernel owns (its producer or consumer word, its flags,
//! the entries it writes) is reached through the rings' `kernel_*` and
//! `set_flags` methods and their public fields: a driver mirrors the shared
//! memory into them before a step and back after it. Each step answers with
//! what the driver must do next: poll the socket, retry a refill, or issue
//! the `sendto` calls that the TX path recorded.
pub mod net;
pub mod xsk;
pub mod echo;
