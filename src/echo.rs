//! An application that answers every datagram with its own payload.
use vstd::prelude::*;

use crate::net::app::{App, Socket};
use crate::net::stack::{udp_frame, NetStack, PAYLOAD_OFFSET};
use crate::net::Result;
use crate::xsk::ring::advance;
use crate::xsk::socket::TxSocket;
use crate::xsk::umem::Umem;

verus! {

/// `ns2` and `umem` are `ns` after `payload` was sent back to `socket`:
/// the frame of the next TX slot holds the Ethernet, IPv4 and UDP headers
/// from the stack to the socket and the payload, and the slot was taken and
/// handed to the TX path.
pub open spec fn echoed(ns: NetStack, ns2: NetStack, umem: Umem, socket: Socket, payload: Seq<u8>) -> bool {
    let tx = ns.xsk_handle.tx;
    let slot = tx.slot(tx.cached_prod);
    let addr = tx.ring@[slot].addr;
    let n = PAYLOAD_OFFSET + payload.len();
    &&& umem.frame_allocator.buffer@.subrange(addr as int, addr + n) == udp_frame(ns, socket, n, payload)
    &&& ns2.xsk_handle.tx.cached_prod == advance(tx.cached_prod, 1)
    &&& TxSocket::transmitted(
        ns.xsk_handle,
        ns2.xsk_handle,
        slot,
        n as u32,
        tx.pending() + 1,
        TxSocket::run_after(ns.xsk_handle, slot, tx.pending() + 1),
    )
}

/// `s2` is `s` with `(socket, payload)` added at the end.
pub open spec fn scheduled_one(
    s: Seq<(Socket, Vec<u8>)>,
    s2: Seq<(Socket, Vec<u8>)>,
    socket: Socket,
    payload: Seq<u8>,
) -> bool {
    &&& s2.len() == s.len() + 1
    &&& s2.subrange(0, s.len() as int) == s
    &&& s2.last().0 == socket
    &&& s2.last().1@ == payload
}

/// The echo application. With `repeat`, every datagram is answered a
/// second time later: the second answers wait in `scheduled` until the
/// caller sends them.
pub struct EchoApp {
    pub repeat: bool,
    pub scheduled: Vec<(Socket, Vec<u8>)>,
}

impl EchoApp {
    /// An echo application; `repeat` asks for a second, later answer.
    pub fn new(repeat: bool) -> (r: Self)
        ensures
            r.repeat == repeat,
            r.scheduled@.len() == 0,
    {
        EchoApp { repeat, scheduled: Vec::new() }
    }

    /// Sends `rx_payload` back to `socket`: the frame of the TX slot taken
    /// then holds the Ethernet, IPv4 and UDP headers from this stack to the
    /// socket, and the payload. Fails when every TX slot is held, or when
    /// the payload does not fit in a frame.
    pub fn send_echo_response(
        netstack: &mut NetStack,
        umem: &mut Umem,
        socket: &Socket,
        rx_payload: &[u8],
    ) -> (r: Result<()>)
        requires
            old(netstack).wf_with(*old(umem)),
            old(netstack).arp_table.spec_get(socket.source_address) is Some,
        ensures
            final(netstack).wf_with(*final(umem)),
            final(netstack).same_settings(*old(netstack)),
            r is Ok <==> old(netstack).xsk_handle.tx.free_slots() >= 1 && PAYLOAD_OFFSET
                + rx_payload@.len() <= old(netstack).xsk_handle.frame_size,
            r is Ok ==> echoed(*old(netstack), *final(netstack), *final(umem), *socket, rx_payload@),
            final(umem).frame_allocator.buffer@.len() == old(umem).frame_allocator.buffer@.len(),
            final(umem).fq == old(umem).fq,
    {
        let mut tx_payload = netstack.new_tx_payload_buf(umem)?;
        match tx_payload.packet_buf().put_bytes(rx_payload) {
            Ok(_) => {},
            Err(e) => return Err(e),
        }
        proof {
            assert(tx_payload.packet_buf.buffer@.subrange(
                PAYLOAD_OFFSET as int,
                PAYLOAD_OFFSET + rx_payload@.len(),
            ) =~= rx_payload@);
        }
        netstack.send_payload(umem, socket, &mut tx_payload)
    }

    /// Answers a datagram from `socket`: sends `rx_payload` back (see
    /// [`EchoApp::send_echo_response`]) and, with `repeat`, keeps a copy for
    /// a second answer once the first was sent.
    pub fn answer(
        &mut self,
        netstack: &mut NetStack,
        umem: &mut Umem,
        socket: &Socket,
        rx_payload: &[u8],
    ) -> (r: Result<()>)
        requires
            old(netstack).wf_with(*old(umem)),
            old(netstack).arp_table.spec_get(socket.source_address) is Some,
        ensures
            final(netstack).wf_with(*final(umem)),
            final(netstack).same_settings(*old(netstack)),
            r is Ok <==> old(netstack).xsk_handle.tx.free_slots() >= 1 && PAYLOAD_OFFSET
                + rx_payload@.len() <= old(netstack).xsk_handle.frame_size,
            r is Ok ==> echoed(*old(netstack), *final(netstack), *final(umem), *socket, rx_payload@),
            final(umem).fq == old(umem).fq,
            final(self).repeat == old(self).repeat,
            r is Ok && old(self).repeat ==> scheduled_one(
                old(self).scheduled@,
                final(self).scheduled@,
                *socket,
                rx_payload@,
            ),
            !(r is Ok && old(self).repeat) ==> final(self).scheduled == old(self).scheduled,
    {
        EchoApp::send_echo_response(netstack, umem, socket, rx_payload)?;
        if self.repeat {
            self.schedule_echo_response(socket, rx_payload);
        }
        Ok(())
    }

    /// Keeps `rx_payload` for a second answer to `socket`.
    fn schedule_echo_response(&mut self, socket: &Socket, rx_payload: &[u8])
        ensures
            final(self).repeat == old(self).repeat,
            scheduled_one(old(self).scheduled@, final(self).scheduled@, *socket, rx_payload@),
    {
        let payload = crate::net::packet_buf::copy_range(rx_payload, 0, rx_payload.len());
        proof {
            assert(rx_payload@.subrange(0, rx_payload@.len() as int) =~= rx_payload@);
        }
        self.scheduled.push((*socket, payload));
        proof {
            assert(self.scheduled@.subrange(0, old(self).scheduled@.len() as int) =~= old(
                self,
            ).scheduled@);
        }
    }

    /// Takes the second answers that are due, leaving none.
    pub fn take_scheduled(&mut self) -> (r: Vec<(Socket, Vec<u8>)>)
        ensures
            r == old(self).scheduled,
            final(self).scheduled@.len() == 0,
            final(self).repeat == old(self).repeat,
    {
        let mut taken: Vec<(Socket, Vec<u8>)> = Vec::new();
        std::mem::swap(&mut taken, &mut self.scheduled);
        taken
    }
}

impl App for EchoApp {
    /// The echo application sends the payload back to the socket and, with
    /// `repeat`, keeps a copy for a second answer (see [`EchoApp::answer`]).
    open spec fn handled(
        self,
        new: Self,
        ns: NetStack,
        ns2: NetStack,
        umem: Umem,
        umem2: Umem,
        socket: Socket,
        payload: Seq<u8>,
        r: Result<()>,
    ) -> bool {
        &&& r is Ok <==> ns.xsk_handle.tx.free_slots() >= 1 && PAYLOAD_OFFSET + payload.len()
            <= ns.xsk_handle.frame_size
        &&& r is Ok ==> echoed(ns, ns2, umem2, socket, payload)
        &&& new.repeat == self.repeat
        &&& r is Ok && self.repeat ==> scheduled_one(self.scheduled@, new.scheduled@, socket, payload)
        &&& !(r is Ok && self.repeat) ==> new.scheduled == self.scheduled
    }

    fn rx_payload(
        &mut self,
        netstack: &mut NetStack,
        umem: &mut Umem,
        socket: &Socket,
        rx_payload: &[u8],
    ) -> (r: Result<()>) {
        self.answer(netstack, umem, socket, rx_payload)
    }
}

} // verus!
