//! The service over a single device: one driver, one interface with the
//! fallback address, and the socket calls without rings.

use vstd::prelude::*;
use crate::device::{GlendaNetDevice, MacAddress};
use crate::error::Error;
use crate::gopher::network::SocketTable;
use crate::gopher::server::{
    bare, classify, decode, empty, read_i32, received_of, register_i32, success, unit_of,
    value_of, Call, Message, Turn, Work,
};
use crate::gopher::stack::{fallback_address, InterfaceState};
use crate::protocol::RECV_CHUNK;

verus! {

/// The state of the single-device service.
pub struct GopherManager {
    pub device: GlendaNetDevice,
    pub iface: InterfaceState,
    pub table: SocketTable,
    /// Capability slot of the service's endpoint; 0 before `listen`.
    pub endpoint: usize,
    /// Capability slot for the reply capability; 0 before `listen`.
    pub reply: usize,
    /// Whether the event loop goes on.
    pub running: bool,
}

/// The stack's time, in microseconds, for a timer reading in nanoseconds.
pub open spec fn instant_micros(time_ns: u64) -> i64 {
    (time_ns / 1000) as i64
}

impl GopherManager {
    /// What dispatching a message returns and leaves behind: the five calls
    /// that the single-device service knows are made on the socket of the
    /// sender's badge; any other message is refused.
    pub open spec fn dispatch_post(&self, after: GopherManager, msg: Message, turn: Turn) -> bool {
        &&& turn.work == Work::Nothing
        &&& after == (GopherManager { table: after.table, ..*self })
        &&& match decode(msg.proto, msg.label) {
            Call::Socket => {
                &&& self.table.socket_post(
                    after.table,
                    register_i32(msg.mr0),
                    register_i32(msg.mr1),
                    value_of(turn.outcome),
                )
                &&& bare(turn.outcome)
            },
            Call::Bind => {
                &&& self.table.bind_post(after.table, msg.badge, msg.data@, unit_of(turn.outcome))
                &&& empty(turn.outcome)
            },
            Call::Listen => {
                &&& turn.outcome is Ok
                &&& empty(turn.outcome)
                &&& after.table == self.table
            },
            Call::Send => {
                &&& self.table.send_post(
                    after.table,
                    msg.badge,
                    msg.data@,
                    value_of(turn.outcome),
                )
                &&& bare(turn.outcome)
            },
            Call::Recv => {
                &&& self.table.recv_post(
                    after.table,
                    msg.badge,
                    RECV_CHUNK as nat,
                    received_of(turn.outcome),
                )
                &&& turn.outcome matches Ok(reply) ==> reply.ok && reply.mr0 == 0
                    && reply.data@.len() <= RECV_CHUNK && reply.data@ == self.table.rx_queue(
                    msg.badge,
                ).take(reply.data@.len() as int)
            },
            _ => {
                &&& turn.outcome matches Err(e)
                &&& e == Error::NotSupported
                &&& after.table == self.table
            },
        }
    }

    /// A service over the driver's device of that name and hardware address:
    /// the interface has the fallback address and no gateway, and there is
    /// no socket.
    pub fn new(name: &str, mac: MacAddress) -> (manager: GopherManager)
        ensures
            manager.table.wf(),
            manager.table@ == Map::<usize, smoltcp::iface::SocketHandle>::empty(),
            manager.table.next_badge() == 1,
            manager.device.name@ == name@,
            manager.device.mac == mac,
            !manager.device.rx_pending,
            manager.iface == (InterfaceState { mac, address: fallback_address(), gateway: None }),
            manager.endpoint == 0 && manager.reply == 0,
            !manager.running,
    {
        GopherManager {
            device: GlendaNetDevice::new(name, 0, mac),
            iface: InterfaceState { mac, address: fallback_address(), gateway: None },
            table: SocketTable::new(),
            endpoint: 0,
            reply: 0,
            running: false,
        }
    }

    /// Turns a reading of the timer, in nanoseconds, into the stack's time,
    /// in microseconds.
    pub fn get_instant(time_ns: u64) -> (micros: i64)
        ensures
            micros == time_ns / 1000,
            micros == instant_micros(time_ns),
    {
        (time_ns / 1000) as i64
    }

    /// Puts the badge's socket into the listening state on the port that the
    /// address names.
    pub fn bind_socket(&mut self, badge: usize, address: &[u8]) -> (r: Result<(), Error>)
        requires
            old(self).table.wf(),
        ensures
            final(self).table.wf(),
            old(self).table.bind_post(final(self).table, badge, address@, r),
            *final(self) == (GopherManager { table: final(self).table, ..*old(self) }),
    {
        self.table.bind(badge, address)
    }

    /// Accepts any backlog, for any badge.
    pub fn listen_socket(&mut self, _badge: usize, _backlog: i32) -> (r: Result<(), Error>)
        ensures
            r == Ok::<(), Error>(()),
            *final(self) == *old(self),
    {
        Ok(())
    }

    /// Enqueues `data` on the badge's socket and returns how many bytes the
    /// transmit buffer took.
    pub fn send_socket(&mut self, badge: usize, data: &[u8], flags: i32) -> (r: Result<
        usize,
        Error,
    >)
        requires
            old(self).table.wf(),
        ensures
            final(self).table.wf(),
            old(self).table.send_post(final(self).table, badge, data@, r),
            *final(self) == (GopherManager { table: final(self).table, ..*old(self) }),
    {
        self.table.send(badge, data, flags)
    }

    /// Dequeues received bytes of the badge's socket into the front of
    /// `buffer` and returns their count.
    pub fn recv_socket(&mut self, badge: usize, buffer: &mut Vec<u8>, flags: i32) -> (r: Result<
        usize,
        Error,
    >)
        requires
            old(self).table.wf(),
        ensures
            final(self).table.wf(),
            old(self).table.recv_post(final(self).table, badge, old(buffer)@.len(), r),
            final(buffer)@.len() == old(buffer)@.len(),
            r matches Ok(n) ==> final(buffer)@.take(n as int) == old(self).table.rx_queue(
                badge,
            ).take(n as int),
            r matches Ok(n) ==> n <= old(buffer)@.len() && final(buffer)@.skip(n as int) == old(
                buffer,
            )@.skip(n as int),
            r is Err ==> final(buffer)@ == old(buffer)@,
            *final(self) == (GopherManager { table: final(self).table, ..*old(self) }),
    {
        self.table.recv(badge, buffer, flags)
    }

    /// Creates a stream socket and returns its badge.
    pub fn socket(&mut self, domain: i32, socket_type: i32, protocol: i32) -> (r: Result<
        usize,
        Error,
    >)
        requires
            old(self).table.wf(),
        ensures
            final(self).table.wf(),
            old(self).table.socket_post(final(self).table, domain, socket_type, r),
            *final(self) == (GopherManager { table: final(self).table, ..*old(self) }),
    {
        self.table.socket(domain, socket_type, protocol)
    }

    /// Nothing is left to initialize once the service is built.
    pub fn init(&mut self) -> (r: Result<(), Error>)
        ensures
            r == Ok::<(), Error>(()),
            *final(self) == *old(self),
    {
        Ok(())
    }

    /// Takes the service's endpoint and the slot for the reply capability.
    pub fn listen(&mut self, endpoint: usize, reply: usize) -> (r: Result<(), Error>)
        ensures
            r == Ok::<(), Error>(()),
            *final(self) == (GopherManager { endpoint, reply, ..*old(self) }),
    {
        self.endpoint = endpoint;
        self.reply = reply;
        Ok(())
    }

    /// Enters the event loop. A service that was not given its endpoint and
    /// its reply slot cannot run.
    pub fn run(&mut self) -> (r: Result<(), Error>)
        ensures
            r == (if old(self).endpoint == 0 || old(self).reply == 0 {
                Err::<(), Error>(Error::NotInitialized)
            } else {
                Ok(())
            }),
            *final(self) == (GopherManager {
                running: old(self).running || r is Ok,
                ..*old(self)
            }),
    {
        if self.endpoint == 0 || self.reply == 0 {
            return Err(Error::NotInitialized);
        }
        self.running = true;
        Ok(())
    }

    /// Ends the event loop after the current turn.
    pub fn stop(&mut self)
        ensures
            *final(self) == (GopherManager { running: false, ..*old(self) }),
    {
        self.running = false;
    }

    /// Dispatches one message by its protocol id and label. Every message
    /// is answered.
    pub fn dispatch(&mut self, msg: &Message) -> (turn: Turn)
        requires
            old(self).table.wf(),
        ensures
            final(self).table.wf(),
            old(self).dispatch_post(*final(self), *msg, turn),
    {
        let badge = msg.badge;
        let outcome = match classify(msg.proto, msg.label) {
            Call::Socket => {
                let domain = read_i32(msg.mr0);
                let socket_type = read_i32(msg.mr1);
                let protocol = read_i32(msg.mr2);
                match self.socket(domain, socket_type, protocol) {
                    Ok(badge) => success(badge, Vec::new()),
                    Err(e) => Err(e),
                }
            },
            Call::Bind => match self.bind_socket(badge, msg.data.as_slice()) {
                Ok(()) => success(0, Vec::new()),
                Err(e) => Err(e),
            },
            Call::Listen => match self.listen_socket(badge, read_i32(msg.mr0)) {
                Ok(()) => success(0, Vec::new()),
                Err(e) => Err(e),
            },
            Call::Send => match self.send_socket(badge, msg.data.as_slice(), 0) {
                Ok(len) => success(len, Vec::new()),
                Err(e) => Err(e),
            },
            Call::Recv => {
                let mut buffer: Vec<u8> = vec![0u8; RECV_CHUNK];
                match self.recv_socket(badge, &mut buffer, 0) {
                    Ok(len) => {
                        buffer.truncate(len);
                        success(0, buffer)
                    },
                    Err(e) => Err(e),
                }
            },
            _ => Err(Error::NotSupported),
        };
        Turn { outcome, work: Work::Nothing }
    }
}

} // verus!
