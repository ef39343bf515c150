//! The service's phases, and what it makes of each message that arrives at
//! its endpoint.

use vstd::prelude::*;
use crate::device::ShmView;
use crate::error::Error;
use crate::gopher::config::{effective_buffer_size, NetworkConfig};
use crate::gopher::network::{answers_all, Request, Response};
use crate::gopher::{enqueue_names, names_of, GopherServer, InitPhase, RingMapping};
use crate::layout::PAGE_SIZE;
use crate::protocol::{
    ACCEPT, BIND, CLOSE, CONNECT, KERNEL_PROTO, LISTEN, NETWORK_PROTO, NOTIFY, NOTIFY_HOOK,
    NOTIFY_IO_URING_CQ, NOTIFY_IO_URING_SQ, PROCESS_IOURING, RECV, RECV_CHUNK, SEND,
    SETUP_IOURING, SOCKET,
};

verus! {

/// A message as it arrives: the tag's protocol and label, the sender's
/// badge, whether a capability came with it, the first registers, and the
/// bytes of the buffer.
pub struct Message {
    pub proto: usize,
    pub label: usize,
    pub badge: usize,
    pub has_cap: bool,
    pub mr0: usize,
    pub mr1: usize,
    pub mr2: usize,
    pub data: Vec<u8>,
}

/// What is sent back to a caller: the tag says success or error, register 0
/// holds the result or the error's code, and the buffer holds the bytes.
pub struct Reply {
    pub ok: bool,
    pub mr0: usize,
    pub data: Vec<u8>,
}

/// Which call a message makes.
#[derive(Clone, Copy, Debug, PartialEq, Eq, Structural)]
pub enum Call {
    Socket,
    Bind,
    Listen,
    Connect,
    Accept,
    Close,
    Send,
    Recv,
    SetupIouring,
    ProcessIouring,
    Notify,
    Unknown,
}

/// What is left to do outside once a message is dispatched, before any reply
/// is sent.
#[derive(Clone, Copy, Debug, PartialEq, Eq, Structural)]
pub enum Work {
    Nothing,
    /// A notification came: ask the device manager for its devices if
    /// `sync`, and poll the interfaces if `poll`.
    Notified { sync: bool, poll: bool },
    /// Map the caller's ring at the place that was taken for it; with
    /// `has_frame`, the frame is the capability that came with the message.
    MapRing { badge: usize, ring: RingMapping, has_frame: bool },
    /// Drain the submission queue of the badge's ring, have the requests
    /// served, and fill the completion queue with the responses.
    DrainRing { badge: usize },
}

/// What dispatching a message gives: the result for the caller, and the work
/// to do outside.
pub struct Turn {
    /// The reply to send, or the error to report. `Error::Success` says that
    /// a notification was handled, to which nothing is replied.
    pub outcome: Result<Reply, Error>,
    pub work: Work,
}

/// What the initialization is told.
pub enum InitEvent {
    Start,
    /// The configuration file exists and has that many bytes.
    ConfigFound { size: usize },
    /// There is no configuration file.
    ConfigMissing,
    /// The configuration that was read from the mapped file; none where the
    /// file could not be read as a configuration.
    ConfigRead { config: Option<NetworkConfig> },
    /// The pool was allocated and mapped where it was planned: the slot of
    /// its frame, and its physical address.
    PoolReady { frame: usize, paddr: usize },
    Hooked,
    /// Registering was tried; it is not fatal where it failed.
    Registered,
    /// The names of the network devices that exist; none where the device
    /// manager did not answer.
    Devices { names: Vec<String> },
    /// A step outside failed.
    Failed { error: Error },
}

/// What the initialization asks for next.
#[derive(Clone, Copy, Debug, PartialEq, Eq, Structural)]
pub enum InitAction {
    /// Ask the resource manager for the configuration file.
    FetchConfig,
    /// Map the configuration file there, and read it.
    MapConfig { ring: RingMapping },
    /// Allocate that many pages for DMA and map them there.
    AllocPool { pages: usize, pool: RingMapping },
    /// Have the device manager notify the service of network devices.
    HookDevices,
    /// Register the service's endpoint under the network service's key.
    RegisterService,
    /// Ask the device manager for the network devices that exist.
    QueryDevices,
    /// Initialization is complete.
    Done,
}

/// The call that a protocol id and a label name.
pub open spec fn decode(proto: usize, label: usize) -> Call {
    if proto == NETWORK_PROTO {
        if label == SOCKET {
            Call::Socket
        } else if label == BIND {
            Call::Bind
        } else if label == LISTEN {
            Call::Listen
        } else if label == CONNECT {
            Call::Connect
        } else if label == ACCEPT {
            Call::Accept
        } else if label == CLOSE {
            Call::Close
        } else if label == SEND {
            Call::Send
        } else if label == RECV {
            Call::Recv
        } else if label == SETUP_IOURING {
            Call::SetupIouring
        } else if label == PROCESS_IOURING {
            Call::ProcessIouring
        } else {
            Call::Unknown
        }
    } else if proto == KERNEL_PROTO && label == NOTIFY {
        Call::Notify
    } else {
        Call::Unknown
    }
}

/// Whether `reply` is what is sent for the outcome: a handled notification
/// gets no reply, an error gets the error tag with its code in register 0.
pub open spec fn replies(outcome: Result<Reply, Error>, reply: Option<Reply>) -> bool {
    match outcome {
        Ok(r) => reply == Some(r),
        Err(Error::Success) => reply is None,
        Err(e) => reply matches Some(r) && !r.ok && r.mr0 == e.spec_code() && r.data@.len() == 0,
    }
}

/// The result of a call that returns a number, as its outcome carries it.
pub open spec fn value_of(outcome: Result<Reply, Error>) -> Result<usize, Error> {
    match outcome {
        Ok(reply) => Ok(reply.mr0),
        Err(e) => Err(e),
    }
}

/// The result of a call that returns nothing, as its outcome carries it.
pub open spec fn unit_of(outcome: Result<Reply, Error>) -> Result<(), Error> {
    match outcome {
        Ok(_) => Ok(()),
        Err(e) => Err(e),
    }
}

/// The result of a receive, as its outcome carries it: the count of the
/// bytes in the reply.
pub open spec fn received_of(outcome: Result<Reply, Error>) -> Result<usize, Error> {
    match outcome {
        Ok(reply) => Ok(reply.data@.len() as usize),
        Err(e) => Err(e),
    }
}

/// Whether a successful outcome is a success reply without bytes.
pub open spec fn bare(outcome: Result<Reply, Error>) -> bool {
    outcome matches Ok(reply) ==> reply.ok && reply.data@.len() == 0
}

/// Whether a successful outcome is a success reply without bytes and with
/// zero in register 0.
pub open spec fn empty(outcome: Result<Reply, Error>) -> bool {
    outcome matches Ok(reply) ==> reply.ok && reply.data@.len() == 0 && reply.mr0 == 0
}

/// A register read as a signed 32-bit number: its low 32 bits.
pub open spec fn register_i32(value: usize) -> i32 {
    #[verifier::truncate]
    (value as i32)
}

/// Reads a register as a signed 32-bit number.
pub fn read_i32(value: usize) -> (r: i32)
    ensures
        r == register_i32(value),
{
    #[verifier::truncate]
    (value as i32)
}

/// Finds the call that a message makes.
pub fn classify(proto: usize, label: usize) -> (call: Call)
    ensures
        call == decode(proto, label),
{
    if proto == NETWORK_PROTO {
        if label == SOCKET {
            Call::Socket
        } else if label == BIND {
            Call::Bind
        } else if label == LISTEN {
            Call::Listen
        } else if label == CONNECT {
            Call::Connect
        } else if label == ACCEPT {
            Call::Accept
        } else if label == CLOSE {
            Call::Close
        } else if label == SEND {
            Call::Send
        } else if label == RECV {
            Call::Recv
        } else if label == SETUP_IOURING {
            Call::SetupIouring
        } else if label == PROCESS_IOURING {
            Call::ProcessIouring
        } else {
            Call::Unknown
        }
    } else if proto == KERNEL_PROTO && label == NOTIFY {
        Call::Notify
    } else {
        Call::Unknown
    }
}

/// Decides what is replied to a dispatched message: the reply of a call
/// that succeeded, nothing for a handled notification, and for any other
/// error a reply with the error tag and the error's code in register 0.
pub fn reply_for(outcome: Result<Reply, Error>) -> (reply: Option<Reply>)
    ensures
        replies(outcome, reply),
{
    match outcome {
        Ok(reply) => Some(reply),
        Err(e) => match e {
            Error::Success => None,
            _ => Some(Reply { ok: false, mr0: e.code(), data: Vec::new() }),
        },
    }
}

/// The outcome of a call that succeeded, with its result and its bytes.
pub(crate) fn success(mr0: usize, data: Vec<u8>) -> (outcome: Result<Reply, Error>)
    ensures
        outcome matches Ok(reply) && reply.ok && reply.mr0 == mr0 && reply.data == data,
{
    Ok(Reply { ok: true, mr0, data })
}

impl GopherServer {
    /// The mapping of the badge's ring, where it has one.
    pub open spec fn ring_of(&self, badge: usize) -> Option<RingMapping> {
        if self.uring_servers@.contains_key(badge) {
            Some(self.uring_servers@[badge])
        } else {
            None
        }
    }

    /// What `setup_iouring` returns and leaves behind: a socket that is known
    /// gets the next whole pages of the ring region that hold `size` bytes,
    /// and they are registered for its badge; nothing else changes.
    pub open spec fn setup_post(
        &self,
        after: GopherServer,
        badge: usize,
        size: usize,
        r: Result<RingMapping, Error>,
    ) -> bool {
        &&& r == (if !self.table@.contains_key(badge) {
            Err::<RingMapping, Error>(Error::NotFound)
        } else {
            match self.next_ring(size) {
                Some(ring) => Ok(ring),
                None => Err(Error::InvalidArgs),
            }
        })
        &&& r is Err ==> after == *self
        &&& r matches Ok(ring) ==> after.uring_servers@ == self.uring_servers@.insert(badge, ring)
            && after == (GopherServer {
            uring_servers: after.uring_servers,
            next_ring_vaddr: (ring.vaddr + ring.size) as usize,
            ..*self
        })
    }

    /// The set-up of a ring of up to one page, where a page is left in the
    /// ring region: the ring gets the page at the first unused address, that
    /// address moves on by a page, the ring is registered for the badge, and
    /// the sockets are as they were.
    pub proof fn lemma_setup_of_one_page(
        &self,
        after: GopherServer,
        badge: usize,
        size: usize,
        r: Result<RingMapping, Error>,
    )
        requires
            self.wf(),
            self.setup_post(after, badge, size, r),
            self.table@.contains_key(badge),
            0 < size <= PAGE_SIZE,
            self.next_ring_vaddr + PAGE_SIZE <= crate::layout::SHM_VA,
        ensures
            r == Ok::<RingMapping, Error>(
                RingMapping { vaddr: self.next_ring_vaddr, size: PAGE_SIZE },
            ),
            after.next_ring_vaddr == self.next_ring_vaddr + PAGE_SIZE,
            after.ring_of(badge) == Some(
                RingMapping { vaddr: self.next_ring_vaddr, size: PAGE_SIZE },
            ),
            after.table == self.table,
    {
        self.lemma_ring_of_one_page(size);
    }

    /// Takes the service's endpoint and the slots for replies and for
    /// received capabilities.
    pub fn listen(&mut self, endpoint: usize, reply: usize, recv: usize) -> (r: Result<(), Error>)
        ensures
            r == Ok::<(), Error>(()),
            *final(self) == (GopherServer { endpoint, reply, recv, ..*old(self) }),
    {
        self.endpoint = endpoint;
        self.reply = reply;
        self.recv = recv;
        Ok(())
    }

    /// Enters the event loop. A service that was not given its endpoint and
    /// its reply slot cannot run.
    pub fn run(&mut self) -> (r: Result<(), Error>)
        ensures
            r == (if old(self).endpoint == 0 || old(self).reply == 0 {
                Err::<(), Error>(Error::NotInitialized)
            } else {
                Ok(())
            }),
            *final(self) == (GopherServer {
                running: old(self).running || r is Ok,
                ..*old(self)
            }),
    {
        if self.endpoint == 0 || self.reply == 0 {
            return Err(Error::NotInitialized);
        }
        self.running = true;
        Ok(())
    }

    /// Ends the event loop after the current turn. Stopping twice is
    /// stopping once.
    pub fn stop(&mut self)
        ensures
            *final(self) == (GopherServer { running: false, ..*old(self) }),
    {
        self.running = false;
    }

    /// Registers a ring for the badge's socket: the ring gets the next whole
    /// pages of the ring region that hold `size` bytes, and replaces any ring
    /// that the badge had.
    pub fn setup_iouring(&mut self, badge: usize, size: usize) -> (r: Result<RingMapping, Error>)
        requires
            old(self).wf(),
        ensures
            final(self).wf(),
            old(self).setup_post(*final(self), badge, size, r),
    {
        if !self.table.contains(badge) {
            return Err(Error::NotFound);
        }
        let ring = match self.alloc_ring(size) {
            Some(ring) => ring,
            None => {
                return Err(Error::InvalidArgs);
            },
        };
        self.uring_servers.insert(badge, ring);
        Ok(ring)
    }

    /// Forgets the badge's ring, as when it could not be mapped.
    pub fn detach_ring(&mut self, badge: usize)
        requires
            old(self).wf(),
        ensures
            final(self).wf(),
            final(self).uring_servers@ == old(self).uring_servers@.remove(badge),
            *final(self) == (GopherServer {
                uring_servers: final(self).uring_servers,
                ..*old(self)
            }),
    {
        self.uring_servers.remove(&badge);
    }

    /// Serves the requests that were drained from the badge's ring, in their
    /// order, and returns one response for each. A socket that was closed
    /// since the ring was set up answers each request with `NotFound`.
    pub fn process_iouring(&mut self, badge: usize, requests: &Vec<Request>) -> (r: Result<
        Vec<Response>,
        Error,
    >)
        requires
            old(self).wf(),
        ensures
            final(self).wf(),
            old(self).ring_of(badge) is None <==> r == Err::<Vec<Response>, Error>(
                Error::NotFound,
            ),
            r is Ok || r == Err::<Vec<Response>, Error>(Error::NotFound),
            r is Err ==> *final(self) == *old(self),
            r matches Ok(responses) ==> {
                &&& answers_all(
                    requests@,
                    responses@,
                    old(self).table@.contains_key(badge),
                    old(self).table.tx_open(badge),
                    old(self).table.rx_open(badge),
                    old(self).table.tx_room(badge),
                    old(self).table.rx_queue(badge),
                )
                &&& old(self).table.same_sockets(final(self).table)
                &&& *final(self) == (GopherServer { table: final(self).table, ..*old(self) })
            },
    {
        if !self.uring_servers.contains_key(&badge) {
            return Err(Error::NotFound);
        }
        Ok(self.table.serve_all(badge, requests))
    }

    /// What dispatching a message returns and leaves behind. Each call is
    /// made on the socket of the sender's badge, with the table's own
    /// contract; a notification only says what is to be done outside; any
    /// other message is refused.
    pub open spec fn dispatch_post(&self, after: GopherServer, msg: Message, turn: Turn) -> bool {
        match decode(msg.proto, msg.label) {
            Call::Socket => {
                &&& self.table.socket_post(
                    after.table,
                    register_i32(msg.mr0),
                    register_i32(msg.mr1),
                    value_of(turn.outcome),
                )
                &&& bare(turn.outcome)
                &&& turn.work == Work::Nothing
                &&& after == (GopherServer { table: after.table, ..*self })
            },
            Call::Bind => {
                &&& self.table.bind_post(after.table, msg.badge, msg.data@, unit_of(turn.outcome))
                &&& empty(turn.outcome)
                &&& turn.work == Work::Nothing
                &&& after == (GopherServer { table: after.table, ..*self })
            },
            Call::Listen => {
                &&& unit_of(turn.outcome) == self.table.listen_result(msg.badge)
                &&& empty(turn.outcome)
                &&& turn.work == Work::Nothing
                &&& after == *self
            },
            Call::Connect | Call::Accept | Call::Unknown => {
                &&& turn.outcome matches Err(e)
                &&& e == Error::NotSupported
                &&& turn.work == Work::Nothing
                &&& after == *self
            },
            Call::Close => {
                &&& self.table.close_post(after.table, msg.badge)
                &&& turn.outcome is Ok
                &&& empty(turn.outcome)
                &&& turn.work == Work::Nothing
                &&& after == (GopherServer { table: after.table, ..*self })
            },
            Call::Send => {
                &&& self.table.send_post(
                    after.table,
                    msg.badge,
                    msg.data@,
                    value_of(turn.outcome),
                )
                &&& bare(turn.outcome)
                &&& turn.work == Work::Nothing
                &&& after == (GopherServer { table: after.table, ..*self })
            },
            Call::Recv => {
                &&& self.table.recv_post(
                    after.table,
                    msg.badge,
                    RECV_CHUNK as nat,
                    received_of(turn.outcome),
                )
                &&& turn.outcome matches Ok(reply) ==> reply.ok && reply.mr0 == 0
                    && reply.data@.len() <= RECV_CHUNK && reply.data@ == self.table.rx_queue(
                    msg.badge,
                ).take(reply.data@.len() as int)
                &&& turn.work == Work::Nothing
                &&& after == (GopherServer { table: after.table, ..*self })
            },
            Call::SetupIouring => if !self.table@.contains_key(msg.badge) {
                &&& turn.outcome matches Err(e)
                &&& e == Error::NotFound
                &&& turn.work == Work::Nothing
                &&& after == *self
            } else {
                match self.next_ring(msg.mr1) {
                    Some(ring) => {
                        &&& turn.outcome is Ok
                        &&& empty(turn.outcome)
                        &&& turn.work == (Work::MapRing {
                            badge: msg.badge,
                            ring,
                            has_frame: msg.has_cap,
                        })
                        &&& after.uring_servers@ == self.uring_servers@.insert(msg.badge, ring)
                        &&& after == (GopherServer {
                            uring_servers: after.uring_servers,
                            next_ring_vaddr: (ring.vaddr + ring.size) as usize,
                            ..*self
                        })
                    },
                    None => {
                        &&& turn.outcome matches Err(e)
                        &&& e == Error::InvalidArgs
                        &&& turn.work == Work::Nothing
                        &&& after == *self
                    },
                }
            },
            Call::ProcessIouring => {
                &&& after == *self
                &&& if self.ring_of(msg.badge) is Some {
                    &&& turn.outcome is Ok
                    &&& empty(turn.outcome)
                    &&& turn.work == (Work::DrainRing { badge: msg.badge })
                } else {
                    &&& turn.outcome matches Err(e)
                    &&& e == Error::NotFound
                    &&& turn.work == Work::Nothing
                }
            },
            Call::Notify => {
                &&& after == *self
                &&& turn.outcome matches Err(e)
                &&& e == Error::Success
                &&& turn.work == (Work::Notified {
                    sync: msg.badge & NOTIFY_HOOK != 0,
                    poll: msg.badge & NOTIFY_IO_URING_SQ != 0 || msg.badge & NOTIFY_IO_URING_CQ
                        != 0,
                })
            },
        }
    }

    /// Dispatches one message by its protocol id and label. A socket call is
    /// made on the socket of the sender's badge and is answered; a call on a
    /// ring leaves work to do before its answer is sent; a notification is
    /// never answered.
    pub fn dispatch(&mut self, msg: &Message) -> (turn: Turn)
        requires
            old(self).wf(),
        ensures
            final(self).wf(),
            old(self).dispatch_post(*final(self), *msg, turn),
    {
        let badge = msg.badge;
        match classify(msg.proto, msg.label) {
            Call::Socket => {
                let domain = read_i32(msg.mr0);
                let socket_type = read_i32(msg.mr1);
                let protocol = read_i32(msg.mr2);
                let outcome = match self.table.socket(domain, socket_type, protocol) {
                    Ok(badge) => success(badge, Vec::new()),
                    Err(e) => Err(e),
                };
                Turn { outcome, work: Work::Nothing }
            },
            Call::Bind => {
                let outcome = match self.table.bind(badge, msg.data.as_slice()) {
                    Ok(()) => success(0, Vec::new()),
                    Err(e) => Err(e),
                };
                Turn { outcome, work: Work::Nothing }
            },
            Call::Listen => {
                let backlog = read_i32(msg.mr0);
                let outcome = match self.table.listen(badge, backlog) {
                    Ok(()) => success(0, Vec::new()),
                    Err(e) => Err(e),
                };
                Turn { outcome, work: Work::Nothing }
            },
            Call::Connect => {
                let outcome = match self.table.connect(badge, msg.data.as_slice()) {
                    Ok(()) => success(0, Vec::new()),
                    Err(e) => Err(e),
                };
                Turn { outcome, work: Work::Nothing }
            },
            Call::Accept => {
                let outcome = match self.table.accept(badge) {
                    Ok(peer) => success(peer, Vec::new()),
                    Err(e) => Err(e),
                };
                Turn { outcome, work: Work::Nothing }
            },
            Call::Close => {
                let outcome = match self.table.close(badge) {
                    Ok(()) => success(0, Vec::new()),
                    Err(e) => Err(e),
                };
                Turn { outcome, work: Work::Nothing }
            },
            Call::Send => {
                let outcome = match self.table.send(badge, msg.data.as_slice(), 0) {
                    Ok(len) => success(len, Vec::new()),
                    Err(e) => Err(e),
                };
                Turn { outcome, work: Work::Nothing }
            },
            Call::Recv => {
                let mut buffer: Vec<u8> = vec![0u8; RECV_CHUNK];
                let outcome = match self.table.recv(badge, &mut buffer, 0) {
                    Ok(len) => {
                        buffer.truncate(len);
                        success(0, buffer)
                    },
                    Err(e) => Err(e),
                };
                Turn { outcome, work: Work::Nothing }
            },
            Call::SetupIouring => {
                match self.setup_iouring(badge, msg.mr1) {
                    Ok(ring) => Turn {
                        outcome: success(0, Vec::new()),
                        work: Work::MapRing { badge, ring, has_frame: msg.has_cap },
                    },
                    Err(e) => Turn { outcome: Err(e), work: Work::Nothing },
                }
            },
            Call::ProcessIouring => {
                if self.uring_servers.contains_key(&badge) {
                    Turn { outcome: success(0, Vec::new()), work: Work::DrainRing { badge } }
                } else {
                    Turn { outcome: Err(Error::NotFound), work: Work::Nothing }
                }
            },
            Call::Notify => {
                let sync = badge & NOTIFY_HOOK != 0;
                let poll = badge & NOTIFY_IO_URING_SQ != 0 || badge & NOTIFY_IO_URING_CQ != 0;
                Turn { outcome: Err(Error::Success), work: Work::Notified { sync, poll } }
            },
            Call::Unknown => Turn { outcome: Err(Error::NotSupported), work: Work::Nothing },
        }
    }

    /// Every call is answered and no notification is: the outcome of a
    /// dispatched message is the sentinel for a handled notification exactly
    /// where the message is a kernel notification.
    pub proof fn lemma_calls_are_answered(&self, after: GopherServer, msg: Message, turn: Turn)
        requires
            self.dispatch_post(after, msg, turn),
        ensures
            decode(msg.proto, msg.label) == Call::Notify <==> (turn.outcome matches Err(e) && e
                == Error::Success),
            forall|reply: Option<Reply>|
                replies(turn.outcome, reply) ==> (reply is None <==> decode(msg.proto, msg.label)
                    == Call::Notify),
    {
    }

    /// The initialization goes one way: a step that is accepted takes the
    /// service to the next phase in the order of the steps, a step that is
    /// refused leaves the phase, and a failure ends it. The pool is attached
    /// in one step only, and the initialization is done after the devices
    /// were asked for and not before.
    pub proof fn lemma_init_is_ordered(
        &self,
        after: GopherServer,
        event: InitEvent,
        r: Result<InitAction, Error>,
    )
        requires
            self.init_post(after, event, r),
        ensures
            r is Ok ==> after.phase.follows(self.phase),
            r is Err ==> after.phase == self.phase || after.phase == InitPhase::Failed,
            after.phase == InitPhase::Ready && self.phase != InitPhase::Ready ==> self.phase
                == InitPhase::AwaitDevices,
            after.phase.pool_attached() && !self.phase.pool_attached() ==> self.phase
                == InitPhase::AwaitPool && event is PoolReady,
    {
    }

    /// Rings and the packet pool never share an address: every ring ends
    /// where the pool region begins at the latest, and the pool lies in the
    /// pool region.
    pub proof fn lemma_regions_apart(&self, badge: usize)
        requires
            self.wf(),
            self.uring_servers@.contains_key(badge),
        ensures
            self.uring_servers@[badge].end() <= crate::layout::SHM_VA,
            self.shm_frame matches Some(pool) ==> self.uring_servers@[badge].end() <= pool.vaddr,
    {
    }

    /// From the moment the pool is attached, and so after the initialization
    /// and while the service runs, the loopback interface is in the interface
    /// list, at its head.
    pub proof fn lemma_loopback_is_up(&self)
        requires
            self.wf(),
            self.phase.pool_attached(),
        ensures
            self.interfaces@.len() > 0,
            self.interfaces@[0].is_loopback(),
    {
    }

    /// Whether a step outside can fail the initialization in this phase.
    pub open spec fn awaits(&self) -> bool {
        self.phase != InitPhase::Idle && self.phase != InitPhase::Ready && self.phase
            != InitPhase::Failed
    }

    /// What planning the pool under that configuration returns and leaves
    /// behind: the pool gets the whole pages that hold the configured byte
    /// budget, at the first unused address of the pool region.
    pub open spec fn pool_planned(
        &self,
        after: GopherServer,
        config: Option<NetworkConfig>,
        r: Result<InitAction, Error>,
    ) -> bool {
        match self.next_pool(effective_buffer_size(config)) {
            Some(pool) => {
                &&& r == Ok::<InitAction, Error>(
                    InitAction::AllocPool { pages: (pool.size / PAGE_SIZE) as usize, pool },
                )
                &&& after == (GopherServer {
                    phase: InitPhase::AwaitPool,
                    config,
                    planned_pool: Some(pool),
                    next_shm_vaddr: (pool.vaddr + pool.size) as usize,
                    ..*self
                })
            },
            None => {
                &&& r == Err::<InitAction, Error>(Error::InvalidArgs)
                &&& after == (GopherServer { phase: InitPhase::Failed, config, ..*self })
            },
        }
    }

    /// What a step of the initialization returns and leaves behind. The steps
    /// come in one order only: the configuration, the pool, the loopback
    /// interface, the hook, the registration, the devices that exist. An
    /// event out of that order is refused and changes nothing.
    pub open spec fn init_post(
        &self,
        after: GopherServer,
        event: InitEvent,
        r: Result<InitAction, Error>,
    ) -> bool {
        match event {
            InitEvent::Start => if self.phase == InitPhase::Idle {
                &&& r == Ok::<InitAction, Error>(InitAction::FetchConfig)
                &&& after == (GopherServer { phase: InitPhase::AwaitConfig, ..*self })
            } else {
                r == Err::<InitAction, Error>(Error::InvalidArgs) && after == *self
            },
            InitEvent::ConfigFound { size } => if self.phase == InitPhase::AwaitConfig {
                match self.next_ring(size) {
                    Some(ring) => {
                        &&& r == Ok::<InitAction, Error>(InitAction::MapConfig { ring })
                        &&& after == (GopherServer {
                            phase: InitPhase::AwaitConfigData,
                            next_ring_vaddr: (ring.vaddr + ring.size) as usize,
                            ..*self
                        })
                    },
                    None => {
                        &&& r == Err::<InitAction, Error>(Error::InvalidArgs)
                        &&& after == (GopherServer { phase: InitPhase::Failed, ..*self })
                    },
                }
            } else {
                r == Err::<InitAction, Error>(Error::InvalidArgs) && after == *self
            },
            InitEvent::ConfigMissing => if self.phase == InitPhase::AwaitConfig {
                self.pool_planned(after, None, r)
            } else {
                r == Err::<InitAction, Error>(Error::InvalidArgs) && after == *self
            },
            InitEvent::ConfigRead { config } => if self.phase == InitPhase::AwaitConfigData {
                self.pool_planned(after, config, r)
            } else {
                r == Err::<InitAction, Error>(Error::InvalidArgs) && after == *self
            },
            InitEvent::PoolReady { frame, paddr } => if self.phase == InitPhase::AwaitPool {
                &&& r == Ok::<InitAction, Error>(InitAction::HookDevices)
                &&& after.interfaces@ == self.interfaces@.push(after.interfaces@.last())
                &&& after.interfaces@.last().is_loopback()
                &&& after == (GopherServer {
                    phase: InitPhase::AwaitHook,
                    shm_frame: Some(
                        ShmView {
                            frame,
                            vaddr: self.planned_pool->0.vaddr,
                            paddr,
                            size: self.planned_pool->0.size,
                        },
                    ),
                    interfaces: after.interfaces,
                    ..*self
                })
            } else {
                r == Err::<InitAction, Error>(Error::InvalidArgs) && after == *self
            },
            InitEvent::Hooked => if self.phase == InitPhase::AwaitHook {
                &&& r == Ok::<InitAction, Error>(InitAction::RegisterService)
                &&& after == (GopherServer { phase: InitPhase::AwaitRegister, ..*self })
            } else {
                r == Err::<InitAction, Error>(Error::InvalidArgs) && after == *self
            },
            InitEvent::Registered => if self.phase == InitPhase::AwaitRegister {
                &&& r == Ok::<InitAction, Error>(InitAction::QueryDevices)
                &&& after == (GopherServer { phase: InitPhase::AwaitDevices, ..*self })
            } else {
                r == Err::<InitAction, Error>(Error::InvalidArgs) && after == *self
            },
            InitEvent::Devices { names } => if self.phase == InitPhase::AwaitDevices {
                &&& r == Ok::<InitAction, Error>(InitAction::Done)
                &&& after.pending_names() == enqueue_names(self.pending_names(), names_of(names@))
                &&& after == (GopherServer {
                    phase: InitPhase::Ready,
                    pending_devices: after.pending_devices,
                    ..*self
                })
            } else {
                r == Err::<InitAction, Error>(Error::InvalidArgs) && after == *self
            },
            InitEvent::Failed { error } => if self.awaits() {
                &&& r == Err::<InitAction, Error>(error)
                &&& after == (GopherServer { phase: InitPhase::Failed, ..*self })
            } else {
                r == Err::<InitAction, Error>(Error::InvalidArgs) && after == *self
            },
        }
    }

    fn plan_pool(&mut self, config: Option<NetworkConfig>) -> (r: Result<InitAction, Error>)
        requires
            old(self).wf(),
            old(self).phase.before_pool(),
        ensures
            final(self).wf(),
            old(self).pool_planned(*final(self), config, r),
    {
        let bytes = match &config {
            Some(c) => c.buffer_size,
            None => crate::gopher::config::default_buffer_size(),
        };
        self.config = config;
        match self.alloc_pool(bytes) {
            Some(pool) => {
                self.planned_pool = Some(pool);
                self.phase = InitPhase::AwaitPool;
                Ok(InitAction::AllocPool { pages: pool.size / PAGE_SIZE, pool })
            },
            None => {
                self.phase = InitPhase::Failed;
                Err(Error::InvalidArgs)
            },
        }
    }

    /// One step of the initialization: takes note of what happened outside
    /// and says what to do next.
    pub fn init(&mut self, event: InitEvent) -> (r: Result<InitAction, Error>)
        requires
            old(self).wf(),
        ensures
            final(self).wf(),
            old(self).init_post(*final(self), event, r),
            final(self).phase.pool_attached() ==> final(self).interfaces@[0].is_loopback(),
    {
        match event {
            InitEvent::Start => {
                if self.phase != InitPhase::Idle {
                    return Err(Error::InvalidArgs);
                }
                self.phase = InitPhase::AwaitConfig;
                Ok(InitAction::FetchConfig)
            },
            InitEvent::ConfigFound { size } => {
                if self.phase != InitPhase::AwaitConfig {
                    return Err(Error::InvalidArgs);
                }
                match self.alloc_ring(size) {
                    Some(ring) => {
                        self.phase = InitPhase::AwaitConfigData;
                        Ok(InitAction::MapConfig { ring })
                    },
                    None => {
                        self.phase = InitPhase::Failed;
                        Err(Error::InvalidArgs)
                    },
                }
            },
            InitEvent::ConfigMissing => {
                if self.phase != InitPhase::AwaitConfig {
                    return Err(Error::InvalidArgs);
                }
                self.plan_pool(None)
            },
            InitEvent::ConfigRead { config } => {
                if self.phase != InitPhase::AwaitConfigData {
                    return Err(Error::InvalidArgs);
                }
                self.plan_pool(config)
            },
            InitEvent::PoolReady { frame, paddr } => {
                if self.phase != InitPhase::AwaitPool {
                    return Err(Error::InvalidArgs);
                }
                let pool = match self.planned_pool {
                    Some(pool) => pool,
                    None => {
                        return Err(Error::InvalidArgs);
                    },
                };
                self.setup_loopback();
                self.shm_frame = Some(
                    ShmView { frame, vaddr: pool.vaddr, paddr, size: pool.size },
                );
                self.phase = InitPhase::AwaitHook;
                assert(self.interfaces@[0].is_loopback()) by {
                    if old(self).interfaces@.len() > 0 {
                        assert(old(self).interfaces@[0].device is Loopback);
                        assert(self.interfaces@[0] == old(self).interfaces@[0]);
                    }
                }
                Ok(InitAction::HookDevices)
            },
            InitEvent::Hooked => {
                if self.phase != InitPhase::AwaitHook {
                    return Err(Error::InvalidArgs);
                }
                self.phase = InitPhase::AwaitRegister;
                Ok(InitAction::RegisterService)
            },
            InitEvent::Registered => {
                if self.phase != InitPhase::AwaitRegister {
                    return Err(Error::InvalidArgs);
                }
                self.phase = InitPhase::AwaitDevices;
                Ok(InitAction::QueryDevices)
            },
            InitEvent::Devices { names } => {
                if self.phase != InitPhase::AwaitDevices {
                    return Err(Error::InvalidArgs);
                }
                self.sync_devices(&names);
                self.phase = InitPhase::Ready;
                Ok(InitAction::Done)
            },
            InitEvent::Failed { error } => {
                match self.phase {
                    InitPhase::Idle | InitPhase::Ready | InitPhase::Failed => {
                        return Err(Error::InvalidArgs);
                    },
                    _ => {},
                }
                self.phase = InitPhase::Failed;
                Err(error)
            },
        }
    }
}

} // verus!
