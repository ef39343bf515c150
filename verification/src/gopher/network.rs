//! The socket multiplexer: client badges, the stack sockets behind them, and
//! the socket calls.

use vstd::prelude::*;
use std::collections::BTreeMap;
use smoltcp::iface::{SocketHandle, SocketSet};
use crate::error::Error;
use crate::gopher::{GopherServer, RingMapping};
use crate::netstack::{
    add_tcp_socket, growable, least, new_socket_set, remove_socket, tcp_listen, tcp_listens,
    tcp_may_recv, tcp_may_send, tcp_recv_slice, tcp_rx_open, tcp_rx_queue, tcp_send_slice,
    tcp_sockets, tcp_tx_capacity, tcp_tx_open, tcp_tx_queue,
};
use crate::protocol::{
    AF_INET, IOURING_OP_READ, IOURING_OP_WRITE, SOCKET_BUFFER_SIZE, SOCK_STREAM,
};

verus! {

/// The port that a bind address names: its first two bytes, low byte first.
pub open spec fn address_port(address: Seq<u8>) -> Option<u16> {
    if address.len() < 2 {
        None
    } else {
        Some((address[0] as int + 256 * address[1] as int) as u16)
    }
}

/// What a transfer returns, given whether the socket's half of the
/// connection was open and, if so, what the stack made of the transfer.
pub open spec fn transfer_result(open: bool, moved: Option<usize>) -> Result<usize, Error> {
    if !open {
        Err(Error::WouldBlock)
    } else {
        match moved {
            Some(n) => Ok(n),
            None => Err(Error::Io),
        }
    }
}

/// What binding returns, given whether the badge names a socket, the port
/// that the address names, and whether the stack then took the socket into
/// the listening state.
pub open spec fn bind_result(known: bool, port: Option<u16>, listened: bool) -> Result<(), Error> {
    if !known {
        Err(Error::NotFound)
    } else if port is None {
        Err(Error::InvalidArgs)
    } else if !listened {
        Err(Error::InternalError)
    } else {
        Ok(())
    }
}

/// Reads the port from a bind address.
pub fn port_of_address(address: &[u8]) -> (port: Option<u16>)
    ensures
        port == address_port(address@),
{
    if address.len() < 2 {
        None
    } else {
        let low: u16 = address[0] as u16;
        let high: u16 = address[1] as u16;
        Some(low + 256 * high)
    }
}

/// Decides what binding returns from what was found and what the stack
/// reported.
pub fn bind_outcome(known: bool, port: Option<u16>, listened: bool) -> (r: Result<(), Error>)
    ensures
        r == bind_result(known, port, listened),
{
    if !known {
        Err(Error::NotFound)
    } else if port.is_none() {
        Err(Error::InvalidArgs)
    } else if !listened {
        Err(Error::InternalError)
    } else {
        Ok(())
    }
}

/// Decides what a transfer returns from what the stack reported.
pub fn transfer_outcome(open: bool, moved: Option<usize>) -> (r: Result<usize, Error>)
    ensures
        r == transfer_result(open, moved),
{
    if !open {
        Err(Error::WouldBlock)
    } else {
        match moved {
            Some(n) => Ok(n),
            None => Err(Error::Io),
        }
    }
}

/// One entry of a socket's submission queue, with the bytes of its buffer
/// where it asks to write them.
pub struct Request {
    /// `IOURING_OP_READ` or `IOURING_OP_WRITE`; any other is answered as
    /// not supported.
    pub opcode: u8,
    /// The submitter's tag, handed back in the completion.
    pub user_data: u64,
    /// Length of the submitter's buffer.
    pub len: u32,
    /// What the buffer holds, for a write.
    pub payload: Vec<u8>,
}

/// One entry for a socket's completion queue, with the bytes for the
/// submitter's buffer where it asked to read.
pub struct Response {
    /// The tag of the request that this answers.
    pub user_data: u64,
    /// The count of bytes moved, or the negated code of an error.
    pub res: i32,
    /// The submitter's buffer after a read: `res` received bytes, then
    /// zeros. Empty for any other request.
    pub payload: Vec<u8>,
}

/// The number that a completion carries for an outcome: the count of bytes,
/// capped at the largest `i32`, or the negated code of the error.
pub open spec fn completion_code(outcome: Result<usize, Error>) -> int {
    match outcome {
        Ok(n) => if n <= i32::MAX {
            n as int
        } else {
            i32::MAX as int
        },
        Err(e) => -e.spec_code(),
    }
}

/// Length of the buffer that a read of `len` bytes receives into: no read
/// returns more than a socket's receive buffer holds.
pub open spec fn read_window(len: u32) -> nat {
    if len <= SOCKET_BUFFER_SIZE {
        len as nat
    } else {
        SOCKET_BUFFER_SIZE as nat
    }
}

/// How many bytes a write moves into a transmit buffer with that much room:
/// all of the payload, as far as the room goes.
pub open spec fn written(request: Request, room: int) -> int {
    least(request.payload@.len() as int, room)
}

/// How many bytes a read takes of those that wait: as many as wait, as far
/// as its window goes.
pub open spec fn taken(request: Request, waiting: Seq<u8>) -> int {
    least(read_window(request.len) as int, waiting.len() as int)
}

/// Whether `response` answers `request` on a socket that is known or not,
/// whose half of the connection that the request uses is open or not, whose
/// transmit buffer has `room`, and in whose receive buffer `waiting` waits.
/// The response carries the request's tag. Its number is the count of bytes
/// that a write moved into the room or that a read took of what waited; or
/// the negated code of `NotFound` on an unknown socket, of `WouldBlock` on a
/// half that is not open, of `NotSupported` for any other opcode. After a
/// read its payload holds the bytes taken, the oldest first, and zeros
/// behind them.
pub open spec fn answers(
    request: Request,
    response: Response,
    known: bool,
    open: bool,
    room: int,
    waiting: Seq<u8>,
) -> bool {
    &&& response.user_data == request.user_data
    &&& if request.opcode == IOURING_OP_READ || request.opcode == IOURING_OP_WRITE {
        if !known {
            response.res == completion_code(Err(Error::NotFound))
        } else if !open {
            response.res == completion_code(Err(Error::WouldBlock))
        } else if request.opcode == IOURING_OP_READ {
            &&& response.res == taken(request, waiting)
            &&& response.payload@.take(response.res as int) == waiting.take(response.res as int)
        } else {
            response.res == completion_code(Ok(written(request, room) as usize))
        }
    } else {
        response.res == completion_code(Err(Error::NotSupported))
    }
    &&& if request.opcode == IOURING_OP_READ {
        &&& response.payload@.len() == read_window(request.len)
        &&& forall|k: int|
            0 <= k < response.payload@.len() && response.res <= k ==> response.payload@[k] == 0
    } else {
        response.payload@.len() == 0
    }
}

/// Whether no read before the request at `at` has taken bytes from the
/// socket.
pub open spec fn undisturbed(requests: Seq<Request>, responses: Seq<Response>, at: int) -> bool {
    forall|j: int|
        0 <= j < at && j < responses.len() && (#[trigger] requests[j]).opcode == IOURING_OP_READ
            ==> responses[j].res <= 0
}

/// The room in the transmit buffer when the turn of the request at `at`
/// comes, in a batch that found the transmit half open or not and the
/// buffer with `room`: every write before has filled what it could.
pub open spec fn room_before(
    requests: Seq<Request>,
    known: bool,
    tx_open: bool,
    room: int,
    at: int,
) -> int
    decreases at,
{
    if at <= 0 {
        room
    } else {
        let before = room_before(requests, known, tx_open, room, at - 1);
        if requests[at - 1].opcode == IOURING_OP_WRITE && known && tx_open {
            before - written(requests[at - 1], before)
        } else {
            before
        }
    }
}

/// The bytes that wait in the receive buffer when the turn of the request
/// at `at` comes, in a batch that found `waiting` there: every read before
/// has taken the bytes that its response counts.
pub open spec fn waiting_before(
    requests: Seq<Request>,
    responses: Seq<Response>,
    waiting: Seq<u8>,
    at: int,
) -> Seq<u8>
    decreases at,
{
    if at <= 0 {
        waiting
    } else {
        let before = waiting_before(requests, responses, waiting, at - 1);
        if requests[at - 1].opcode == IOURING_OP_READ && responses[at - 1].res > 0 {
            before.skip(responses[at - 1].res as int)
        } else {
            before
        }
    }
}

/// Whether the response at `at` answers its request in a batch that found
/// the two halves of the connection open or not, the transmit buffer with
/// `room` and `waiting` in the receive buffer. A write finds the transmit
/// half as the batch found it, and the room that the writes before have
/// left. A read finds what the reads before have left to wait; it finds the
/// receive half as the batch found it, unless a read before it has taken
/// bytes, and then as that read left it.
pub open spec fn answered(
    requests: Seq<Request>,
    responses: Seq<Response>,
    known: bool,
    tx_open: bool,
    rx_open: bool,
    room: int,
    waiting: Seq<u8>,
    at: int,
) -> bool {
    let room_now = room_before(requests, known, tx_open, room, at);
    let waiting_now = waiting_before(requests, responses, waiting, at);
    if requests[at].opcode == IOURING_OP_READ {
        if undisturbed(requests, responses, at) {
            answers(requests[at], responses[at], known, rx_open, room_now, waiting_now)
        } else {
            exists|open: bool| #[trigger]
                answers(requests[at], responses[at], known, open, room_now, waiting_now)
        }
    } else {
        answers(requests[at], responses[at], known, tx_open, room_now, waiting_now)
    }
}

/// Whether the responses answer the requests one for one, in order, on a
/// socket that is known or not and that the batch found as given.
pub open spec fn answers_all(
    requests: Seq<Request>,
    responses: Seq<Response>,
    known: bool,
    tx_open: bool,
    rx_open: bool,
    room: int,
    waiting: Seq<u8>,
) -> bool {
    &&& responses.len() == requests.len()
    &&& forall|i: int|
        0 <= i < requests.len() ==> #[trigger] answered(
            requests,
            responses,
            known,
            tx_open,
            rx_open,
            room,
            waiting,
            i,
        )
}

/// What was answered stays answered when more responses follow.
proof fn lemma_answered_stays(
    requests: Seq<Request>,
    before: Seq<Response>,
    after: Seq<Response>,
    known: bool,
    tx_open: bool,
    rx_open: bool,
    room: int,
    waiting: Seq<u8>,
    at: int,
)
    requires
        0 <= at <= before.len() <= after.len(),
        forall|k: int| 0 <= k < before.len() ==> after[k] == before[k],
    ensures
        waiting_before(requests, after, waiting, at) == waiting_before(
            requests,
            before,
            waiting,
            at,
        ),
        undisturbed(requests, after, at) == undisturbed(requests, before, at),
        at < before.len() ==> answered(
            requests,
            after,
            known,
            tx_open,
            rx_open,
            room,
            waiting,
            at,
        ) == answered(requests, before, known, tx_open, rx_open, room, waiting, at),
    decreases at,
{
    if at > 0 {
        lemma_answered_stays(
            requests,
            before,
            after,
            known,
            tx_open,
            rx_open,
            room,
            waiting,
            at - 1,
        );
    }
}

/// The completion number of an outcome.
pub fn encode_completion(outcome: Result<usize, Error>) -> (res: i32)
    ensures
        res == completion_code(outcome),
{
    match outcome {
        Ok(n) => if n <= i32::MAX as usize {
            n as i32
        } else {
            i32::MAX
        },
        Err(e) => {
            let code = e.code();
            -(code as i32)
        },
    }
}

/// Client badges and the stack sockets that they stand for.
pub struct SocketTable {
    sockets: SocketSet<'static>,
    map: BTreeMap<usize, SocketHandle>,
    next_badge: usize,
}

impl View for SocketTable {
    type V = Map<usize, SocketHandle>;

    closed spec fn view(&self) -> Map<usize, SocketHandle> {
        self.map@
    }
}

impl SocketTable {
    /// The stack's sockets, among them those of the badges.
    pub closed spec fn stack(&self) -> SocketSet<'static> {
        self.sockets
    }

    /// The badge that the next socket gets.
    pub closed spec fn next_badge(&self) -> usize {
        self.next_badge
    }

    /// Whether every badge has been given out.
    pub open spec fn exhausted(&self) -> bool {
        self.next_badge() == usize::MAX
    }

    /// Every badge stands for a socket that lives in the stack, no two for
    /// the same one, and all were given out in order, from 1.
    pub closed spec fn wf(&self) -> bool {
        &&& growable(self.sockets)
        &&& self.next_badge >= 1
        &&& self.map@.dom().finite()
        &&& forall|b: usize| #[trigger]
            self.map@.contains_key(b) ==> 1 <= b < self.next_badge && tcp_sockets(
                self.sockets,
            ).contains(self.map@[b])
        &&& forall|a: usize, b: usize|
            self.map@.contains_key(a) && self.map@.contains_key(b) && a != b
                ==> #[trigger] self.map@[a] != #[trigger] self.map@[b]
    }

    /// Whether the two tables have the same badges for the same sockets, and
    /// the same sockets live in the stack.
    pub open spec fn same_sockets(&self, after: SocketTable) -> bool {
        &&& after@ == self@
        &&& after.next_badge() == self.next_badge()
        &&& tcp_sockets(after.stack()) == tcp_sockets(self.stack())
    }

    /// What `socket` returns and leaves behind.
    pub open spec fn socket_post(
        &self,
        after: SocketTable,
        domain: i32,
        socket_type: i32,
        r: Result<usize, Error>,
    ) -> bool {
        &&& r == (if domain != AF_INET {
            Err::<usize, Error>(Error::InvalidArgs)
        } else if socket_type != SOCK_STREAM {
            Err(Error::NotSupported)
        } else if self.exhausted() {
            Err(Error::InternalError)
        } else {
            Ok(self.next_badge())
        })
        &&& r is Err ==> after@ == self@ && after.stack() == self.stack() && after.next_badge()
            == self.next_badge()
        &&& r matches Ok(badge) ==> {
            &&& badge >= 1
            &&& !self@.contains_key(badge)
            &&& after@.dom() == self@.dom().insert(badge)
            &&& forall|b: usize| self@.contains_key(b) ==> after@[b] == self@[b]
            &&& !tcp_sockets(self.stack()).contains(after@[badge])
            &&& tcp_sockets(after.stack()) == tcp_sockets(self.stack()).insert(after@[badge])
            &&& after.next_badge() == badge + 1
            &&& after@.dom().finite()
            &&& after@.len() == self@.len() + 1
            &&& !after.tx_open(badge) && !after.rx_open(badge)
            &&& after.tx_queue(badge).len() == 0 && after.rx_queue(badge).len() == 0
            &&& after.tx_room(badge) == SOCKET_BUFFER_SIZE
            &&& forall|port: u16| port != 0 ==> #[trigger] after.listens(badge, port)
        }
    }

    /// Whether the stack takes the badge's socket into the listening state on
    /// that port, as the socket is.
    pub open spec fn listens(&self, badge: usize, port: u16) -> bool {
        tcp_listens(self.stack(), self@[badge], port)
    }

    /// Whether the transmit half of the badge's connection is open.
    pub open spec fn tx_open(&self, badge: usize) -> bool {
        tcp_tx_open(self.stack(), self@[badge])
    }

    /// Whether the receive half of the badge's connection is open, or
    /// received data waits.
    pub open spec fn rx_open(&self, badge: usize) -> bool {
        tcp_rx_open(self.stack(), self@[badge])
    }

    /// What `bind` returns and leaves behind: the result is `bind_result` of
    /// the stack's verdict on the port, and the stack never takes port zero.
    pub open spec fn bind_post(
        &self,
        after: SocketTable,
        badge: usize,
        address: Seq<u8>,
        r: Result<(), Error>,
    ) -> bool {
        &&& self.same_sockets(after)
        &&& r == bind_result(
            self@.contains_key(badge),
            address_port(address),
            address_port(address) matches Some(port) && self.listens(badge, port),
        )
        &&& self@.contains_key(badge) && address_port(address) == Some(0u16) ==> r == Err::<
            (),
            Error,
        >(Error::InternalError)
        &&& r is Err && r != Err::<(), Error>(Error::InternalError) ==> after.stack()
            == self.stack()
    }

    /// What `listen` returns.
    pub open spec fn listen_result(&self, badge: usize) -> Result<(), Error> {
        if self@.contains_key(badge) {
            Ok(())
        } else {
            Err(Error::NotFound)
        }
    }

    /// The bytes in the transmit buffer of the badge's socket, the oldest
    /// first.
    pub open spec fn tx_queue(&self, badge: usize) -> Seq<u8> {
        tcp_tx_queue(self.stack(), self@[badge])
    }

    /// How many bytes the transmit buffer of the badge's socket has room
    /// for.
    pub open spec fn tx_room(&self, badge: usize) -> int {
        tcp_tx_capacity(self.stack(), self@[badge]) - self.tx_queue(badge).len()
    }

    /// The bytes that wait in the receive buffer of the badge's socket, the
    /// oldest first.
    pub open spec fn rx_queue(&self, badge: usize) -> Seq<u8> {
        tcp_rx_queue(self.stack(), self@[badge])
    }

    /// What `send` returns and leaves behind. On an open transmit half the
    /// front of `data` joins the end of the transmit buffer, as much of it as
    /// there is room for, and its count is returned; on any other the call
    /// would block and the stack is as it was. Sending leaves both halves
    /// open or not as they were, and the receive buffer as it was.
    pub open spec fn send_post(
        &self,
        after: SocketTable,
        badge: usize,
        data: Seq<u8>,
        r: Result<usize, Error>,
    ) -> bool {
        &&& self.same_sockets(after)
        &&& if !self@.contains_key(badge) {
            r == Err::<usize, Error>(Error::NotFound) && after.stack() == self.stack()
        } else if !self.tx_open(badge) {
            r == Err::<usize, Error>(Error::WouldBlock) && after.stack() == self.stack()
        } else {
            let n = least(data.len() as int, self.tx_room(badge));
            &&& r == Ok::<usize, Error>(n as usize)
            &&& 0 <= n
            &&& after.tx_queue(badge) == self.tx_queue(badge) + data.take(n)
            &&& after.tx_room(badge) == self.tx_room(badge) - n
        }
        &&& after.tx_open(badge) == self.tx_open(badge)
        &&& after.rx_open(badge) == self.rx_open(badge)
        &&& after.rx_queue(badge) == self.rx_queue(badge)
    }

    /// What `recv` returns and leaves behind, into a buffer of `len` bytes.
    /// On an open receive half the oldest bytes that wait leave the receive
    /// buffer, as many as wait and as the buffer has room for, and their
    /// count is returned; on any other the call would block and the stack is
    /// as it was. Receiving leaves the transmit half and the transmit
    /// buffer as they were, and the receive half too where no byte was
    /// taken.
    pub open spec fn recv_post(
        &self,
        after: SocketTable,
        badge: usize,
        len: nat,
        r: Result<usize, Error>,
    ) -> bool {
        &&& self.same_sockets(after)
        &&& if !self@.contains_key(badge) {
            r == Err::<usize, Error>(Error::NotFound) && after.stack() == self.stack()
        } else if !self.rx_open(badge) {
            r == Err::<usize, Error>(Error::WouldBlock) && after.stack() == self.stack()
        } else {
            let n = least(len as int, self.rx_queue(badge).len() as int);
            &&& r == Ok::<usize, Error>(n as usize)
            &&& after.rx_queue(badge) == self.rx_queue(badge).skip(n)
        }
        &&& after.tx_open(badge) == self.tx_open(badge)
        &&& after.tx_queue(badge) == self.tx_queue(badge)
        &&& after.tx_room(badge) == self.tx_room(badge)
        &&& r is Err || r == Ok::<usize, Error>(0) ==> after.rx_open(badge) == self.rx_open(badge)
    }

    /// What `close` leaves behind.
    pub open spec fn close_post(&self, after: SocketTable, badge: usize) -> bool {
        &&& after@ == self@.remove(badge)
        &&& after.next_badge() == self.next_badge()
        &&& if self@.contains_key(badge) {
            tcp_sockets(after.stack()) == tcp_sockets(self.stack()).remove(self@[badge])
        } else {
            after.stack() == self.stack()
        }
    }

    /// A table without sockets.
    pub fn new() -> (table: SocketTable)
        ensures
            table.wf(),
            table@ == Map::<usize, SocketHandle>::empty(),
            table.next_badge() == 1,
    {
        SocketTable { sockets: new_socket_set(), map: BTreeMap::new(), next_badge: 1 }
    }

    /// What holds of every badge of a well-formed table.
    pub proof fn lemma_badges_live(&self, badge: usize)
        requires
            self.wf(),
            self@.contains_key(badge),
        ensures
            1 <= badge < self.next_badge(),
            tcp_sockets(self.stack()).contains(self@[badge]),
    {
    }

    /// A well-formed table holds finitely many badges, so that its badges
    /// can be counted.
    pub proof fn lemma_table_is_finite(&self)
        requires
            self.wf(),
        ensures
            self@.dom().finite(),
    {
    }

    /// Whether the badge names a socket.
    pub fn contains(&self, badge: usize) -> (found: bool)
        ensures
            found == self@.contains_key(badge),
    {
        self.map.contains_key(&badge)
    }

    /// The stack's handle of the badge's socket.
    pub fn handle(&self, badge: usize) -> (r: Option<SocketHandle>)
        ensures
            r == (if self@.contains_key(badge) {
                Some(self@[badge])
            } else {
                None
            }),
    {
        match self.map.get(&badge) {
            Some(h) => Some(*h),
            None => None,
        }
    }

    /// The stack's sockets, for the interfaces to poll. The table stays
    /// well-formed as long as no socket is added to or removed from the set
    /// through this reference.
    pub fn sockets_mut(&mut self) -> (set: &mut SocketSet<'static>)
        ensures
            *set == old(self).stack(),
            final(self)@ == old(self)@,
            final(self).next_badge() == old(self).next_badge(),
            final(self).stack() == *final(set),
            old(self).wf() && growable(*final(set)) && tcp_sockets(*final(set)) == tcp_sockets(
                old(self).stack(),
            ) ==> final(self).wf(),
    {
        &mut self.sockets
    }

    /// How many sockets are open.
    pub fn len(&self) -> (n: usize)
        ensures
            n == self@.len(),
    {
        self.map.len()
    }

    /// Creates a stream socket with its two buffers and gives it the next
    /// badge. Only IPv4 streams exist; the protocol number is not looked at.
    pub fn socket(&mut self, domain: i32, socket_type: i32, _protocol: i32) -> (r: Result<
        usize,
        Error,
    >)
        requires
            old(self).wf(),
        ensures
            final(self).wf(),
            old(self).socket_post(*final(self), domain, socket_type, r),
    {
        if domain != AF_INET {
            return Err(Error::InvalidArgs);
        }
        if socket_type != SOCK_STREAM {
            return Err(Error::NotSupported);
        }
        if self.next_badge == usize::MAX {
            return Err(Error::InternalError);
        }
        let rx: Vec<u8> = vec![0u8; SOCKET_BUFFER_SIZE];
        let tx: Vec<u8> = vec![0u8; SOCKET_BUFFER_SIZE];
        let handle = add_tcp_socket(&mut self.sockets, rx, tx);
        let badge = self.next_badge;
        self.map.insert(badge, handle);
        self.next_badge = badge + 1;
        assert(final(self)@.dom() =~= old(self)@.dom().insert(badge));
        Ok(badge)
    }

    /// Puts the badge's socket into the listening state on the port that the
    /// address names. The stack refuses port zero, and a socket that is
    /// open already.
    pub fn bind(&mut self, badge: usize, address: &[u8]) -> (r: Result<(), Error>)
        requires
            old(self).wf(),
        ensures
            final(self).wf(),
            old(self).bind_post(*final(self), badge, address@, r),
    {
        let port = port_of_address(address);
        let handle = match self.map.get(&badge) {
            Some(h) => *h,
            None => {
                return bind_outcome(false, port, false);
            },
        };
        let listened = match port {
            Some(p) => tcp_listen(&mut self.sockets, handle, p).is_ok(),
            None => false,
        };
        bind_outcome(true, port, listened)
    }

    /// Accepts a backlog for the badge's socket. The stack queues one
    /// connection per listening socket whatever the backlog, so nothing
    /// changes.
    pub fn listen(&self, badge: usize, _backlog: i32) -> (r: Result<(), Error>)
        ensures
            r == self.listen_result(badge),
    {
        if self.map.contains_key(&badge) {
            Ok(())
        } else {
            Err(Error::NotFound)
        }
    }

    /// Connecting is not offered.
    pub fn connect(&self, _badge: usize, _address: &[u8]) -> (r: Result<(), Error>)
        ensures
            r == Err::<(), Error>(Error::NotSupported),
    {
        Err(Error::NotSupported)
    }

    /// Accepting is not offered.
    pub fn accept(&self, _badge: usize) -> (r: Result<usize, Error>)
        ensures
            r == Err::<usize, Error>(Error::NotSupported),
    {
        Err(Error::NotSupported)
    }

    /// Enqueues `data` on the badge's socket and returns how many bytes the
    /// transmit buffer took. Where the transmit half of the connection is not
    /// open, the call would block.
    pub fn send(&mut self, badge: usize, data: &[u8], _flags: i32) -> (r: Result<usize, Error>)
        requires
            old(self).wf(),
        ensures
            final(self).wf(),
            old(self).send_post(*final(self), badge, data@, r),
    {
        let handle = match self.map.get(&badge) {
            Some(h) => *h,
            None => {
                return Err(Error::NotFound);
            },
        };
        let open = tcp_may_send(&self.sockets, handle);
        if !open {
            return transfer_outcome(false, None);
        }
        let moved: Option<usize> = match tcp_send_slice(&mut self.sockets, handle, data) {
            Ok(n) => Some(n),
            Err(_) => None,
        };
        transfer_outcome(true, moved)
    }

    /// Dequeues received bytes of the badge's socket into the front of
    /// `buffer` and returns their count; the rest of the buffer is
    /// untouched. Where the receive half of the connection is not open and
    /// no data waits, the call would block.
    pub fn recv(&mut self, badge: usize, buffer: &mut Vec<u8>, _flags: i32) -> (r: Result<
        usize,
        Error,
    >)
        requires
            old(self).wf(),
        ensures
            final(self).wf(),
            old(self).recv_post(*final(self), badge, old(buffer)@.len(), r),
            final(buffer)@.len() == old(buffer)@.len(),
            r matches Ok(n) ==> final(buffer)@.take(n as int) == old(self).rx_queue(badge).take(
                n as int,
            ),
            r matches Ok(n) ==> n <= old(buffer)@.len() && final(buffer)@.skip(n as int) == old(
                buffer,
            )@.skip(n as int),
            r is Err ==> final(buffer)@ == old(buffer)@,
    {
        let handle = match self.map.get(&badge) {
            Some(h) => *h,
            None => {
                return Err(Error::NotFound);
            },
        };
        let open = tcp_may_recv(&self.sockets, handle);
        if !open {
            return transfer_outcome(false, None);
        }
        let moved: Option<usize> = match tcp_recv_slice(&mut self.sockets, handle, buffer) {
            Ok(n) => Some(n),
            Err(_) => None,
        };
        transfer_outcome(true, moved)
    }

    /// Forgets the badge, then frees its socket in the stack. A badge that
    /// names no socket is let pass.
    pub fn close(&mut self, badge: usize) -> (r: Result<(), Error>)
        requires
            old(self).wf(),
        ensures
            final(self).wf(),
            r == Ok::<(), Error>(()),
            old(self).close_post(*final(self), badge),
    {
        match self.map.remove(&badge) {
            Some(handle) => {
                remove_socket(&mut self.sockets, handle);
            },
            None => {},
        }
        Ok(())
    }

    /// Serves one request of the badge's ring: a read receives into a zeroed
    /// buffer, a write sends the payload, and any other opcode is refused.
    pub fn serve(&mut self, badge: usize, request: &Request) -> (response: Response)
        requires
            old(self).wf(),
        ensures
            final(self).wf(),
            old(self).same_sockets(*final(self)),
            answers(
                *request,
                response,
                old(self)@.contains_key(badge),
                if request.opcode == IOURING_OP_READ {
                    old(self).rx_open(badge)
                } else {
                    old(self).tx_open(badge)
                },
                old(self).tx_room(badge),
                old(self).rx_queue(badge),
            ),
            final(self).tx_room(badge) == (if request.opcode == IOURING_OP_WRITE && old(
                self,
            )@.contains_key(badge) && old(self).tx_open(badge) {
                old(self).tx_room(badge) - written(*request, old(self).tx_room(badge))
            } else {
                old(self).tx_room(badge)
            }),
            final(self).rx_queue(badge) == (if request.opcode == IOURING_OP_READ && response.res
                > 0 {
                old(self).rx_queue(badge).skip(response.res as int)
            } else {
                old(self).rx_queue(badge)
            }),
            final(self).tx_open(badge) == old(self).tx_open(badge),
            !(request.opcode == IOURING_OP_READ && response.res > 0) ==> final(self).rx_open(badge)
                == old(self).rx_open(badge),
    {
        if request.opcode == IOURING_OP_READ {
            let window: usize = if request.len as usize <= SOCKET_BUFFER_SIZE {
                request.len as usize
            } else {
                SOCKET_BUFFER_SIZE
            };
            let mut buffer: Vec<u8> = vec![0u8; window];
            let ghost zeros = buffer@;
            let outcome = self.recv(badge, &mut buffer, 0);
            let res = encode_completion(outcome);
            assert forall|k: int| 0 <= k < buffer@.len() && res <= k implies buffer@[k] == 0 by {
                match outcome {
                    Ok(n) => {
                        assert(buffer@[k] == buffer@.skip(n as int)[k - n]);
                        assert(zeros[k] == zeros.skip(n as int)[k - n]);
                    },
                    Err(_) => {},
                }
            }
            Response { user_data: request.user_data, res, payload: buffer }
        } else if request.opcode == IOURING_OP_WRITE {
            let outcome = self.send(badge, request.payload.as_slice(), 0);
            let res = encode_completion(outcome);
            Response { user_data: request.user_data, res, payload: Vec::new() }
        } else {
            let res = encode_completion(Err(Error::NotSupported));
            Response { user_data: request.user_data, res, payload: Vec::new() }
        }
    }

    /// Serves the requests drained from the badge's ring, in their order,
    /// and returns one response for each.
    pub fn serve_all(&mut self, badge: usize, requests: &Vec<Request>) -> (responses: Vec<
        Response,
    >)
        requires
            old(self).wf(),
        ensures
            final(self).wf(),
            old(self).same_sockets(*final(self)),
            answers_all(
                requests@,
                responses@,
                old(self)@.contains_key(badge),
                old(self).tx_open(badge),
                old(self).rx_open(badge),
                old(self).tx_room(badge),
                old(self).rx_queue(badge),
            ),
    {
        let ghost known = old(self)@.contains_key(badge);
        let ghost tx = old(self).tx_open(badge);
        let ghost rx = old(self).rx_open(badge);
        let ghost room = old(self).tx_room(badge);
        let ghost waiting = old(self).rx_queue(badge);
        let mut responses: Vec<Response> = Vec::new();
        let mut i: usize = 0;
        while i < requests.len()
            invariant
                i <= requests.len(),
                self.wf(),
                old(self).same_sockets(*self),
                known == old(self)@.contains_key(badge),
                responses@.len() == i,
                self.tx_open(badge) == tx,
                undisturbed(requests@, responses@, i as int) ==> self.rx_open(badge) == rx,
                self.tx_room(badge) == room_before(requests@, known, tx, room, i as int),
                self.rx_queue(badge) == waiting_before(requests@, responses@, waiting, i as int),
                forall|j: int|
                    0 <= j < i ==> #[trigger] answered(
                        requests@,
                        responses@,
                        known,
                        tx,
                        rx,
                        room,
                        waiting,
                        j,
                    ),
            decreases requests.len() - i,
        {
            let ghost before = responses@;
            let ghost rx_now = self.rx_open(badge);
            let response = self.serve(badge, &requests[i]);
            responses.push(response);
            proof {
                let after = responses@;
                let at = i as int;
                assert forall|j: int| 0 <= j < i implies #[trigger] answered(
                    requests@,
                    after,
                    known,
                    tx,
                    rx,
                    room,
                    waiting,
                    j,
                ) by {
                    lemma_answered_stays(requests@, before, after, known, tx, rx, room, waiting, j);
                }
                lemma_answered_stays(requests@, before, after, known, tx, rx, room, waiting, at);
                assert(after[at] == response);
                if requests@[at].opcode == IOURING_OP_READ {
                    assert(answers(
                        requests@[at],
                        after[at],
                        known,
                        rx_now,
                        room_before(requests@, known, tx, room, at),
                        waiting_before(requests@, after, waiting, at),
                    ));
                }
                assert(answered(requests@, after, known, tx, rx, room, waiting, at));
                if undisturbed(requests@, after, at + 1) {
                    assert(undisturbed(requests@, after, at));
                    assert(requests@[at].opcode == IOURING_OP_READ ==> after[at].res <= 0);
                }
            }
            i = i + 1;
        }
        responses
    }
}

/// Whether a step of the table from `before` to `after` is one that spares
/// the badge: nothing changed, or a socket got a badge that was free, or
/// another badge was closed.
pub open spec fn spares(
    before: Map<usize, SocketHandle>,
    after: Map<usize, SocketHandle>,
    badge: usize,
) -> bool {
    ||| after == before
    ||| exists|fresh: usize|
        {
            &&& !before.contains_key(fresh)
            &&& #[trigger] after.contains_key(fresh)
            &&& after.dom() == before.dom().insert(fresh)
            &&& forall|b: usize| before.contains_key(b) ==> after[b] == before[b]
        }
    ||| exists|closed: usize| closed != badge && after == #[trigger] before.remove(closed)
}

/// A badge stands for its socket from the call that gave it out until it
/// is closed: over any run of steps that each spare the badge, the table
/// holds it throughout, for the same socket.
pub proof fn lemma_badge_persists(states: Seq<Map<usize, SocketHandle>>, badge: usize, at: int)
    requires
        0 <= at < states.len(),
        states[0].contains_key(badge),
        forall|i: int|
            0 <= i < states.len() - 1 ==> spares(#[trigger] states[i], states[i + 1], badge),
    ensures
        states[at].contains_key(badge),
        states[at][badge] == states[0][badge],
    decreases at,
{
    if at > 0 {
        lemma_badge_persists(states, badge, at - 1);
        assert(spares(states[at - 1], states[at], badge));
    }
}

/// Every call but `close` on the badge itself spares it.
pub proof fn lemma_calls_spare(before: SocketTable, after: SocketTable, badge: usize)
    ensures
        before.same_sockets(after) ==> spares(before@, after@, badge),
        forall|domain: i32, socket_type: i32, r: Result<usize, Error>| #[trigger]
            before.socket_post(after, domain, socket_type, r) ==> spares(before@, after@, badge),
        forall|closed: usize|
            closed != badge && #[trigger] before.close_post(after, closed) ==> spares(
                before@,
                after@,
                badge,
            ),
{
    assert forall|domain: i32, socket_type: i32, r: Result<usize, Error>| #[trigger]
        before.socket_post(after, domain, socket_type, r) implies spares(
        before@,
        after@,
        badge,
    ) by {
        match r {
            Ok(fresh) => {
                assert(after@.dom().contains(fresh));
                assert(after@.contains_key(fresh));
            },
            Err(_) => {},
        }
    }
}

/// The socket of one client, as the calls of that client see it.
#[derive(Clone, Copy, Debug, PartialEq, Eq, Structural)]
pub struct GopherSocket {
    /// The badge that the client's calls carry.
    pub badge: usize,
}

impl GopherServer {
    /// Creates a stream socket and returns its badge.
    pub fn socket(&mut self, domain: i32, socket_type: i32, protocol: i32) -> (r: Result<
        usize,
        Error,
    >)
        requires
            old(self).wf(),
        ensures
            final(self).wf(),
            old(self).table.socket_post(final(self).table, domain, socket_type, r),
            *final(self) == (GopherServer { table: final(self).table, ..*old(self) }),
    {
        self.table.socket(domain, socket_type, protocol)
    }
}

impl GopherSocket {
    /// The view of the socket of that badge.
    pub fn new(badge: usize) -> (socket: GopherSocket)
        ensures
            socket.badge == badge,
    {
        GopherSocket { badge }
    }

    /// Puts the socket into the listening state on the port that the
    /// address names.
    pub fn bind(&mut self, server: &mut GopherServer, address: &[u8]) -> (r: Result<(), Error>)
        requires
            old(server).wf(),
        ensures
            final(server).wf(),
            final(self).badge == old(self).badge,
            old(server).table.bind_post(final(server).table, old(self).badge, address@, r),
            *final(server) == (GopherServer { table: final(server).table, ..*old(server) }),
    {
        server.table.bind(self.badge, address)
    }

    /// Accepts a backlog for the socket.
    pub fn listen(&mut self, server: &mut GopherServer, backlog: i32) -> (r: Result<(), Error>)
        ensures
            final(self).badge == old(self).badge,
            r == old(server).table.listen_result(old(self).badge),
            *final(server) == *old(server),
    {
        server.table.listen(self.badge, backlog)
    }

    /// Accepting is not offered.
    pub fn accept(&mut self, server: &mut GopherServer) -> (r: Result<usize, Error>)
        ensures
            final(self).badge == old(self).badge,
            r == Err::<usize, Error>(Error::NotSupported),
            *final(server) == *old(server),
    {
        server.table.accept(self.badge)
    }

    /// Connecting is not offered.
    pub fn connect(&mut self, server: &mut GopherServer, address: &[u8]) -> (r: Result<(), Error>)
        ensures
            final(self).badge == old(self).badge,
            r == Err::<(), Error>(Error::NotSupported),
            *final(server) == *old(server),
    {
        server.table.connect(self.badge, address)
    }

    /// Enqueues `data` on the socket and returns how many bytes the transmit
    /// buffer took.
    pub fn send(&mut self, server: &mut GopherServer, data: &[u8], flags: i32) -> (r: Result<
        usize,
        Error,
    >)
        requires
            old(server).wf(),
        ensures
            final(server).wf(),
            final(self).badge == old(self).badge,
            old(server).table.send_post(final(server).table, old(self).badge, data@, r),
            *final(server) == (GopherServer { table: final(server).table, ..*old(server) }),
    {
        server.table.send(self.badge, data, flags)
    }

    /// Dequeues received bytes into the front of `buffer` and returns their
    /// count.
    pub fn recv(&mut self, server: &mut GopherServer, buffer: &mut Vec<u8>, flags: i32) -> (r:
        Result<usize, Error>)
        requires
            old(server).wf(),
        ensures
            final(server).wf(),
            final(self).badge == old(self).badge,
            old(server).table.recv_post(
                final(server).table,
                old(self).badge,
                old(buffer)@.len(),
                r,
            ),
            final(buffer)@.len() == old(buffer)@.len(),
            r matches Ok(n) ==> final(buffer)@.take(n as int) == old(server).table.rx_queue(
                old(self).badge,
            ).take(n as int),
            r matches Ok(n) ==> n <= old(buffer)@.len() && final(buffer)@.skip(n as int) == old(
                buffer,
            )@.skip(n as int),
            r is Err ==> final(buffer)@ == old(buffer)@,
            *final(server) == (GopherServer { table: final(server).table, ..*old(server) }),
    {
        server.table.recv(self.badge, buffer, flags)
    }

    /// Forgets the badge and frees its socket.
    pub fn close(&mut self, server: &mut GopherServer) -> (r: Result<(), Error>)
        requires
            old(server).wf(),
        ensures
            final(server).wf(),
            final(self).badge == old(self).badge,
            r == Ok::<(), Error>(()),
            old(server).table.close_post(final(server).table, old(self).badge),
            *final(server) == (GopherServer { table: final(server).table, ..*old(server) }),
    {
        server.table.close(self.badge)
    }

    /// The socket's own address cannot be asked for.
    pub fn get_sockname(&self, _address: &mut Vec<u8>) -> (r: Result<usize, Error>)
        ensures
            r == Err::<usize, Error>(Error::NotSupported),
            final(_address)@ == old(_address)@,
    {
        Err(Error::NotSupported)
    }

    /// The peer's address cannot be asked for.
    pub fn get_peername(&self, _address: &mut Vec<u8>) -> (r: Result<usize, Error>)
        ensures
            r == Err::<usize, Error>(Error::NotSupported),
            final(_address)@ == old(_address)@,
    {
        Err(Error::NotSupported)
    }

    /// No option can be set.
    pub fn setsockopt(&mut self, _level: i32, _optname: i32, _optval: &[u8]) -> (r: Result<
        (),
        Error,
    >)
        ensures
            final(self).badge == old(self).badge,
            r == Err::<(), Error>(Error::NotSupported),
    {
        Err(Error::NotSupported)
    }

    /// No option can be read.
    pub fn getsockopt(&self, _level: i32, _optname: i32, _optval: &mut Vec<u8>) -> (r: Result<
        usize,
        Error,
    >)
        ensures
            r == Err::<usize, Error>(Error::NotSupported),
            final(_optval)@ == old(_optval)@,
    {
        Err(Error::NotSupported)
    }

    /// Registers a ring of `size` bytes for the socket and returns where to
    /// map it. The caller's own address of the ring plays no part.
    pub fn setup_iouring(&mut self, server: &mut GopherServer, _client_vaddr: usize, size: usize)
        -> (r: Result<RingMapping, Error>)
        requires
            old(server).wf(),
        ensures
            final(server).wf(),
            final(self).badge == old(self).badge,
            old(server).setup_post(*final(server), old(self).badge, size, r),
    {
        server.setup_iouring(self.badge, size)
    }

    /// Serves the requests that were drained from the socket's ring.
    pub fn process_iouring(&mut self, server: &mut GopherServer, requests: &Vec<Request>) -> (r:
        Result<Vec<Response>, Error>)
        requires
            old(server).wf(),
        ensures
            final(server).wf(),
            final(self).badge == old(self).badge,
            old(server).ring_of(old(self).badge) is None <==> r == Err::<Vec<Response>, Error>(
                Error::NotFound,
            ),
            r is Ok || r == Err::<Vec<Response>, Error>(Error::NotFound),
            r is Err ==> *final(server) == *old(server),
            r matches Ok(responses) ==> {
                &&& answers_all(
                    requests@,
                    responses@,
                    old(server).table@.contains_key(old(self).badge),
                    old(server).table.tx_open(old(self).badge),
                    old(server).table.rx_open(old(self).badge),
                    old(server).table.tx_room(old(self).badge),
                    old(server).table.rx_queue(old(self).badge),
                )
                &&& old(server).table.same_sockets(final(server).table)
                &&& *final(server) == (GopherServer { table: final(server).table, ..*old(server) })
            },
    {
        server.process_iouring(self.badge, requests)
    }
}

/// The tags of the requests, in their order.
pub open spec fn request_tags(requests: Seq<Request>) -> Seq<u64> {
    requests.map_values(|r: Request| r.user_data)
}

/// The tags of the responses, in their order.
pub open spec fn response_tags(responses: Seq<Response>) -> Seq<u64> {
    responses.map_values(|r: Response| r.user_data)
}

/// The tags of all requests that were submitted in a run of batches.
pub open spec fn submitted_tags(batches: Seq<Seq<Request>>) -> Seq<u64>
    decreases batches.len(),
{
    if batches.len() == 0 {
        Seq::empty()
    } else {
        submitted_tags(batches.drop_last()) + request_tags(batches.last())
    }
}

/// The tags of all completions that a run of batches left in the
/// completion queue.
pub open spec fn completed_tags(batches: Seq<Seq<Response>>) -> Seq<u64>
    decreases batches.len(),
{
    if batches.len() == 0 {
        Seq::empty()
    } else {
        completed_tags(batches.drop_last()) + response_tags(batches.last())
    }
}

/// However the submissions are spread over calls, and however each call
/// found the socket (known or not, either half open or not, its room and
/// what waited), the completion queue gets one completion
/// for each request, in the order of submission, each with the tag of its
/// request.
pub proof fn lemma_completions_accrue(
    submitted: Seq<Seq<Request>>,
    completed: Seq<Seq<Response>>,
    found: Seq<(bool, bool, bool, int, Seq<u8>)>,
)
    requires
        submitted.len() == completed.len() == found.len(),
        forall|i: int|
            0 <= i < submitted.len() ==> answers_all(
                #[trigger] submitted[i],
                completed[i],
                found[i].0,
                found[i].1,
                found[i].2,
                found[i].3,
                found[i].4,
            ),
    ensures
        completed_tags(completed) == submitted_tags(submitted),
    decreases submitted.len(),
{
    if submitted.len() > 0 {
        lemma_completions_accrue(submitted.drop_last(), completed.drop_last(), found.drop_last());
        let last = submitted.len() - 1;
        let (requests, responses) = (submitted[last], completed[last]);
        let f = found[last];
        assert(answers_all(requests, responses, f.0, f.1, f.2, f.3, f.4));
        assert forall|i: int| 0 <= i < requests.len() implies responses[i].user_data
            == requests[i].user_data by {
            assert(answered(requests, responses, f.0, f.1, f.2, f.3, f.4, i));
        }
        assert(response_tags(completed.last()) =~= request_tags(submitted.last()));
    }
}

} // verus!
