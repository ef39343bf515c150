//! The TCP/IP stack as the service sees it: the socket set, the TCP sockets
//! in it, and the reading of a dotted IPv4 address into the stack's address
//! type.
//!
//! Nothing in this file is proved. Each function states what the stack's
//! source shows of the call it makes; the rest of the crate is verified
//! against these statements.

use vstd::prelude::*;
use smoltcp::iface::{SocketHandle, SocketSet};
use smoltcp::socket::tcp;

verus! {

#[verifier::external_type_specification]
#[verifier::external_body]
pub struct ExSocketHandle(SocketHandle);

#[verifier::external_type_specification]
#[verifier::external_body]
pub struct ExSocketSet<'a>(SocketSet<'a>);

#[verifier::external_type_specification]
#[verifier::external_body]
pub struct ExListenError(tcp::ListenError);

#[verifier::external_type_specification]
#[verifier::external_body]
pub struct ExSendError(tcp::SendError);

#[verifier::external_type_specification]
#[verifier::external_body]
pub struct ExRecvError(tcp::RecvError);

/// The handles of the TCP sockets that the set holds.
pub uninterp spec fn tcp_sockets(set: SocketSet<'static>) -> Set<SocketHandle>;

/// Whether the set was made over growable storage, so that adding a socket
/// never finds it full.
pub uninterp spec fn growable(set: SocketSet<'static>) -> bool;

/// What `str::parse` reads from a dotted IPv4 address: its four octets, or
/// nothing where the text is no such address. The stack's address type is
/// the standard library's, and so is the parser.
pub uninterp spec fn ipv4_octets(text: Seq<char>) -> Option<(u8, u8, u8, u8)>;

/// What `tcp::Socket::may_send` returns on the socket of that handle: whether
/// the transmit half of its connection is open.
pub uninterp spec fn tcp_tx_open(set: SocketSet<'static>, handle: SocketHandle) -> bool;

/// What `tcp::Socket::may_recv` returns on the socket of that handle: whether
/// the receive half of its connection is open or received data waits.
pub uninterp spec fn tcp_rx_open(set: SocketSet<'static>, handle: SocketHandle) -> bool;

/// Whether `tcp::Socket::listen` on that port succeeds on the socket of that
/// handle as it is.
pub uninterp spec fn tcp_listens(set: SocketSet<'static>, handle: SocketHandle, port: u16) -> bool;

/// The octets in the transmit buffer of the socket of that handle, the
/// oldest first.
pub uninterp spec fn tcp_tx_queue(set: SocketSet<'static>, handle: SocketHandle) -> Seq<u8>;

/// How many octets the transmit buffer of the socket of that handle holds at
/// most.
pub uninterp spec fn tcp_tx_capacity(set: SocketSet<'static>, handle: SocketHandle) -> nat;

/// The octets in the receive buffer of the socket of that handle that wait
/// to be dequeued, the oldest first.
pub uninterp spec fn tcp_rx_queue(set: SocketSet<'static>, handle: SocketHandle) -> Seq<u8>;

/// The smaller of two numbers.
pub open spec fn least(a: int, b: int) -> int {
    if a <= b {
        a
    } else {
        b
    }
}

/// `SocketSet::new` over an empty `Vec`: a set without sockets, which grows
/// as sockets are added.
#[verifier::external_body]
pub(crate) fn new_socket_set() -> (set: SocketSet<'static>)
    ensures
        tcp_sockets(set) == Set::<SocketHandle>::empty(),
        growable(set),
{
    SocketSet::new(Vec::new())
}

/// `tcp::Socket::new` over the two buffers, then `SocketSet::add`. The new
/// socket gets a handle that no socket of the set had, and the others stay.
/// The new socket is closed: neither half of a connection is open, both
/// buffers are empty, the transmit buffer holds as many octets as `tx` is
/// long, and it can listen on every port but zero. `Socket::new` panics on
/// a receive buffer of more than 1 GiB, and `add` on a full set over fixed
/// storage: both are excluded.
#[verifier::external_body]
pub(crate) fn add_tcp_socket(set: &mut SocketSet<'static>, rx: Vec<u8>, tx: Vec<u8>) -> (handle:
    SocketHandle)
    requires
        growable(*old(set)),
        rx.len() <= 0x4000_0000,
    ensures
        !tcp_sockets(*old(set)).contains(handle),
        tcp_sockets(*final(set)) == tcp_sockets(*old(set)).insert(handle),
        growable(*final(set)),
        !tcp_tx_open(*final(set), handle),
        !tcp_rx_open(*final(set), handle),
        tcp_tx_queue(*final(set), handle) == Seq::<u8>::empty(),
        tcp_rx_queue(*final(set), handle) == Seq::<u8>::empty(),
        tcp_tx_capacity(*final(set), handle) == tx@.len(),
        forall|port: u16| port != 0 ==> #[trigger] tcp_listens(*final(set), handle, port),
{
    set.add(tcp::Socket::new(tcp::SocketBuffer::new(rx), tcp::SocketBuffer::new(tx)))
}

/// `SocketSet::remove`: the socket leaves the set and is dropped; the others
/// stay. It panics on a handle without a socket, which is excluded.
#[verifier::external_body]
pub(crate) fn remove_socket(set: &mut SocketSet<'static>, handle: SocketHandle)
    requires
        tcp_sockets(*old(set)).contains(handle),
    ensures
        tcp_sockets(*final(set)) == tcp_sockets(*old(set)).remove(handle),
        growable(*final(set)) == growable(*old(set)),
{
    set.remove(handle);
}

/// `tcp::Socket::listen` on a port, on the socket that `SocketSet::get_mut`
/// finds. Whether it succeeds is a matter of the socket as it was and of the
/// port, and port zero is always refused. No socket enters or leaves the
/// set.
#[verifier::external_body]
pub(crate) fn tcp_listen(set: &mut SocketSet<'static>, handle: SocketHandle, port: u16) -> (r:
    Result<(), tcp::ListenError>)
    requires
        tcp_sockets(*old(set)).contains(handle),
    ensures
        tcp_sockets(*final(set)) == tcp_sockets(*old(set)),
        growable(*final(set)) == growable(*old(set)),
        r is Ok <==> tcp_listens(*old(set), handle, port),
        port == 0 ==> r is Err,
{
    set.get_mut::<tcp::Socket>(handle).listen(port)
}

/// `tcp::Socket::may_send` on the socket that `SocketSet::get` finds: whether
/// the transmit half of the connection is open.
#[verifier::external_body]
pub(crate) fn tcp_may_send(set: &SocketSet<'static>, handle: SocketHandle) -> (open: bool)
    requires
        tcp_sockets(*set).contains(handle),
    ensures
        open == tcp_tx_open(*set, handle),
{
    set.get::<tcp::Socket>(handle).may_send()
}

/// `tcp::Socket::may_recv` on the socket that `SocketSet::get` finds: whether
/// the receive half is open or received data waits.
#[verifier::external_body]
pub(crate) fn tcp_may_recv(set: &SocketSet<'static>, handle: SocketHandle) -> (open: bool)
    requires
        tcp_sockets(*set).contains(handle),
    ensures
        open == tcp_rx_open(*set, handle),
{
    set.get::<tcp::Socket>(handle).may_recv()
}

/// `tcp::Socket::send_slice`: enqueues the front of `data` behind what the
/// transmit buffer holds, as much of it as the buffer has room for, and
/// returns that count. It fails exactly where the transmit half was not
/// open, and then enqueues nothing. It leaves both halves of the socket's
/// connection open or not as they were, and the receive buffer and the size
/// of the transmit buffer as they were. No socket enters or leaves the set.
#[verifier::external_body]
pub(crate) fn tcp_send_slice(set: &mut SocketSet<'static>, handle: SocketHandle, data: &[u8]) -> (r:
    Result<usize, tcp::SendError>)
    requires
        tcp_sockets(*old(set)).contains(handle),
    ensures
        tcp_sockets(*final(set)) == tcp_sockets(*old(set)),
        growable(*final(set)) == growable(*old(set)),
        r is Ok <==> tcp_tx_open(*old(set), handle),
        r matches Ok(n) ==> n <= data@.len(),
        r matches Ok(n) ==> n == least(
            data@.len() as int,
            tcp_tx_capacity(*old(set), handle) - tcp_tx_queue(*old(set), handle).len(),
        ) && tcp_tx_queue(*final(set), handle) == tcp_tx_queue(*old(set), handle) + data@.take(
            n as int,
        ),
        r is Err ==> tcp_tx_queue(*final(set), handle) == tcp_tx_queue(*old(set), handle),
        tcp_tx_queue(*final(set), handle).len() <= tcp_tx_capacity(*final(set), handle),
        tcp_tx_capacity(*final(set), handle) == tcp_tx_capacity(*old(set), handle),
        tcp_rx_queue(*final(set), handle) == tcp_rx_queue(*old(set), handle),
        tcp_tx_open(*final(set), handle) == tcp_tx_open(*old(set), handle),
        tcp_rx_open(*final(set), handle) == tcp_rx_open(*old(set), handle),
{
    set.get_mut::<tcp::Socket>(handle).send_slice(data)
}

/// `tcp::Socket::recv_slice` into the whole of `buffer`: dequeues the oldest
/// octets that wait in the receive buffer into the front of `buffer`, as
/// many as wait and as it has room for, and returns their count. The buffer
/// keeps its length, and what lies behind the count is untouched; on an
/// error nothing is written and nothing dequeued. It fails exactly where the
/// receive half was not open and no data waited. It leaves the transmit half
/// and the transmit buffer as they were, and the receive half too where it
/// dequeued nothing. No socket enters or leaves the set.
#[verifier::external_body]
pub(crate) fn tcp_recv_slice(
    set: &mut SocketSet<'static>,
    handle: SocketHandle,
    buffer: &mut Vec<u8>,
) -> (r: Result<usize, tcp::RecvError>)
    requires
        tcp_sockets(*old(set)).contains(handle),
    ensures
        tcp_sockets(*final(set)) == tcp_sockets(*old(set)),
        growable(*final(set)) == growable(*old(set)),
        final(buffer)@.len() == old(buffer)@.len(),
        r is Ok <==> tcp_rx_open(*old(set), handle),
        r matches Ok(n) ==> n <= old(buffer)@.len() && final(buffer)@.skip(n as int) == old(
            buffer,
        )@.skip(n as int),
        r is Err ==> final(buffer)@ == old(buffer)@,
        r matches Ok(n) ==> n == least(
            old(buffer)@.len() as int,
            tcp_rx_queue(*old(set), handle).len() as int,
        ) && final(buffer)@.take(n as int) == tcp_rx_queue(*old(set), handle).take(n as int)
            && tcp_rx_queue(*final(set), handle) == tcp_rx_queue(*old(set), handle).skip(n as int),
        r is Err ==> tcp_rx_queue(*final(set), handle) == tcp_rx_queue(*old(set), handle),
        tcp_tx_queue(*final(set), handle) == tcp_tx_queue(*old(set), handle),
        tcp_tx_capacity(*final(set), handle) == tcp_tx_capacity(*old(set), handle),
        tcp_tx_open(*final(set), handle) == tcp_tx_open(*old(set), handle),
        r is Err || r == Ok::<usize, tcp::RecvError>(0) ==> tcp_rx_open(*final(set), handle)
            == tcp_rx_open(*old(set), handle),
{
    set.get_mut::<tcp::Socket>(handle).recv_slice(buffer.as_mut_slice())
}

/// `str::parse` to the stack's `Ipv4Address`, and the address's octets.
#[verifier::external_body]
pub(crate) fn parse_ipv4(text: &str) -> (r: Option<(u8, u8, u8, u8)>)
    ensures
        r == ipv4_octets(text@),
{
    match text.parse::<smoltcp::wire::Ipv4Address>() {
        Ok(addr) => {
            let o = addr.octets();
            Some((o[0], o[1], o[2], o[3]))
        },
        Err(_) => None,
    }
}

} // verus!
