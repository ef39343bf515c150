//! Numbers of the service's wire protocol: protocol ids, call labels,
//! notification bits, socket constants and ring opcodes.

use vstd::prelude::*;

verus! {

/// Protocol id of messages that the kernel sends.
pub const KERNEL_PROTO: usize = 0;

/// Label of a kernel notification.
pub const NOTIFY: usize = 1;

/// Protocol id of the socket calls.
pub const NETWORK_PROTO: usize = 6;

pub const SOCKET: usize = 1;

pub const BIND: usize = 2;

pub const LISTEN: usize = 3;

pub const CONNECT: usize = 4;

pub const ACCEPT: usize = 5;

pub const CLOSE: usize = 6;

pub const SEND: usize = 7;

pub const RECV: usize = 8;

pub const SETUP_IOURING: usize = 9;

pub const PROCESS_IOURING: usize = 10;

/// Address family of IPv4, the only one the service offers.
pub const AF_INET: i32 = 2;

/// Socket type of a byte stream, the only one the service offers.
pub const SOCK_STREAM: i32 = 1;

/// Badge bit: a ring's submission queue has new entries.
pub const NOTIFY_IO_URING_SQ: usize = 1;

/// Badge bit: a ring's completion queue has new entries.
pub const NOTIFY_IO_URING_CQ: usize = 2;

/// Badge bit: the device manager has seen a new device.
pub const NOTIFY_HOOK: usize = 4;

/// Ring opcode: read from the socket into the entry's buffer.
pub const IOURING_OP_READ: u8 = 1;

/// Ring opcode: write the entry's buffer to the socket.
pub const IOURING_OP_WRITE: u8 = 2;

/// Size of each socket's transmit buffer and of its receive buffer.
pub const SOCKET_BUFFER_SIZE: usize = 4096;

/// Largest payload that one reply carries back from `RECV`.
pub const RECV_CHUNK: usize = 2048;

} // verus!
