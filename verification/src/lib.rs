//! Decision core of a userspace network service: device attachment, the
//! socket multiplexer over the TCP/IP stack, and the dispatch of messages.

pub mod device;
pub mod error;
pub mod gopher;
pub mod layout;
pub mod netstack;
pub mod protocol;
