//! Constants of the lwIP socket API as it is built for ESP-IDF.

use vstd::prelude::*;

verus! {

/// Address family of IPv4.
pub const AF_INET: i32 = 2;

/// Address family of IPv6.
pub const AF_INET6: i32 = 10;

/// Socket type of a byte stream.
pub const SOCK_STREAM: i32 = 1;

/// Option level of the socket itself.
pub const SOL_SOCKET: i32 = 0xfff;

/// Option that lets a local address be bound again at once.
pub const SO_REUSEADDR: i32 = 0x0004;

/// `fcntl` command that reads the status flags of a descriptor.
pub const F_GETFL: i32 = 3;

/// `fcntl` command that writes the status flags of a descriptor.
pub const F_SETFL: i32 = 4;

/// Status flag of a descriptor whose calls never block.
pub const O_NONBLOCK: i32 = 0x4000;

/// Error code of a call that would have had to wait.
pub const EAGAIN: i32 = 11;

/// Second name of the same condition; the two may differ on other systems.
pub const EWOULDBLOCK: i32 = 11;

/// Number of connections that a listener lets wait to be accepted.
pub const LISTEN_BACKLOG: i32 = 128;

/// Size in bytes of `struct sockaddr_in`.
pub const SOCKADDR_IN_LEN: usize = 16;

/// Size in bytes of `struct sockaddr_in6`.
pub const SOCKADDR_IN6_LEN: usize = 28;

/// Size in bytes of `struct sockaddr_storage`, which holds either of the two.
pub const SOCKADDR_STORAGE_LEN: usize = 28;

} // verus!
