//! A sans-I/O model of non-blocking TCP sockets on the lwIP socket API.
//!
//! The crate never calls the socket API itself. Each operation is a small
//! state machine: it names the next call to make ([`Syscall`]), and is then
//! given the raw return value of that call together with the last-error slot.
//! A driver performs the calls; everything that is decided (how an address
//! is laid out in memory, what a return value means, which call comes next,
//! when a descriptor has to be closed) is decided here.

pub mod abi;
pub mod addr;
pub mod inner;
pub mod runs;
pub mod socket;
pub mod sys;
pub mod tcp;

pub use crate::addr::{Ipv4Addr, Ipv6Addr, SocketAddr, SocketAddrV4, SocketAddrV6};
pub use crate::inner::{
    sockaddr_to_addr, FromInner, In6Addr, InAddr, IntoInner, SockaddrIn, SockaddrIn6,
    SockaddrStorage, SocketAddrCRepr,
};
pub use crate::runs::Reply;
pub use crate::socket::{
    Create, PollAccept, PollAcceptState, SetNonblocking, Setsockopt, SetsockoptCall, Socket,
    Transfer,
};
pub use crate::sys::{cvt, cvt_poll, IOError, Poll, Step, Syscall};
pub use crate::tcp::{Accept, AcceptState, Bind, BindState, TcpListener, TcpStream};
