//! Listeners and streams, and the operations that take more than one call.
//!
//! [`Bind`] and [`Accept`] create a descriptor on their way. While one of
//! them goes on, it alone holds that descriptor. It ends in one of two ways:
//! it hands the descriptor out, inside the listener or the stream that then
//! owns it, or it closes the descriptor as its last call and fails.

use crate::abi::{LISTEN_BACKLOG, SOCK_STREAM, SOL_SOCKET, SO_REUSEADDR};
use crate::addr::SocketAddr;
use crate::inner::{IntoInner, SockaddrStorage};
use crate::socket::{family_of, PollAcceptState, SetNonblocking, Setsockopt, Socket, Transfer};
use crate::sys::{cvt, errno_after, spec_cvt, IOError, Poll, Step, Syscall};
use vstd::prelude::*;

verus! {

/// A connected socket, non-blocking from the moment it is handed out.
#[must_use]
#[derive(Debug, PartialEq, Eq)]
pub struct TcpStream {
    inner: Socket,
}

/// A socket that is bound to a local address and listens on it.
#[must_use]
#[derive(Debug, PartialEq, Eq)]
pub struct TcpListener {
    inner: Socket,
}

/// The states of binding a listener, in the order in which they are gone
/// through. All but the first hold the descriptor that was created.
#[derive(Clone, Copy, Debug, PartialEq, Eq)]
pub enum BindState {
    /// The socket is still to be created.
    Create { addr: SocketAddr },
    /// The socket is being made non-blocking.
    Nonblocking { addr: SocketAddr, op: SetNonblocking },
    /// Reuse of the local address is still to be switched on.
    ReuseAddr { addr: SocketAddr, fd: i32 },
    /// The socket is still to be bound to `addr`.
    Bind { addr: SocketAddr, fd: i32 },
    /// The socket is still to be told to listen.
    Listen { fd: i32 },
    /// A call failed with `error`: the descriptor is still to be closed.
    Close { fd: i32, error: IOError },
}

/// Binding a listener to an address.
#[must_use]
#[derive(Debug, PartialEq, Eq)]
pub struct Bind {
    state: BindState,
}

/// The states of accepting a connection.
#[derive(Clone, Copy, Debug, PartialEq, Eq)]
pub enum AcceptState {
    /// A connection is awaited: the attempt is made each time the operation
    /// is polled.
    Accept(PollAcceptState),
    /// A connection from `peer` was accepted: its socket is being made
    /// non-blocking.
    Nonblocking { peer: SocketAddr, op: SetNonblocking },
    /// A call on the accepted descriptor failed with `error`: the
    /// descriptor is still to be closed.
    Close { fd: i32, error: IOError },
}

/// Accepting a connection on a listener.
#[must_use]
#[derive(Debug, PartialEq, Eq)]
pub struct Accept {
    state: AcceptState,
}

impl TcpStream {
    /// The descriptor that the stream owns.
    pub closed spec fn fd(&self) -> i32 {
        self.inner.fd()
    }

    pub(crate) fn from_socket(sock: Socket) -> (stream: TcpStream)
        ensures
            stream.fd() == sock.fd(),
    {
        TcpStream { inner: sock }
    }

    pub fn as_raw_fd(&self) -> (fd: i32)
        ensures
            fd == self.fd(),
            fd >= 0,
    {
        self.inner.as_raw_fd()
    }

    /// Starts reading from the stream into a buffer of `len` bytes.
    pub fn read(&self, len: usize) -> (op: Transfer)
        ensures
            op == (Transfer::Read { fd: self.fd(), len }),
    {
        self.inner.poll_read(len)
    }

    /// Starts writing to the stream from a buffer of `len` bytes.
    pub fn write(&self, len: usize) -> (op: Transfer)
        ensures
            op == (Transfer::Write { fd: self.fd(), len }),
    {
        self.inner.poll_write(len)
    }

    /// Gives up the stream for the call that closes its descriptor.
    pub fn close(self) -> (call: Syscall)
        ensures
            call == (Syscall::Close { fd: self.fd() }),
    {
        self.inner.close()
    }
}

impl TcpListener {
    /// The descriptor that the listener owns.
    pub closed spec fn fd(&self) -> i32 {
        self.inner.fd()
    }

    pub fn as_raw_fd(&self) -> (fd: i32)
        ensures
            fd == self.fd(),
            fd >= 0,
    {
        self.inner.as_raw_fd()
    }

    /// Starts binding a listener to `addr`.
    pub fn bind(addr: &SocketAddr) -> (op: Bind)
        ensures
            op@ == (BindState::Create { addr: *addr }),
    {
        Bind { state: BindState::Create { addr: *addr } }
    }

    /// Starts accepting a connection.
    pub fn accept(&self) -> (op: Accept)
        ensures
            op@ == AcceptState::Accept(PollAcceptState::Accept { fd: self.fd() }),
    {
        let fd = self.inner.as_raw_fd();
        Accept { state: AcceptState::Accept(PollAcceptState::Accept { fd }) }
    }

    /// Gives up the listener for the call that closes its descriptor.
    pub fn close(self) -> (call: Syscall)
        ensures
            call == (Syscall::Close { fd: self.fd() }),
    {
        self.inner.close()
    }
}

impl BindState {
    /// The descriptor that the operation holds in this state.
    pub open spec fn held(self) -> Option<i32> {
        match self {
            BindState::Create { .. } => None,
            BindState::Nonblocking { op, .. } => Some(op.spec_fd()),
            BindState::ReuseAddr { fd, .. } => Some(fd),
            BindState::Bind { fd, .. } => Some(fd),
            BindState::Listen { fd } => Some(fd),
            BindState::Close { fd, .. } => Some(fd),
        }
    }

    pub open spec fn spec_call(self) -> Syscall {
        match self {
            BindState::Create { addr } => Syscall::Socket {
                domain: family_of(addr),
                ty: SOCK_STREAM,
                protocol: 0,
            },
            BindState::Nonblocking { op, .. } => op.spec_call(),
            BindState::ReuseAddr { fd, .. } => Self::reuse_addr(fd).spec_syscall(),
            BindState::Bind { addr, fd } => Syscall::Bind {
                fd,
                addr: (&addr).spec_into_inner().0,
                addr_len: (&addr).spec_into_inner().1,
            },
            BindState::Listen { fd } => Syscall::Listen { fd, backlog: LISTEN_BACKLOG },
            BindState::Close { fd, .. } => Syscall::Close { fd },
        }
    }

    /// The option that a listener sets on its socket: the local address may
    /// be bound again at once.
    pub open spec fn reuse_addr(fd: i32) -> Setsockopt<i32> {
        Setsockopt { fd, level: SOL_SOCKET, name: SO_REUSEADDR, value: 1 }
    }

    /// Where the operation stands after the reply `ret` to its call, with
    /// `errno` in the last-error slot. The first call that fails ends the
    /// sequence; if the descriptor exists by then, it is closed before the
    /// failure is reported.
    pub open spec fn spec_step(self, ret: i32, errno: i32) -> Step<BindState, Result<i32, IOError>> {
        match self {
            BindState::Create { addr } => match spec_cvt(ret, errno) {
                Ok(fd) => Step::Call(
                    BindState::Nonblocking { addr, op: SetNonblocking::GetFlags { fd } },
                ),
                Err(error) => Step::Ready(Err(error)),
            },
            BindState::Nonblocking { addr, op } => match op.spec_step(ret, errno) {
                Step::Call(next) => Step::Call(BindState::Nonblocking { addr, op: next }),
                Step::Pending(next) => Step::Pending(BindState::Nonblocking { addr, op: next }),
                Step::Ready(Ok(_)) => Step::Call(BindState::ReuseAddr { addr, fd: op.spec_fd() }),
                Step::Ready(Err(error)) => Step::Call(
                    BindState::Close { fd: op.spec_fd(), error },
                ),
            },
            BindState::ReuseAddr { addr, fd } => match Setsockopt::<i32>::spec_complete(ret, errno) {
                Ok(_) => Step::Call(BindState::Bind { addr, fd }),
                Err(error) => Step::Call(BindState::Close { fd, error }),
            },
            BindState::Bind { fd, .. } => match spec_cvt(ret, errno) {
                Ok(_) => Step::Call(BindState::Listen { fd }),
                Err(error) => Step::Call(BindState::Close { fd, error }),
            },
            BindState::Listen { fd } => match spec_cvt(ret, errno) {
                Ok(_) => Step::Ready(Ok(fd)),
                Err(error) => Step::Call(BindState::Close { fd, error }),
            },
            BindState::Close { error, .. } => Step::Ready(Err(error)),
        }
    }

    /// What the last-error slot holds after the step: the reply to a close
    /// is not classified, so the slot is not touched.
    pub open spec fn spec_errno_after(self, ret: i32, errno: i32) -> i32 {
        match self {
            BindState::Close { .. } => errno,
            _ => errno_after(ret, errno),
        }
    }
}

impl View for Bind {
    type V = BindState;

    closed spec fn view(&self) -> BindState {
        self.state
    }
}

impl Bind {
    #[verifier::type_invariant]
    spec fn inv(self) -> bool {
        self.state.held() matches Some(fd) ==> fd >= 0
    }

    /// The result of a step with the operation in it replaced by its state
    /// and the listener by its descriptor.
    pub open spec fn step_view(res: Step<Bind, Result<TcpListener, IOError>>) -> Step<
        BindState,
        Result<i32, IOError>,
    > {
        match res {
            Step::Call(op) => Step::Call(op@),
            Step::Pending(op) => Step::Pending(op@),
            Step::Ready(Ok(listener)) => Step::Ready(Ok(listener.fd())),
            Step::Ready(Err(error)) => Step::Ready(Err(error)),
        }
    }

    pub fn state(&self) -> (state: BindState)
        ensures
            state == self@,
    {
        self.state
    }

    fn reuse_addr(fd: i32) -> (op: Setsockopt<i32>)
        ensures
            op == BindState::reuse_addr(fd),
    {
        Setsockopt { fd, level: SOL_SOCKET, name: SO_REUSEADDR, value: 1 }
    }

    /// The call to make.
    pub fn call(&self) -> (call: Syscall)
        ensures
            call == self@.spec_call(),
    {
        match &self.state {
            BindState::Create { addr } => Socket::new(addr, SOCK_STREAM).call(),
            BindState::Nonblocking { op, .. } => op.call(),
            BindState::ReuseAddr { fd, .. } => Bind::reuse_addr(*fd).syscall(),
            BindState::Bind { addr, fd } => {
                let (addr, addr_len) = addr.into_inner();
                Syscall::Bind { fd: *fd, addr, addr_len }
            },
            BindState::Listen { fd } => Syscall::Listen { fd: *fd, backlog: LISTEN_BACKLOG },
            BindState::Close { fd, .. } => Syscall::Close { fd: *fd },
        }
    }

    /// Takes the return value of the call.
    pub fn step(self, ret: i32, errno: &mut i32) -> (res: Step<Bind, Result<TcpListener, IOError>>)
        ensures
            Self::step_view(res) == self@.spec_step(ret, *old(errno)),
            *final(errno) == self@.spec_errno_after(ret, *old(errno)),
    {
        proof {
            use_type_invariant(&self);
        }
        match self.state {
            BindState::Create { addr } => match cvt(ret, errno) {
                Ok(fd) => Step::Call(
                    Bind {
                        state: BindState::Nonblocking { addr, op: SetNonblocking::GetFlags { fd } },
                    },
                ),
                Err(error) => Step::Ready(Err(error)),
            },
            BindState::Nonblocking { addr, op } => {
                let fd = op.fd();
                match op.step(ret, errno) {
                    Step::Call(next) => Step::Call(
                        Bind { state: BindState::Nonblocking { addr, op: next } },
                    ),
                    Step::Pending(next) => Step::Pending(
                        Bind { state: BindState::Nonblocking { addr, op: next } },
                    ),
                    Step::Ready(Ok(_)) => Step::Call(
                        Bind { state: BindState::ReuseAddr { addr, fd } },
                    ),
                    Step::Ready(Err(error)) => Step::Call(
                        Bind { state: BindState::Close { fd, error } },
                    ),
                }
            },
            BindState::ReuseAddr { addr, fd } => match Bind::reuse_addr(fd).complete(ret, errno) {
                Ok(_) => Step::Call(Bind { state: BindState::Bind { addr, fd } }),
                Err(error) => Step::Call(Bind { state: BindState::Close { fd, error } }),
            },
            BindState::Bind { fd, .. } => match cvt(ret, errno) {
                Ok(_) => Step::Call(Bind { state: BindState::Listen { fd } }),
                Err(error) => Step::Call(Bind { state: BindState::Close { fd, error } }),
            },
            BindState::Listen { fd } => match cvt(ret, errno) {
                Ok(_) => Step::Ready(Ok(TcpListener { inner: Socket::owning(fd) })),
                Err(error) => Step::Call(Bind { state: BindState::Close { fd, error } }),
            },
            BindState::Close { error, .. } => Step::Ready(Err(error)),
        }
    }
}

impl AcceptState {
    /// The accepted descriptor that the operation holds in this state.
    pub open spec fn held(self) -> Option<i32> {
        match self {
            AcceptState::Accept(PollAcceptState::Accept { .. }) => None,
            AcceptState::Accept(PollAcceptState::Close { fd, .. }) => Some(fd),
            AcceptState::Nonblocking { op, .. } => Some(op.spec_fd()),
            AcceptState::Close { fd, .. } => Some(fd),
        }
    }

    pub open spec fn spec_call(self) -> Syscall {
        match self {
            AcceptState::Accept(attempt) => attempt.spec_call(),
            AcceptState::Nonblocking { op, .. } => op.spec_call(),
            AcceptState::Close { fd, .. } => Syscall::Close { fd },
        }
    }

    /// Where the operation stands after the reply to its call: the return
    /// value `ret`, with `errno` in the last-error slot and `peer` as the
    /// call left the address buffer.
    ///
    /// While no connection is there the operation waits in the state it is
    /// in. A connection that was accepted is handed out only once its
    /// socket is non-blocking; if that fails, the connection is closed
    /// before the failure is reported.
    pub open spec fn spec_step(self, ret: i32, errno: i32, peer: SockaddrStorage) -> Step<
        AcceptState,
        Result<(i32, SocketAddr), IOError>,
    > {
        match self {
            AcceptState::Accept(attempt) => match attempt.spec_step(ret, errno, peer) {
                Step::Call(next) => Step::Call(AcceptState::Accept(next)),
                Step::Pending(next) => Step::Pending(AcceptState::Accept(next)),
                Step::Ready(Poll::Pending) => Step::Pending(self),
                Step::Ready(Poll::Ready(Err(error))) => Step::Ready(Err(error)),
                Step::Ready(Poll::Ready(Ok((fd, addr)))) => Step::Call(
                    AcceptState::Nonblocking { peer: addr, op: SetNonblocking::GetFlags { fd } },
                ),
            },
            AcceptState::Nonblocking { peer: addr, op } => match op.spec_step(ret, errno) {
                Step::Call(next) => Step::Call(AcceptState::Nonblocking { peer: addr, op: next }),
                Step::Pending(next) => Step::Pending(
                    AcceptState::Nonblocking { peer: addr, op: next },
                ),
                Step::Ready(Ok(_)) => Step::Ready(Ok((op.spec_fd(), addr))),
                Step::Ready(Err(error)) => Step::Call(
                    AcceptState::Close { fd: op.spec_fd(), error },
                ),
            },
            AcceptState::Close { error, .. } => Step::Ready(Err(error)),
        }
    }

    /// What the last-error slot holds after the step: the reply to a close
    /// is not classified, so the slot is not touched.
    pub open spec fn spec_errno_after(self, ret: i32, errno: i32) -> i32 {
        match self {
            AcceptState::Accept(attempt) => attempt.spec_errno_after(ret, errno),
            AcceptState::Nonblocking { .. } => errno_after(ret, errno),
            AcceptState::Close { .. } => errno,
        }
    }
}

impl View for Accept {
    type V = AcceptState;

    closed spec fn view(&self) -> AcceptState {
        self.state
    }
}

impl Accept {
    #[verifier::type_invariant]
    spec fn inv(self) -> bool {
        self.state matches AcceptState::Nonblocking { op, .. } ==> op.spec_fd() >= 0
    }

    /// The result of a step with the operation in it replaced by its state
    /// and the stream by its descriptor.
    pub open spec fn step_view(res: Step<Accept, Result<(TcpStream, SocketAddr), IOError>>) -> Step<
        AcceptState,
        Result<(i32, SocketAddr), IOError>,
    > {
        match res {
            Step::Call(op) => Step::Call(op@),
            Step::Pending(op) => Step::Pending(op@),
            Step::Ready(Ok((stream, peer))) => Step::Ready(Ok((stream.fd(), peer))),
            Step::Ready(Err(error)) => Step::Ready(Err(error)),
        }
    }

    pub fn state(&self) -> (state: AcceptState)
        ensures
            state == self@,
    {
        self.state
    }

    /// The call to make.
    pub fn call(&self) -> (call: Syscall)
        ensures
            call == self@.spec_call(),
    {
        match &self.state {
            AcceptState::Accept(attempt) => attempt.call(),
            AcceptState::Nonblocking { op, .. } => op.call(),
            AcceptState::Close { fd, .. } => Syscall::Close { fd: *fd },
        }
    }

    /// Takes the reply to the call: its return value, and the address
    /// buffer and the length as the call left them. Only the reply to an
    /// accept that succeeded has an address in it, and only there does the
    /// buffer matter; the length must then cover what the buffer's tag
    /// promises.
    pub fn step(self, ret: i32, errno: &mut i32, peer: &SockaddrStorage, peer_len: u32) -> (res:
        Step<Accept, Result<(TcpStream, SocketAddr), IOError>>)
        requires
            self@ matches AcceptState::Accept(PollAcceptState::Accept { .. }) && ret >= 0
                ==> peer.spec_covered_by(peer_len as usize),
        ensures
            Self::step_view(res) == self@.spec_step(ret, *old(errno), *peer),
            *final(errno) == self@.spec_errno_after(ret, *old(errno)),
    {
        proof {
            use_type_invariant(&self);
        }
        match self.state {
            AcceptState::Accept(attempt) => match attempt.step(ret, errno, peer, peer_len) {
                Step::Call(next) => Step::Call(Accept { state: AcceptState::Accept(next) }),
                Step::Pending(next) => Step::Pending(Accept { state: AcceptState::Accept(next) }),
                Step::Ready(Poll::Pending) => Step::Pending(self),
                Step::Ready(Poll::Ready(Err(error))) => Step::Ready(Err(error)),
                Step::Ready(Poll::Ready(Ok((fd, addr)))) => Step::Call(
                    Accept {
                        state: AcceptState::Nonblocking {
                            peer: addr,
                            op: SetNonblocking::GetFlags { fd },
                        },
                    },
                ),
            },
            AcceptState::Nonblocking { peer: addr, op } => {
                let fd = op.fd();
                match op.step(ret, errno) {
                    Step::Call(next) => Step::Call(
                        Accept { state: AcceptState::Nonblocking { peer: addr, op: next } },
                    ),
                    Step::Pending(next) => Step::Pending(
                        Accept { state: AcceptState::Nonblocking { peer: addr, op: next } },
                    ),
                    Step::Ready(Ok(_)) => Step::Ready(
                        Ok((TcpStream { inner: Socket::owning(fd) }, addr)),
                    ),
                    Step::Ready(Err(error)) => Step::Call(
                        Accept { state: AcceptState::Close { fd, error } },
                    ),
                }
            },
            AcceptState::Close { error, .. } => Step::Ready(Err(error)),
        }
    }
}

} // verus!
