//! The socket handle and the operations on one descriptor.
//!
//! A [`Socket`] owns a descriptor. It cannot be copied, and the only way to
//! be rid of it is [`Socket::close`], which gives the one call that closes
//! the descriptor in exchange for the handle.
//!
//! Every other function here starts an operation and returns it. An
//! operation names the call to make with `call`, and takes the reply with
//! `complete` where one call is all there is, with `step` where more may
//! follow.

use crate::abi::{AF_INET, AF_INET6, F_GETFL, F_SETFL, O_NONBLOCK, SOCKADDR_STORAGE_LEN};
use crate::addr::SocketAddr;
use crate::inner::{sockaddr_to_addr, spec_sockaddr_to_addr, SockaddrStorage};
use crate::sys::{
    cvt, cvt_poll, errno_after, spec_cvt, spec_cvt_poll, IOError, Poll, Step, Syscall,
};
use crate::tcp::TcpStream;
use vstd::layout::size_of;
use vstd::prelude::*;

verus! {

/// An open descriptor, which is never negative, and the duty to close it.
#[must_use]
#[derive(Debug, PartialEq, Eq)]
pub struct Socket {
    fd: i32,
}

/// The creation of a socket.
#[must_use]
#[derive(Clone, Copy, Debug, PartialEq, Eq)]
pub struct Create {
    pub domain: i32,
    pub ty: i32,
}

/// Making a descriptor non-blocking: its status flags are read, and written
/// back with the non-blocking bit set.
#[must_use]
#[derive(Clone, Copy, Debug, PartialEq, Eq)]
pub enum SetNonblocking {
    /// The flags are still to be read.
    GetFlags { fd: i32 },
    /// `flags`, which hold the non-blocking bit, are still to be written.
    SetFlags { fd: i32, flags: i32 },
}

/// Setting one option of a socket to a value of any type of fixed size.
#[must_use]
#[derive(Debug, PartialEq, Eq)]
pub struct Setsockopt<T> {
    pub fd: i32,
    pub level: i32,
    pub name: i32,
    pub value: T,
}

/// The call of a [`Setsockopt`]: `setsockopt(fd, level, name, value, len)`,
/// where the pointer handed over is to `value` and `len` is the size of
/// the value's type in bytes.
#[must_use]
#[derive(Debug, PartialEq, Eq)]
pub struct SetsockoptCall<'a, T> {
    pub fd: i32,
    pub level: i32,
    pub name: i32,
    pub value: &'a T,
    pub len: usize,
}

/// Reading into, or writing from, a buffer of `len` bytes.
#[must_use]
#[derive(Clone, Copy, Debug, PartialEq, Eq)]
pub enum Transfer {
    Read { fd: i32, len: usize },
    Write { fd: i32, len: usize },
}

/// The states of one attempt to accept a connection.
#[derive(Clone, Copy, Debug, PartialEq, Eq)]
pub enum PollAcceptState {
    /// The attempt on the listening descriptor `fd` is still to be made.
    Accept { fd: i32 },
    /// A connection was accepted on descriptor `fd`, but its peer address
    /// could not be read: the descriptor is to be closed, and `error` is
    /// what the attempt then ends with.
    Close { fd: i32, error: IOError },
}

/// One attempt to accept a connection. In its second state it is the only
/// holder of the descriptor it names.
#[must_use]
#[derive(Debug, PartialEq, Eq)]
pub struct PollAccept {
    state: PollAcceptState,
}

/// The address family that a socket for `addr` must have.
pub open spec fn family_of(addr: SocketAddr) -> i32 {
    match addr {
        SocketAddr::V4(_) => AF_INET,
        SocketAddr::V6(_) => AF_INET6,
    }
}

/// A result with the socket in it replaced by its descriptor.
pub open spec fn socket_fd(res: Result<Socket, IOError>) -> Result<i32, IOError> {
    match res {
        Ok(sock) => Ok(sock.fd()),
        Err(error) => Err(error),
    }
}

/// The outcome of an attempt to accept with the stream in it replaced by
/// its descriptor.
pub open spec fn accepted_fd(res: Poll<Result<(TcpStream, SocketAddr), IOError>>) -> Poll<
    Result<(i32, SocketAddr), IOError>,
> {
    match res {
        Poll::Pending => Poll::Pending,
        Poll::Ready(Err(error)) => Poll::Ready(Err(error)),
        Poll::Ready(Ok((stream, peer))) => Poll::Ready(Ok((stream.fd(), peer))),
    }
}

impl Socket {
    #[verifier::type_invariant]
    spec fn inv(self) -> bool {
        self.fd >= 0
    }

    /// The descriptor that the socket owns.
    pub closed spec fn fd(&self) -> i32 {
        self.fd
    }

    pub(crate) fn owning(fd: i32) -> (sock: Socket)
        requires
            fd >= 0,
        ensures
            sock.fd() == fd,
    {
        Socket { fd }
    }

    pub fn as_raw_fd(&self) -> (fd: i32)
        ensures
            fd == self.fd(),
            fd >= 0,
    {
        proof {
            use_type_invariant(self);
        }
        self.fd
    }

    /// Starts the creation of a socket of type `ty` that can be bound to
    /// `addr`: one of the family of `addr`.
    pub fn new(addr: &SocketAddr, ty: i32) -> (op: Create)
        ensures
            op == (Create { domain: family_of(*addr), ty }),
    {
        let fam = match addr {
            SocketAddr::V4(_) => AF_INET,
            SocketAddr::V6(_) => AF_INET6,
        };
        Socket::new_raw(fam, ty)
    }

    /// Starts the creation of a socket of family `fam` and type `ty`.
    pub fn new_raw(fam: i32, ty: i32) -> (op: Create)
        ensures
            op == (Create { domain: fam, ty }),
    {
        Create { domain: fam, ty }
    }

    /// Starts making the socket non-blocking.
    pub fn set_nonblocking(&self) -> (op: SetNonblocking)
        ensures
            op == (SetNonblocking::GetFlags { fd: self.fd() }),
    {
        SetNonblocking::GetFlags { fd: self.fd }
    }

    /// Starts an attempt to accept a connection on the socket.
    pub fn poll_accept(&self) -> (op: PollAccept)
        ensures
            op@ == (PollAcceptState::Accept { fd: self.fd() }),
    {
        PollAccept { state: PollAcceptState::Accept { fd: self.fd } }
    }

    /// Starts reading from the socket into a buffer of `len` bytes.
    pub fn poll_read(&self, len: usize) -> (op: Transfer)
        ensures
            op == (Transfer::Read { fd: self.fd(), len }),
    {
        Transfer::Read { fd: self.fd, len }
    }

    /// Starts writing to the socket from a buffer of `len` bytes.
    pub fn poll_write(&self, len: usize) -> (op: Transfer)
        ensures
            op == (Transfer::Write { fd: self.fd(), len }),
    {
        Transfer::Write { fd: self.fd, len }
    }

    /// Starts setting the option `option_name` of `level` to `option_value`.
    pub fn setsockopt<T>(&self, level: i32, option_name: i32, option_value: T) -> (op: Setsockopt<
        T,
    >)
        ensures
            op == (Setsockopt { fd: self.fd(), level, name: option_name, value: option_value }),
    {
        Setsockopt { fd: self.fd, level, name: option_name, value: option_value }
    }

    /// Gives up the socket for the call that closes its descriptor. The
    /// call is owed whatever happened to the socket before, and its return
    /// value is of no interest.
    pub fn close(self) -> (call: Syscall)
        ensures
            call == (Syscall::Close { fd: self.fd() }),
    {
        Syscall::Close { fd: self.fd }
    }
}

impl Create {
    pub open spec fn spec_call(self) -> Syscall {
        Syscall::Socket { domain: self.domain, ty: self.ty, protocol: 0 }
    }

    /// The call to make.
    pub fn call(&self) -> (call: Syscall)
        ensures
            call == self.spec_call(),
    {
        Syscall::Socket { domain: self.domain, ty: self.ty, protocol: 0 }
    }

    /// Takes the return value of the call: a descriptor, which the socket
    /// returned then owns, or a failure.
    pub fn complete(self, ret: i32, errno: &mut i32) -> (res: Result<Socket, IOError>)
        ensures
            socket_fd(res) == spec_cvt(ret, *old(errno)),
            *final(errno) == errno_after(ret, *old(errno)),
    {
        match cvt(ret, errno) {
            Ok(fd) => Ok(Socket { fd }),
            Err(error) => Err(error),
        }
    }
}

impl SetNonblocking {
    /// The descriptor that is made non-blocking.
    pub open spec fn spec_fd(self) -> i32 {
        match self {
            SetNonblocking::GetFlags { fd } => fd,
            SetNonblocking::SetFlags { fd, .. } => fd,
        }
    }

    pub open spec fn spec_call(self) -> Syscall {
        match self {
            SetNonblocking::GetFlags { fd } => Syscall::Fcntl { fd, cmd: F_GETFL, val: 0 },
            SetNonblocking::SetFlags { fd, flags } => Syscall::Fcntl {
                fd,
                cmd: F_SETFL,
                val: flags,
            },
        }
    }

    /// Where the operation stands after the reply `ret` to its call, with
    /// `errno` in the last-error slot. Both calls must succeed; the flags
    /// written are the flags read with the non-blocking bit added.
    pub open spec fn spec_step(self, ret: i32, errno: i32) -> Step<
        SetNonblocking,
        Result<(), IOError>,
    > {
        match self {
            SetNonblocking::GetFlags { fd } => match spec_cvt(ret, errno) {
                Ok(flags) => Step::Call(SetNonblocking::SetFlags { fd, flags: flags | O_NONBLOCK }),
                Err(error) => Step::Ready(Err(error)),
            },
            SetNonblocking::SetFlags { .. } => match spec_cvt(ret, errno) {
                Ok(_) => Step::Ready(Ok(())),
                Err(error) => Step::Ready(Err(error)),
            },
        }
    }

    pub fn fd(&self) -> (fd: i32)
        ensures
            fd == self.spec_fd(),
    {
        match self {
            SetNonblocking::GetFlags { fd } => *fd,
            SetNonblocking::SetFlags { fd, .. } => *fd,
        }
    }

    /// The call to make.
    pub fn call(&self) -> (call: Syscall)
        ensures
            call == self.spec_call(),
    {
        match self {
            SetNonblocking::GetFlags { fd } => Syscall::Fcntl { fd: *fd, cmd: F_GETFL, val: 0 },
            SetNonblocking::SetFlags { fd, flags } => Syscall::Fcntl {
                fd: *fd,
                cmd: F_SETFL,
                val: *flags,
            },
        }
    }

    /// Takes the return value of the call. Flags that are to be written
    /// hold the non-blocking bit.
    pub fn step(self, ret: i32, errno: &mut i32) -> (res: Step<SetNonblocking, Result<(), IOError>>)
        ensures
            res == self.spec_step(ret, *old(errno)),
            *final(errno) == errno_after(ret, *old(errno)),
            res matches Step::Call(SetNonblocking::SetFlags { flags, .. }) ==> flags & O_NONBLOCK
                == O_NONBLOCK,
    {
        match self {
            SetNonblocking::GetFlags { fd } => match cvt(ret, errno) {
                Ok(flags) => {
                    assert((flags | O_NONBLOCK) & O_NONBLOCK == O_NONBLOCK) by (bit_vector);
                    Step::Call(SetNonblocking::SetFlags { fd, flags: flags | O_NONBLOCK })
                },
                Err(error) => Step::Ready(Err(error)),
            },
            SetNonblocking::SetFlags { .. } => match cvt(ret, errno) {
                Ok(_) => Step::Ready(Ok(())),
                Err(error) => Step::Ready(Err(error)),
            },
        }
    }
}

impl<T> Setsockopt<T> {
    /// What the return value `ret` of the call means, with `errno` in the
    /// last-error slot.
    pub open spec fn spec_complete(ret: i32, errno: i32) -> Result<(), IOError> {
        match spec_cvt(ret, errno) {
            Ok(_) => Ok(()),
            Err(error) => Err(error),
        }
    }

    /// The call to make: one call, on the value that the operation holds
    /// and with the size of its type.
    pub fn call(&self) -> (call: SetsockoptCall<'_, T>)
        ensures
            call.fd == self.fd,
            call.level == self.level,
            call.name == self.name,
            *call.value == self.value,
            call.len as nat == size_of::<T>(),
    {
        SetsockoptCall {
            fd: self.fd,
            level: self.level,
            name: self.name,
            value: &self.value,
            len: core::mem::size_of::<T>(),
        }
    }

    /// Takes the return value of the call.
    pub fn complete(self, ret: i32, errno: &mut i32) -> (res: Result<(), IOError>)
        ensures
            res == Self::spec_complete(ret, *old(errno)),
            *final(errno) == errno_after(ret, *old(errno)),
    {
        match cvt(ret, errno) {
            Ok(_) => Ok(()),
            Err(error) => Err(error),
        }
    }
}

impl Setsockopt<i32> {
    /// The call of an option whose value is one integer, as one of the
    /// calls that an operation of several calls makes.
    pub open spec fn spec_syscall(self) -> Syscall {
        Syscall::Setsockopt {
            fd: self.fd,
            level: self.level,
            name: self.name,
            value: self.value,
        }
    }

    pub fn syscall(&self) -> (call: Syscall)
        ensures
            call == self.spec_syscall(),
    {
        Syscall::Setsockopt {
            fd: self.fd,
            level: self.level,
            name: self.name,
            value: self.value,
        }
    }
}

impl Transfer {
    pub open spec fn spec_call(self) -> Syscall {
        match self {
            Transfer::Read { fd, len } => Syscall::Read { fd, len },
            Transfer::Write { fd, len } => Syscall::Write { fd, len },
        }
    }

    /// Where the transfer stands after the reply `ret` to its call, with
    /// `errno` in the last-error slot: it waits in the state it is in, or
    /// is over with the number of bytes moved or with a failure.
    pub open spec fn spec_step(self, ret: i32, errno: i32) -> Step<Transfer, Result<i32, IOError>> {
        match spec_cvt_poll(ret, errno) {
            Poll::Pending => Step::Pending(self),
            Poll::Ready(res) => Step::Ready(res),
        }
    }

    /// The call to make.
    pub fn call(&self) -> (call: Syscall)
        ensures
            call == self.spec_call(),
    {
        match self {
            Transfer::Read { fd, len } => Syscall::Read { fd: *fd, len: *len },
            Transfer::Write { fd, len } => Syscall::Write { fd: *fd, len: *len },
        }
    }

    /// Takes the return value of the call as one attempt: the number of
    /// bytes moved, a failure, or word that the call would have had to
    /// wait.
    pub fn poll(&self, ret: i32, errno: &mut i32) -> (res: Poll<Result<i32, IOError>>)
        ensures
            res == spec_cvt_poll(ret, *old(errno)),
            *final(errno) == errno_after(ret, *old(errno)),
    {
        cvt_poll(ret, errno)
    }

    /// Takes the return value of the call as a step of a transfer that
    /// goes on until bytes were moved or the call failed.
    pub fn step(self, ret: i32, errno: &mut i32) -> (res: Step<Transfer, Result<i32, IOError>>)
        ensures
            res == self.spec_step(ret, *old(errno)),
            *final(errno) == errno_after(ret, *old(errno)),
    {
        match cvt_poll(ret, errno) {
            Poll::Pending => Step::Pending(self),
            Poll::Ready(res) => Step::Ready(res),
        }
    }
}

impl PollAcceptState {
    pub open spec fn spec_call(self) -> Syscall {
        match self {
            PollAcceptState::Accept { fd } => Syscall::Accept {
                fd,
                peer: SockaddrStorage::spec_zeroed(),
                peer_len: SOCKADDR_STORAGE_LEN as u32,
            },
            PollAcceptState::Close { fd, .. } => Syscall::Close { fd },
        }
    }

    /// Where the attempt stands after the reply to its call: the return
    /// value `ret`, with `errno` in the last-error slot and `peer` as the
    /// call left the address buffer.
    ///
    /// A connection whose peer address has a family that is not supported
    /// is not handed out: its descriptor is closed first, and the attempt
    /// then fails.
    pub open spec fn spec_step(self, ret: i32, errno: i32, peer: SockaddrStorage) -> Step<
        PollAcceptState,
        Poll<Result<(i32, SocketAddr), IOError>>,
    > {
        match self {
            PollAcceptState::Accept { .. } => match spec_cvt_poll(ret, errno) {
                Poll::Pending => Step::Ready(Poll::Pending),
                Poll::Ready(Err(error)) => Step::Ready(Poll::Ready(Err(error))),
                Poll::Ready(Ok(fd)) => match spec_sockaddr_to_addr(peer) {
                    Ok(addr) => Step::Ready(Poll::Ready(Ok((fd, addr)))),
                    Err(error) => Step::Call(PollAcceptState::Close { fd, error }),
                },
            },
            PollAcceptState::Close { error, .. } => Step::Ready(Poll::Ready(Err(error))),
        }
    }

    /// What the last-error slot holds after the step: the reply to a close
    /// is not classified, so the slot is not touched.
    pub open spec fn spec_errno_after(self, ret: i32, errno: i32) -> i32 {
        match self {
            PollAcceptState::Accept { .. } => errno_after(ret, errno),
            PollAcceptState::Close { .. } => errno,
        }
    }

    pub(crate) fn call(&self) -> (call: Syscall)
        ensures
            call == self.spec_call(),
    {
        match self {
            PollAcceptState::Accept { fd } => Syscall::Accept {
                fd: *fd,
                peer: SockaddrStorage::zeroed(),
                peer_len: SOCKADDR_STORAGE_LEN as u32,
            },
            PollAcceptState::Close { fd, .. } => Syscall::Close { fd: *fd },
        }
    }

    pub(crate) fn step(
        self,
        ret: i32,
        errno: &mut i32,
        peer: &SockaddrStorage,
        peer_len: u32,
    ) -> (res: Step<PollAcceptState, Poll<Result<(i32, SocketAddr), IOError>>>)
        requires
            self is Accept && ret >= 0 ==> peer.spec_covered_by(peer_len as usize),
        ensures
            res == self.spec_step(ret, *old(errno), *peer),
            *final(errno) == self.spec_errno_after(ret, *old(errno)),
    {
        match self {
            PollAcceptState::Accept { .. } => match cvt_poll(ret, errno) {
                Poll::Pending => Step::Ready(Poll::Pending),
                Poll::Ready(Err(error)) => Step::Ready(Poll::Ready(Err(error))),
                Poll::Ready(Ok(fd)) => match sockaddr_to_addr(peer, peer_len as usize) {
                    Ok(addr) => Step::Ready(Poll::Ready(Ok((fd, addr)))),
                    Err(error) => Step::Call(PollAcceptState::Close { fd, error }),
                },
            },
            PollAcceptState::Close { error, .. } => Step::Ready(Poll::Ready(Err(error))),
        }
    }
}

impl View for PollAccept {
    type V = PollAcceptState;

    closed spec fn view(&self) -> PollAcceptState {
        self.state
    }
}

impl PollAccept {
    /// The result of a step with the operation in it replaced by its state
    /// and the stream by its descriptor.
    pub open spec fn step_view(
        res: Step<PollAccept, Poll<Result<(TcpStream, SocketAddr), IOError>>>,
    ) -> Step<PollAcceptState, Poll<Result<(i32, SocketAddr), IOError>>> {
        match res {
            Step::Call(op) => Step::Call(op@),
            Step::Pending(op) => Step::Pending(op@),
            Step::Ready(outcome) => Step::Ready(accepted_fd(outcome)),
        }
    }

    pub fn state(&self) -> (state: PollAcceptState)
        ensures
            state == self@,
    {
        self.state
    }

    /// The call to make.
    pub fn call(&self) -> (call: Syscall)
        ensures
            call == self@.spec_call(),
    {
        self.state.call()
    }

    /// Takes the reply to the call: its return value, and the address
    /// buffer and the length as the call left them. Only the reply to an
    /// accept that succeeded has an address in it, and only there does the
    /// buffer matter; the length must then cover what the buffer's tag
    /// promises.
    pub fn step(self, ret: i32, errno: &mut i32, peer: &SockaddrStorage, peer_len: u32) -> (res:
        Step<PollAccept, Poll<Result<(TcpStream, SocketAddr), IOError>>>)
        requires
            self@ is Accept && ret >= 0 ==> peer.spec_covered_by(peer_len as usize),
        ensures
            Self::step_view(res) == self@.spec_step(ret, *old(errno), *peer),
            *final(errno) == self@.spec_errno_after(ret, *old(errno)),
    {
        match self.state.step(ret, errno, peer, peer_len) {
            Step::Call(state) => Step::Call(PollAccept { state }),
            Step::Pending(state) => Step::Pending(PollAccept { state }),
            Step::Ready(Poll::Pending) => Step::Ready(Poll::Pending),
            Step::Ready(Poll::Ready(Err(error))) => Step::Ready(Poll::Ready(Err(error))),
            Step::Ready(Poll::Ready(Ok((fd, addr)))) => {
                let sock = Socket { fd };
                Step::Ready(Poll::Ready(Ok((TcpStream::from_socket(sock), addr))))
            },
        }
    }
}

} // verus!
