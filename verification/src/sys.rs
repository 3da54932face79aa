//! The calls that a driver makes for this crate, and what their raw return
//! values mean.
//!
//! The socket API reports failure by a negative return value and a code in
//! a last-error slot that every call shares. The slot is a parameter here:
//! whoever classifies a return value is handed the slot, reads it only when
//! the call failed, and clears it in the same step, so that no later call
//! can be blamed for an error that was not its own.

use crate::abi::{EAGAIN, EWOULDBLOCK};
use crate::inner::{SockaddrStorage, SocketAddrCRepr};
use vstd::prelude::*;

verus! {

/// Why an operation failed.
#[derive(Clone, Copy, Debug, PartialEq, Eq)]
pub enum IOError {
    /// The call returned a negative value; the code is what the last-error
    /// slot held right after it.
    IoFailure(i32),
    /// An address buffer is tagged with a family that is neither IPv4 nor
    /// IPv6.
    UnsupportedFamily,
}

/// The outcome of one attempt at a call that must not block.
#[derive(Debug, PartialEq, Eq)]
pub enum Poll<T> {
    /// The attempt came to an end, well or badly.
    Ready(T),
    /// The call would have had to wait. This is no failure: the same call
    /// is to be tried again later.
    Pending,
}

/// Where an operation stands once it has been given the reply to its call.
#[must_use]
#[derive(Debug, PartialEq, Eq)]
pub enum Step<M, T> {
    /// The operation goes on: its next call is to be made now.
    Call(M),
    /// The call would have had to wait: control goes back to the scheduler,
    /// and the operation's call is made again when it is next polled.
    Pending(M),
    /// The operation is over.
    Ready(T),
}

/// One call into the socket API, with its arguments.
#[must_use]
#[derive(Clone, Copy, Debug, PartialEq, Eq)]
pub enum Syscall {
    /// `socket(domain, ty, protocol)`.
    Socket { domain: i32, ty: i32, protocol: i32 },
    /// `fcntl(fd, cmd, val)`.
    Fcntl { fd: i32, cmd: i32, val: i32 },
    /// `setsockopt(fd, level, name, &value, 4)`: an option whose value is
    /// one integer.
    Setsockopt { fd: i32, level: i32, name: i32, value: i32 },
    /// `bind(fd, addr, addr_len)`, where the pointer handed over is to the
    /// bytes of `addr.to_storage()`.
    Bind { fd: i32, addr: SocketAddrCRepr, addr_len: u32 },
    /// `listen(fd, backlog)`.
    Listen { fd: i32, backlog: i32 },
    /// `accept(fd, &mut peer, &mut peer_len)`. What the call leaves in
    /// `peer` and `peer_len` is part of its reply.
    Accept { fd: i32, peer: SockaddrStorage, peer_len: u32 },
    /// `read(fd, buf, len)`, into a buffer of the driver's of `len` bytes.
    Read { fd: i32, len: usize },
    /// `write(fd, buf, len)`, from a buffer of the driver's of `len` bytes.
    Write { fd: i32, len: usize },
    /// `close(fd)`. Its return value is not looked at.
    Close { fd: i32 },
}

impl IOError {
    /// The error as one integer: a failure's own code, and -1 for an
    /// address family that is not supported.
    pub open spec fn spec_code(self) -> i32 {
        match self {
            IOError::IoFailure(code) => code,
            IOError::UnsupportedFamily => -1i32,
        }
    }

    pub fn code(&self) -> (code: i32)
        ensures
            code == self.spec_code(),
    {
        match self {
            IOError::IoFailure(code) => *code,
            IOError::UnsupportedFamily => -1,
        }
    }
}

/// Whether `errno` is one of the two codes of a call that would have had to
/// wait.
pub open spec fn would_block(errno: i32) -> bool {
    errno == EAGAIN || errno == EWOULDBLOCK
}

/// What the return value `n` means, with `errno` in the last-error slot.
pub open spec fn spec_cvt(n: i32, errno: i32) -> Result<i32, IOError> {
    if n < 0 {
        Err(IOError::IoFailure(errno))
    } else {
        Ok(n)
    }
}

/// What the return value `n` of a call that must not block means, with
/// `errno` in the last-error slot.
pub open spec fn spec_cvt_poll(n: i32, errno: i32) -> Poll<Result<i32, IOError>> {
    if n < 0 {
        if would_block(errno) {
            Poll::Pending
        } else {
            Poll::Ready(Err(IOError::IoFailure(errno)))
        }
    } else {
        Poll::Ready(Ok(n))
    }
}

/// What the last-error slot holds once the return value `n` has been
/// classified: nothing after a failure, since its code was taken out; what
/// it held before after a success, which never looks at it.
pub open spec fn errno_after(n: i32, errno: i32) -> i32 {
    if n < 0 {
        0
    } else {
        errno
    }
}

/// Classifies the return value of a call: a negative one is a failure with
/// the code that `errno` holds, which is taken out of it; any other is the
/// call's result.
pub fn cvt(n: i32, errno: &mut i32) -> (res: Result<i32, IOError>)
    ensures
        res == spec_cvt(n, *old(errno)),
        *final(errno) == errno_after(n, *old(errno)),
{
    if n < 0 {
        let code = *errno;
        *errno = 0;
        Err(IOError::IoFailure(code))
    } else {
        Ok(n)
    }
}

/// Classifies the return value of a call that must not block: as `cvt`
/// does, but for a failure with one of the two codes of a call that would
/// have had to wait, which is no failure.
pub fn cvt_poll(n: i32, errno: &mut i32) -> (res: Poll<Result<i32, IOError>>)
    ensures
        res == spec_cvt_poll(n, *old(errno)),
        *final(errno) == errno_after(n, *old(errno)),
        n >= 0 ==> res == Poll::Ready(Ok::<i32, IOError>(n)),
        n < 0 && would_block(*old(errno)) ==> res is Pending,
        n < 0 && !would_block(*old(errno)) ==> res == Poll::Ready(
            Err::<i32, IOError>(IOError::IoFailure(*old(errno))),
        ),
{
    if n < 0 {
        let code = *errno;
        *errno = 0;
        if code == EAGAIN || code == EWOULDBLOCK {
            Poll::Pending
        } else {
            Poll::Ready(Err(IOError::IoFailure(code)))
        }
    } else {
        Poll::Ready(Ok(n))
    }
}

/// No error outlives its classification. Once a return value `first` has
/// been classified, a later call classified over the same slot is judged
/// as if the earlier one had never failed: if it succeeds it is reported as
/// a success with its own value, and if it fails without setting a code it
/// reports none, not the code `stale` of the earlier failure.
pub proof fn lemma_no_stale_error(first: i32, stale: i32, later: i32)
    ensures
        first < 0 ==> errno_after(first, stale) == 0,
        later >= 0 ==> spec_cvt(later, errno_after(first, stale)) == Ok::<i32, IOError>(later),
        later >= 0 ==> spec_cvt_poll(later, errno_after(first, stale)) == Poll::Ready(
            Ok::<i32, IOError>(later),
        ),
        first < 0 ==> spec_cvt(later, errno_after(first, stale)) == spec_cvt(later, 0),
        first < 0 ==> spec_cvt_poll(later, errno_after(first, stale)) == spec_cvt_poll(later, 0),
        errno_after(later, errno_after(first, stale)) == if later < 0 || first < 0 {
            0
        } else {
            stale
        },
{
}

} // verus!
