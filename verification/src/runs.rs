//! Whole runs of the operations that create a descriptor, and what holds
//! of every run.
//!
//! A run is an operation fed one reply after another, whatever the replies
//! are. The laws here say which calls a run makes and how it ends; above
//! all, that the descriptor it creates is handed out or closed exactly
//! once.

use crate::abi::{
    F_GETFL, F_SETFL, LISTEN_BACKLOG, O_NONBLOCK, SOCK_STREAM, SOL_SOCKET, SO_REUSEADDR,
};
use crate::addr::SocketAddr;
use crate::inner::{spec_sockaddr_to_addr, IntoInner, SockaddrStorage};
use crate::socket::{family_of, PollAcceptState};
use crate::sys::{would_block, IOError, Step, Syscall};
use crate::tcp::{AcceptState, BindState};
use vstd::prelude::*;

verus! {

/// What a driver hands back after a call: the return value, what the
/// last-error slot then holds, and, after an accept, the address buffer as
/// the call left it.
#[derive(Clone, Copy, Debug, PartialEq, Eq)]
pub struct Reply {
    pub ret: i32,
    pub errno: i32,
    pub peer: SockaddrStorage,
}

impl BindState {
    /// The calls that the operation makes from this state on while it is
    /// fed `replies`, one reply for each call, until it is over or the
    /// replies run out.
    pub open spec fn calls(self, replies: Seq<Reply>) -> Seq<Syscall>
        decreases replies.len(),
    {
        if replies.len() == 0 {
            Seq::empty()
        } else {
            let rest = match self.spec_step(replies[0].ret, replies[0].errno) {
                Step::Call(next) => next.calls(replies.drop_first()),
                Step::Pending(next) => next.calls(replies.drop_first()),
                Step::Ready(_) => Seq::empty(),
            };
            seq![self.spec_call()] + rest
        }
    }

    /// What the operation ends with when it is fed `replies` from this
    /// state on; nothing if the replies run out first.
    pub open spec fn outcome(self, replies: Seq<Reply>) -> Option<Result<i32, IOError>>
        decreases replies.len(),
    {
        if replies.len() == 0 {
            None
        } else {
            match self.spec_step(replies[0].ret, replies[0].errno) {
                Step::Call(next) => next.outcome(replies.drop_first()),
                Step::Pending(next) => next.outcome(replies.drop_first()),
                Step::Ready(res) => Some(res),
            }
        }
    }
}

impl AcceptState {
    /// The calls that the operation makes from this state on while it is
    /// fed `replies`, one reply for each call, until it is over or the
    /// replies run out.
    pub open spec fn calls(self, replies: Seq<Reply>) -> Seq<Syscall>
        decreases replies.len(),
    {
        if replies.len() == 0 {
            Seq::empty()
        } else {
            let rest = match self.spec_step(replies[0].ret, replies[0].errno, replies[0].peer) {
                Step::Call(next) => next.calls(replies.drop_first()),
                Step::Pending(next) => next.calls(replies.drop_first()),
                Step::Ready(_) => Seq::empty(),
            };
            seq![self.spec_call()] + rest
        }
    }

    /// What the operation ends with when it is fed `replies` from this
    /// state on; nothing if the replies run out first.
    pub open spec fn outcome(self, replies: Seq<Reply>) -> Option<
        Result<(i32, SocketAddr), IOError>,
    >
        decreases replies.len(),
    {
        if replies.len() == 0 {
            None
        } else {
            match self.spec_step(replies[0].ret, replies[0].errno, replies[0].peer) {
                Step::Call(next) => next.outcome(replies.drop_first()),
                Step::Pending(next) => next.outcome(replies.drop_first()),
                Step::Ready(res) => Some(res),
            }
        }
    }

    /// The descriptor of the connection that the operation holds or comes
    /// to accept when it is fed `replies` from this state on.
    pub open spec fn accepted(self, replies: Seq<Reply>) -> Option<i32>
        decreases replies.len(),
    {
        if self.held() is Some {
            self.held()
        } else if replies.len() == 0 {
            None
        } else {
            match self.spec_step(replies[0].ret, replies[0].errno, replies[0].peer) {
                Step::Call(next) => next.accepted(replies.drop_first()),
                Step::Pending(next) => next.accepted(replies.drop_first()),
                Step::Ready(Ok((fd, _))) => Some(fd),
                Step::Ready(Err(_)) => None,
            }
        }
    }
}

/// Whether a run that made `calls` and ended with `failed`, or has not ended
/// yet, dealt as it must with the descriptor `fd` that it held or created
/// (`None`: there never was one):
/// - nothing but that descriptor is closed, only as the last call, and
///   only by a run that fails;
/// - a run that fails closes it.
/// So a descriptor that is handed out has not been closed, and one that is
/// not handed out is closed exactly once.
pub open spec fn closes_once(fd: Option<i32>, calls: Seq<Syscall>, failed: bool) -> bool {
    &&& forall|i: int|
        0 <= i < calls.len() && (#[trigger] calls[i]) is Close ==> {
            &&& fd is Some
            &&& calls[i] == Syscall::Close { fd: fd->0 }
            &&& i == calls.len() - 1
            &&& failed
        }
    &&& failed && fd is Some ==> calls.len() > 0 && calls.last() == Syscall::Close { fd: fd->0 }
}

impl BindState {
    /// The descriptor that a run from this state on holds or creates.
    pub open spec fn descriptor(self, replies: Seq<Reply>) -> Option<i32> {
        if self.held() is Some {
            self.held()
        } else if replies.len() > 0 && replies[0].ret >= 0 {
            Some(replies[0].ret)
        } else {
            None
        }
    }

    /// From whatever state binding is in, and whatever the calls come back
    /// with: the descriptor is handed out in the listener or closed exactly
    /// once, as [`closes_once`] says, and the listener owns the descriptor
    /// that the run held or created.
    pub proof fn lemma_closes_once(self, replies: Seq<Reply>)
        ensures
            closes_once(
                self.descriptor(replies),
                self.calls(replies),
                self.outcome(replies) matches Some(Err(_)),
            ),
            self.outcome(replies) matches Some(Ok(fd)) ==> self.descriptor(replies) == Some(fd),
        decreases replies.len(),
    {
        if replies.len() > 0 {
            match self.spec_step(replies[0].ret, replies[0].errno) {
                Step::Call(next) => next.lemma_closes_once(replies.drop_first()),
                Step::Pending(next) => next.lemma_closes_once(replies.drop_first()),
                Step::Ready(_) => {},
            }
        }
    }
}

/// Resource safety of binding: whatever the calls come back with, the
/// descriptor that the first call created is closed exactly once if binding
/// fails, as the last call made, and not at all if it succeeds, in which
/// case the listener owns it. If the first call created none, nothing is
/// closed.
pub proof fn lemma_bind_closes_once(addr: SocketAddr, replies: Seq<Reply>)
    ensures
        ({
            let start = BindState::Create { addr };
            let created = if replies.len() > 0 && replies[0].ret >= 0 {
                Some(replies[0].ret)
            } else {
                None
            };
            &&& closes_once(
                created,
                start.calls(replies),
                start.outcome(replies) matches Some(Err(_)),
            )
            &&& start.outcome(replies) matches Some(Ok(fd)) ==> created == Some(fd)
        }),
{
    (BindState::Create { addr }).lemma_closes_once(replies);
}

/// The calls of a binding to `addr` in which every call succeeds, in order:
/// the socket is created, made non-blocking, allowed to reuse its address,
/// bound, and told to listen. `fd` is the descriptor that the first call
/// returned and `flags` are the status flags that the second one read.
pub open spec fn bind_sequence(addr: SocketAddr, fd: i32, flags: i32) -> Seq<Syscall> {
    seq![
        Syscall::Socket { domain: family_of(addr), ty: SOCK_STREAM, protocol: 0 },
        Syscall::Fcntl { fd, cmd: F_GETFL, val: 0 },
        Syscall::Fcntl { fd, cmd: F_SETFL, val: flags | O_NONBLOCK },
        Syscall::Setsockopt { fd, level: SOL_SOCKET, name: SO_REUSEADDR, value: 1 },
        Syscall::Bind {
            fd,
            addr: (&addr).spec_into_inner().0,
            addr_len: (&addr).spec_into_inner().1,
        },
        Syscall::Listen { fd, backlog: LISTEN_BACKLOG },
    ]
}

/// How many of the first `n` replies come before the first that reports a
/// failure.
pub open spec fn leading_successes(replies: Seq<Reply>, n: nat) -> nat
    decreases n,
{
    if n == 0 || replies.len() == 0 || replies[0].ret < 0 {
        0
    } else {
        1 + leading_successes(replies.drop_first(), (n - 1) as nat)
    }
}

/// What binding comes to, said at once, of a run that has come to its end.
/// If all six calls succeed, they are the calls of [`bind_sequence`] and the
/// listener owns the descriptor. If one fails, the calls are those up to
/// it, followed by the close of the descriptor if the first call had
/// created it, and the error is the code that the failing call left.
pub proof fn lemma_bind_calls(addr: SocketAddr, replies: Seq<Reply>)
    requires
        (BindState::Create { addr }).outcome(replies) is Some,
    ensures
        ({
            let start = BindState::Create { addr };
            let fd = replies[0].ret;
            let all = bind_sequence(addr, fd, replies[1].ret);
            let good = leading_successes(replies, 6);
            if good == 6 {
                &&& start.calls(replies) == all
                &&& start.outcome(replies) == Some(Ok::<i32, IOError>(fd))
            } else {
                &&& good < replies.len()
                &&& start.calls(replies) == all.take((good + 1) as int) + if good > 0 {
                    seq![Syscall::Close { fd }]
                } else {
                    Seq::empty()
                }
                &&& start.outcome(replies) == Some(
                    Err::<i32, IOError>(IOError::IoFailure(replies[good as int].errno)),
                )
            }
        }),
{
    reveal_with_fuel(BindState::calls, 8);
    reveal_with_fuel(BindState::outcome, 8);
    reveal_with_fuel(leading_successes, 7);
    let start = BindState::Create { addr };
    let all = bind_sequence(addr, replies[0].ret, replies[1].ret);
    let good = leading_successes(replies, 6);
    if good < 6 {
        assert(start.calls(replies) =~= all.take((good + 1) as int) + if good > 0 {
            seq![Syscall::Close { fd: replies[0].ret }]
        } else {
            Seq::empty()
        });
    }
}

impl AcceptState {
    /// From whatever state accepting is in, and whatever the calls come
    /// back with: the connection is handed out in the stream or closed
    /// exactly once, as [`closes_once`] says, and the stream owns the
    /// descriptor that the run held or accepted.
    pub proof fn lemma_closes_once(self, replies: Seq<Reply>)
        ensures
            closes_once(
                self.accepted(replies),
                self.calls(replies),
                self.outcome(replies) matches Some(Err(_)),
            ),
            self.outcome(replies) matches Some(Ok((fd, _))) ==> self.accepted(replies) == Some(fd),
        decreases replies.len(),
    {
        if replies.len() > 0 {
            match self.spec_step(replies[0].ret, replies[0].errno, replies[0].peer) {
                Step::Call(next) => next.lemma_closes_once(replies.drop_first()),
                Step::Pending(next) => next.lemma_closes_once(replies.drop_first()),
                Step::Ready(_) => {},
            }
        }
    }
}

/// Resource safety of accepting: whatever the calls come back with, and
/// however often the operation has to wait, a connection that was accepted
/// is closed exactly once if the operation fails, as the last call made,
/// and not at all if it succeeds, in which case the stream owns it. While
/// no connection was accepted nothing is closed; the listener's own
/// descriptor is none of the operation's to close.
pub proof fn lemma_accept_closes_once(listener: i32, replies: Seq<Reply>)
    ensures
        ({
            let start = AcceptState::Accept(PollAcceptState::Accept { fd: listener });
            &&& closes_once(
                start.accepted(replies),
                start.calls(replies),
                start.outcome(replies) matches Some(Err(_)),
            )
            &&& start.outcome(replies) matches Some(Ok((fd, _))) ==> start.accepted(replies)
                == Some(fd)
        }),
{
    (AcceptState::Accept(PollAcceptState::Accept { fd: listener })).lemma_closes_once(replies);
}

/// Waiting changes nothing. A reply that says that the accept would have
/// had to wait leaves the operation where it was: the same call is made
/// again, and what follows is what would have followed without that reply.
pub proof fn lemma_accept_waits(listener: i32, replies: Seq<Reply>)
    requires
        replies.len() > 0,
        replies[0].ret < 0,
        would_block(replies[0].errno),
    ensures
        ({
            let start = AcceptState::Accept(PollAcceptState::Accept { fd: listener });
            let rest = replies.drop_first();
            &&& start.spec_step(replies[0].ret, replies[0].errno, replies[0].peer) == Step::<
                AcceptState,
                Result<(i32, SocketAddr), IOError>,
            >::Pending(start)
            &&& start.calls(replies) == seq![start.spec_call()] + start.calls(rest)
            &&& start.outcome(replies) == start.outcome(rest)
            &&& start.accepted(replies) == start.accepted(rest)
        }),
{
}

/// What accepting comes to once the accept call does not have to wait,
/// said at once, of a run that has come to its end.
/// - If the accept fails, that is the error, and no other call is made.
/// - If the peer's address is of a family that is not supported, the
///   connection is closed, and that is the error.
/// - Otherwise the flags of the new descriptor are read, and written back
///   with the non-blocking bit. If both calls succeed, the stream owns the
///   descriptor, and the peer is the address read from the buffer. If one
///   fails, the connection is closed, and the error is the code that the
///   failing call left.
pub proof fn lemma_accept_calls(listener: i32, replies: Seq<Reply>)
    requires
        (AcceptState::Accept(PollAcceptState::Accept { fd: listener })).outcome(replies) is Some,
        !(replies[0].ret < 0 && would_block(replies[0].errno)),
    ensures
        ({
            let start = AcceptState::Accept(PollAcceptState::Accept { fd: listener });
            let fd = replies[0].ret;
            let accept = start.spec_call();
            let close = Syscall::Close { fd };
            let get = Syscall::Fcntl { fd, cmd: F_GETFL, val: 0 };
            let set = Syscall::Fcntl { fd, cmd: F_SETFL, val: replies[1].ret | O_NONBLOCK };
            let calls = start.calls(replies);
            let outcome = start.outcome(replies)->0;
            if fd < 0 {
                &&& calls == seq![accept]
                &&& outcome == Err::<(i32, SocketAddr), IOError>(
                    IOError::IoFailure(replies[0].errno),
                )
            } else {
                match spec_sockaddr_to_addr(replies[0].peer) {
                    Err(error) => {
                        &&& calls == seq![accept, close]
                        &&& outcome == Err::<(i32, SocketAddr), IOError>(error)
                    },
                    Ok(peer) => if replies[1].ret < 0 {
                        &&& calls == seq![accept, get, close]
                        &&& outcome == Err::<(i32, SocketAddr), IOError>(
                            IOError::IoFailure(replies[1].errno),
                        )
                    } else if replies[2].ret < 0 {
                        &&& calls == seq![accept, get, set, close]
                        &&& outcome == Err::<(i32, SocketAddr), IOError>(
                            IOError::IoFailure(replies[2].errno),
                        )
                    } else {
                        &&& calls == seq![accept, get, set]
                        &&& outcome == Ok::<(i32, SocketAddr), IOError>((fd, peer))
                    },
                }
            }
        }),
{
    reveal_with_fuel(AcceptState::calls, 6);
    reveal_with_fuel(AcceptState::outcome, 6);
    let start = AcceptState::Accept(PollAcceptState::Accept { fd: listener });
    if replies[0].ret >= 0 && spec_sockaddr_to_addr(replies[0].peer) is Err {
        assert(start.calls(replies) =~= seq![
            start.spec_call(),
            Syscall::Close { fd: replies[0].ret },
        ]);
    }
}

} // verus!
