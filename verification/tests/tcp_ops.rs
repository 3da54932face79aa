use poll_tcp::abi::EAGAIN;
use poll_tcp::{
    Accept, AcceptState, Bind, BindState, IOError, In6Addr, InAddr, Ipv4Addr, Ipv6Addr,
    PollAcceptState, SetNonblocking, SockaddrIn, SockaddrIn6, SockaddrStorage, SocketAddr,
    SocketAddrCRepr, SocketAddrV4, SocketAddrV6, Step, Syscall, TcpListener, TcpStream, Transfer,
};

fn loopback() -> SocketAddr {
    SocketAddr::V4(SocketAddrV4::new(Ipv4Addr::new(127, 0, 0, 1), 0))
}

/// Feeds `rets` to the operation, with `errno` in the slot before each
/// negative one, and returns the calls made and how the operation ended.
fn run_bind(addr: &SocketAddr, rets: &[i32], errno: i32) -> (Vec<Syscall>, Option<Result<TcpListener, IOError>>) {
    let mut calls = Vec::new();
    let mut op = TcpListener::bind(addr);
    for &ret in rets {
        calls.push(op.call());
        let mut slot = if ret < 0 { errno } else { 0 };
        match op.step(ret, &mut slot) {
            Step::Call(next) => op = next,
            Step::Pending(_) => panic!("binding never waits"),
            Step::Ready(res) => return (calls, Some(res)),
        }
    }
    (calls, None)
}

fn bound_listener(fd: i32) -> TcpListener {
    match run_bind(&loopback(), &[fd, 0, 0, 0, 0, 0], 0).1 {
        Some(Ok(listener)) => listener,
        other => panic!("{:?}", other),
    }
}

fn peer_memory() -> SockaddrStorage {
    let mut memory = SockaddrStorage::zeroed();
    memory.bytes[0] = 16;
    memory.bytes[1] = 2;
    memory.bytes[2] = 0xc3;
    memory.bytes[3] = 0x50;
    memory.bytes[4..8].copy_from_slice(&[10, 1, 2, 3]);
    memory
}

fn peer_addr() -> SocketAddr {
    SocketAddr::V4(SocketAddrV4::new(Ipv4Addr::new(10, 1, 2, 3), 50000))
}

fn accepted(listener: &TcpListener, fd: i32) -> Accept {
    let mut errno = 0;
    match listener.accept().step(fd, &mut errno, &peer_memory(), 16) {
        Step::Call(op) => op,
        other => panic!("{:?}", other),
    }
}

fn count_closes(calls: &[Syscall]) -> usize {
    calls.iter().filter(|call| matches!(call, Syscall::Close { .. })).count()
}

#[test]
fn bind_starts_by_creating_a_stream_socket() {
    let op = TcpListener::bind(&loopback());
    assert_eq!(op.state(), BindState::Create { addr: loopback() });
    assert_eq!(op.call(), Syscall::Socket { domain: 2, ty: 1, protocol: 0 });
}

#[test]
fn bind_v6_creates_a_v6_socket() {
    let addr = SocketAddr::V6(SocketAddrV6::new(Ipv6Addr::from_octets([0; 16]), 80, 0, 0));
    assert_eq!(TcpListener::bind(&addr).call(), Syscall::Socket { domain: 10, ty: 1, protocol: 0 });
}

#[test]
fn bind_makes_its_calls_in_order() {
    let addr = SocketAddr::V4(SocketAddrV4::new(Ipv4Addr::new(127, 0, 0, 1), 8080));
    let (calls, res) = run_bind(&addr, &[3, 2, 0, 0, 0, 0], 0);
    assert_eq!(
        calls,
        vec![
            Syscall::Socket { domain: 2, ty: 1, protocol: 0 },
            Syscall::Fcntl { fd: 3, cmd: 3, val: 0 },
            Syscall::Fcntl { fd: 3, cmd: 4, val: 0x4002 },
            Syscall::Setsockopt { fd: 3, level: 0xfff, name: 4, value: 1 },
            Syscall::Bind {
                fd: 3,
                addr: SocketAddrCRepr::V4(SockaddrIn {
                    sin_family: 2,
                    sin_port: [0x1f, 0x90],
                    sin_addr: InAddr { s_addr: [127, 0, 0, 1] },
                }),
                addr_len: 16,
            },
            Syscall::Listen { fd: 3, backlog: 128 },
        ]
    );
    let listener = res.unwrap().unwrap();
    assert_eq!(listener.as_raw_fd(), 3);
    assert_eq!(listener.close(), Syscall::Close { fd: 3 });
}

#[test]
fn bind_v6_hands_over_the_large_structure() {
    let octets = [0xfe, 0x80, 0, 0, 0, 0, 0, 0, 0, 0, 0, 0, 0, 0, 0, 1];
    let addr = SocketAddr::V6(SocketAddrV6::new(Ipv6Addr::from_octets(octets), 80, 5, 2));
    let (calls, res) = run_bind(&addr, &[7, 0, 0, 0, 0, 0], 0);
    assert_eq!(
        calls[4],
        Syscall::Bind {
            fd: 7,
            addr: SocketAddrCRepr::V6(SockaddrIn6 {
                sin6_family: 10,
                sin6_port: [0, 80],
                sin6_flowinfo: 5,
                sin6_addr: In6Addr { u8_addr: octets },
                sin6_scope_id: 2,
            }),
            addr_len: 28,
        }
    );
    assert_eq!(res.unwrap().unwrap().as_raw_fd(), 7);
}

#[test]
fn bind_goes_through_its_states() {
    let addr = loopback();
    let mut errno = 0;
    let mut op = TcpListener::bind(&addr);
    let expected = [
        BindState::Nonblocking { addr, op: SetNonblocking::GetFlags { fd: 4 } },
        BindState::Nonblocking { addr, op: SetNonblocking::SetFlags { fd: 4, flags: 0x4000 } },
        BindState::ReuseAddr { addr, fd: 4 },
        BindState::Bind { addr, fd: 4 },
        BindState::Listen { fd: 4 },
    ];
    let rets = [4, 0, 0, 0, 0];
    for (ret, state) in rets.iter().zip(expected.iter()) {
        op = match op.step(*ret, &mut errno) {
            Step::Call(next) => next,
            other => panic!("{:?}", other),
        };
        assert_eq!(op.state(), *state);
    }
}

#[test]
fn bind_without_a_descriptor_closes_nothing() {
    let (calls, res) = run_bind(&loopback(), &[-1], 23);
    assert_eq!(calls, vec![Syscall::Socket { domain: 2, ty: 1, protocol: 0 }]);
    assert_eq!(res, Some(Err(IOError::IoFailure(23))));
}

#[test]
fn bind_closes_once_whichever_call_fails() {
    // The call at `failing` fails; the descriptor exists from call 1 on.
    for failing in 1..6 {
        let mut rets = vec![5, 0, 0, 0, 0, 0];
        rets[failing] = -1;
        rets.truncate(failing + 1);
        rets.push(0);
        let (calls, res) = run_bind(&loopback(), &rets, 100 + failing as i32);
        assert_eq!(res, Some(Err(IOError::IoFailure(100 + failing as i32))));
        assert_eq!(calls.len(), failing + 2);
        assert_eq!(count_closes(&calls), 1);
        assert_eq!(calls.last(), Some(&Syscall::Close { fd: 5 }));
    }
}

#[test]
fn bind_listen_failure_after_bind_succeeded() {
    let (calls, res) = run_bind(&loopback(), &[5, 0, 0, 0, 0, -1, 0], 98);
    assert_eq!(res, Some(Err(IOError::IoFailure(98))));
    assert_eq!(calls[5], Syscall::Listen { fd: 5, backlog: 128 });
    assert_eq!(calls[6], Syscall::Close { fd: 5 });
    assert_eq!(count_closes(&calls), 1);
}

#[test]
fn bind_success_closes_nothing() {
    let (calls, res) = run_bind(&loopback(), &[5, 0, 0, 0, 0, 0], 0);
    assert_eq!(count_closes(&calls), 0);
    assert_eq!(res.unwrap().unwrap().as_raw_fd(), 5);
}

#[test]
fn bind_close_failure_is_not_reported() {
    let mut errno = 98;
    let op = TcpListener::bind(&loopback());
    let op = match op.step(5, &mut errno) {
        Step::Call(op) => op,
        other => panic!("{:?}", other),
    };
    let op = match op.step(-1, &mut errno) {
        Step::Call(op) => op,
        other => panic!("{:?}", other),
    };
    assert_eq!(op.state(), BindState::Close { fd: 5, error: IOError::IoFailure(98) });
    // The close itself fails, with a code of its own in the slot.
    errno = 9;
    assert_eq!(op.step(-1, &mut errno), Step::<Bind, _>::Ready(Err(IOError::IoFailure(98))));
    assert_eq!(errno, 9);
}

#[test]
fn accept_starts_on_the_listener() {
    let listener = bound_listener(3);
    let op = listener.accept();
    assert_eq!(op.state(), AcceptState::Accept(PollAcceptState::Accept { fd: 3 }));
    assert_eq!(
        op.call(),
        Syscall::Accept { fd: 3, peer: SockaddrStorage::zeroed(), peer_len: 28 }
    );
}

#[test]
fn accept_waits_while_nobody_connects() {
    let listener = bound_listener(3);
    let mut op = listener.accept();
    for _ in 0..3 {
        let mut errno = EAGAIN;
        op = match op.step(-1, &mut errno, &SockaddrStorage::zeroed(), 28) {
            Step::Pending(op) => op,
            other => panic!("{:?}", other),
        };
        assert_eq!(errno, 0);
        assert_eq!(op.state(), AcceptState::Accept(PollAcceptState::Accept { fd: 3 }));
    }
}

#[test]
fn accept_failure_leaves_the_listener_alone() {
    let listener = bound_listener(3);
    let mut errno = 23;
    let res = listener.accept().step(-1, &mut errno, &SockaddrStorage::zeroed(), 28);
    assert_eq!(res, Step::<Accept, _>::Ready(Err(IOError::IoFailure(23))));
    assert_eq!(listener.close(), Syscall::Close { fd: 3 });
}

#[test]
fn accept_makes_the_stream_nonblocking_before_handing_it_out() {
    let listener = bound_listener(3);
    let mut errno = 0;
    let op = accepted(&listener, 8);
    assert_eq!(
        op.state(),
        AcceptState::Nonblocking { peer: peer_addr(), op: SetNonblocking::GetFlags { fd: 8 } }
    );
    assert_eq!(op.call(), Syscall::Fcntl { fd: 8, cmd: 3, val: 0 });
    let op = match op.step(1, &mut errno, &peer_memory(), 16) {
        Step::Call(op) => op,
        other => panic!("{:?}", other),
    };
    assert_eq!(op.call(), Syscall::Fcntl { fd: 8, cmd: 4, val: 0x4001 });
    match op.step(0, &mut errno, &peer_memory(), 16) {
        Step::Ready(Ok((stream, peer))) => {
            assert_eq!(stream.as_raw_fd(), 8);
            assert_eq!(peer, peer_addr());
        }
        other => panic!("{:?}", other),
    }
}

#[test]
fn accept_closes_the_stream_when_reading_flags_fails() {
    let listener = bound_listener(3);
    let op = accepted(&listener, 8);
    let mut errno = 9;
    let op = match op.step(-1, &mut errno, &peer_memory(), 16) {
        Step::Call(op) => op,
        other => panic!("{:?}", other),
    };
    assert_eq!(op.state(), AcceptState::Close { fd: 8, error: IOError::IoFailure(9) });
    assert_eq!(op.call(), Syscall::Close { fd: 8 });
    assert_eq!(
        op.step(0, &mut errno, &peer_memory(), 16),
        Step::<Accept, _>::Ready(Err(IOError::IoFailure(9)))
    );
}

#[test]
fn accept_closes_the_stream_when_writing_flags_fails() {
    let listener = bound_listener(3);
    let op = accepted(&listener, 8);
    let mut errno = 0;
    let op = match op.step(0, &mut errno, &peer_memory(), 16) {
        Step::Call(op) => op,
        other => panic!("{:?}", other),
    };
    errno = 22;
    let op = match op.step(-1, &mut errno, &peer_memory(), 16) {
        Step::Call(op) => op,
        other => panic!("{:?}", other),
    };
    assert_eq!(op.call(), Syscall::Close { fd: 8 });
    assert_eq!(
        op.step(0, &mut errno, &peer_memory(), 16),
        Step::<Accept, _>::Ready(Err(IOError::IoFailure(22)))
    );
}

#[test]
fn accept_closes_a_connection_of_unknown_family() {
    let listener = bound_listener(3);
    let mut memory = SockaddrStorage::zeroed();
    memory.bytes[1] = 7;
    let mut errno = 0;
    let op = match listener.accept().step(8, &mut errno, &memory, 28) {
        Step::Call(op) => op,
        other => panic!("{:?}", other),
    };
    assert_eq!(
        op.state(),
        AcceptState::Accept(PollAcceptState::Close { fd: 8, error: IOError::UnsupportedFamily })
    );
    assert_eq!(op.call(), Syscall::Close { fd: 8 });
    assert_eq!(
        op.step(0, &mut errno, &memory, 28),
        Step::<Accept, _>::Ready(Err(IOError::UnsupportedFamily))
    );
}

#[test]
fn stream_read_and_write_name_its_descriptor() {
    let listener = bound_listener(3);
    let mut errno = 0;
    let op = accepted(&listener, 8);
    let op = match op.step(0, &mut errno, &peer_memory(), 16) {
        Step::Call(op) => op,
        other => panic!("{:?}", other),
    };
    let stream: TcpStream = match op.step(0, &mut errno, &peer_memory(), 16) {
        Step::Ready(Ok((stream, _))) => stream,
        other => panic!("{:?}", other),
    };
    assert_eq!(stream.read(64), Transfer::Read { fd: 8, len: 64 });
    assert_eq!(stream.write(5), Transfer::Write { fd: 8, len: 5 });
    assert_eq!(stream.read(64).call(), Syscall::Read { fd: 8, len: 64 });
    assert_eq!(stream.write(5).call(), Syscall::Write { fd: 8, len: 5 });
    assert_eq!(stream.close(), Syscall::Close { fd: 8 });
}
