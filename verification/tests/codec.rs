use poll_tcp::abi::{AF_INET, AF_INET6, SOCKADDR_IN6_LEN, SOCKADDR_IN_LEN, SOCKADDR_STORAGE_LEN};
use poll_tcp::{
    sockaddr_to_addr, FromInner, IOError, In6Addr, InAddr, IntoInner, Ipv4Addr, Ipv6Addr,
    SockaddrIn, SockaddrIn6, SockaddrStorage, SocketAddr, SocketAddrCRepr, SocketAddrV4,
    SocketAddrV6,
};

fn sample_v6_octets() -> [u8; 16] {
    [0x20, 0x01, 0x0d, 0xb8, 0, 0, 0, 0, 0, 0, 0, 0, 0, 0, 0, 0x01]
}

fn sample_v4() -> SocketAddr {
    SocketAddr::V4(SocketAddrV4::new(Ipv4Addr::new(192, 168, 1, 10), 8080))
}

fn sample_v6() -> SocketAddr {
    SocketAddr::V6(SocketAddrV6::new(
        Ipv6Addr::from_octets(sample_v6_octets()),
        443,
        0x0102_0304,
        0xa0b0_c0d0,
    ))
}

fn encode_to_memory(addr: &SocketAddr) -> (SockaddrStorage, u32) {
    let (repr, len): (SocketAddrCRepr, u32) = addr.into_inner();
    (repr.to_storage(), len)
}

#[test]
fn ipv4_octets_are_copied_as_they_are() {
    let inner: InAddr = Ipv4Addr::new(10, 20, 30, 40).into_inner();
    assert_eq!(inner.s_addr, [10, 20, 30, 40]);
    assert_eq!(Ipv4Addr::from_inner(inner), Ipv4Addr::new(10, 20, 30, 40));
}

#[test]
fn ipv6_octets_are_copied_as_they_are() {
    let inner: In6Addr = Ipv6Addr::from_octets(sample_v6_octets()).into_inner();
    assert_eq!(inner.u8_addr, sample_v6_octets());
    assert_eq!(Ipv6Addr::from_inner(inner).octets(), sample_v6_octets());
}

#[test]
fn v4_structure_has_family_and_big_endian_port() {
    let inner: SockaddrIn = SocketAddrV4::new(Ipv4Addr::new(192, 168, 1, 10), 8080).into_inner();
    assert_eq!(
        inner,
        SockaddrIn { sin_family: 2, sin_port: [0x1f, 0x90], sin_addr: InAddr { s_addr: [192, 168, 1, 10] } }
    );
}

#[test]
fn v6_structure_keeps_flowinfo_and_scope_raw() {
    let inner: SockaddrIn6 = SocketAddrV6::new(
        Ipv6Addr::from_octets(sample_v6_octets()),
        443,
        0x0102_0304,
        0xa0b0_c0d0,
    )
    .into_inner();
    assert_eq!(
        inner,
        SockaddrIn6 {
            sin6_family: 10,
            sin6_port: [0x01, 0xbb],
            sin6_flowinfo: 0x0102_0304,
            sin6_addr: In6Addr { u8_addr: sample_v6_octets() },
            sin6_scope_id: 0xa0b0_c0d0,
        }
    );
}

#[test]
fn v4_from_inner_reads_port_from_network_order() {
    let inner = SockaddrIn { sin_family: 2, sin_port: [0xc0, 0x01], sin_addr: InAddr { s_addr: [1, 2, 3, 4] } };
    let addr = SocketAddrV4::from_inner(inner);
    assert_eq!(addr.port(), 0xc001);
    assert_eq!(addr.ip().octets(), [1, 2, 3, 4]);
}

#[test]
fn v6_from_inner_reads_every_field() {
    let inner = SockaddrIn6 {
        sin6_family: 10,
        sin6_port: [0x00, 0x50],
        sin6_flowinfo: 7,
        sin6_addr: In6Addr { u8_addr: sample_v6_octets() },
        sin6_scope_id: 9,
    };
    let addr = SocketAddrV6::from_inner(inner);
    assert_eq!(addr.port(), 80);
    assert_eq!(addr.flowinfo(), 7);
    assert_eq!(addr.scope_id(), 9);
    assert_eq!(addr.ip().octets(), sample_v6_octets());
}

#[test]
fn encode_v4_returns_the_small_structure_and_its_length() {
    let (repr, len): (SocketAddrCRepr, u32) = (&sample_v4()).into_inner();
    assert_eq!(len, 16);
    assert_eq!(len as usize, SOCKADDR_IN_LEN);
    assert_eq!(repr.len(), 16);
    assert!(matches!(repr, SocketAddrCRepr::V4(_)));
}

#[test]
fn encode_v6_returns_the_large_structure_and_its_length() {
    let (repr, len): (SocketAddrCRepr, u32) = (&sample_v6()).into_inner();
    assert_eq!(len, 28);
    assert_eq!(len as usize, SOCKADDR_IN6_LEN);
    assert_eq!(repr.len(), 28);
    assert!(matches!(repr, SocketAddrCRepr::V6(_)));
}

#[test]
fn v4_memory_image_is_exact() {
    let (storage, len) = encode_to_memory(&sample_v4());
    assert_eq!(len, 16);
    let mut expected = [0u8; 28];
    expected[1] = 2;
    expected[2] = 0x1f;
    expected[3] = 0x90;
    expected[4] = 192;
    expected[5] = 168;
    expected[6] = 1;
    expected[7] = 10;
    assert_eq!(storage.bytes, expected);
}

#[test]
fn v6_memory_image_is_exact() {
    let (storage, len) = encode_to_memory(&sample_v6());
    assert_eq!(len, 28);
    let expected: [u8; 28] = [
        0, 10, 0x01, 0xbb, // length byte, family, port in network order
        0x04, 0x03, 0x02, 0x01, // flow information, least significant byte first
        0x20, 0x01, 0x0d, 0xb8, 0, 0, 0, 0, 0, 0, 0, 0, 0, 0, 0, 0x01, // address
        0xd0, 0xc0, 0xb0, 0xa0, // scope, least significant byte first
    ];
    assert_eq!(storage.bytes, expected);
}

#[test]
fn storage_is_as_large_as_the_larger_structure() {
    assert_eq!(SOCKADDR_STORAGE_LEN, 28);
    assert_eq!(SockaddrStorage::zeroed().bytes.len(), SOCKADDR_STORAGE_LEN);
    assert!(SOCKADDR_STORAGE_LEN >= SOCKADDR_IN_LEN);
    assert!(SOCKADDR_STORAGE_LEN >= SOCKADDR_IN6_LEN);
}

#[test]
fn zeroed_storage_is_all_zero_and_has_no_family() {
    let storage = SockaddrStorage::zeroed();
    assert_eq!(storage.bytes, [0u8; 28]);
    assert_eq!(storage.family(), 0);
    assert_eq!(sockaddr_to_addr(&storage, 28), Err(IOError::UnsupportedFamily));
}

#[test]
fn decode_v4_from_memory_written_by_the_stack() {
    // As the stack fills it: the length byte is set and the padding is not
    // looked at.
    let mut storage = SockaddrStorage::zeroed();
    storage.bytes[0] = 16;
    storage.bytes[1] = 2;
    storage.bytes[2] = 0xd4;
    storage.bytes[3] = 0x31;
    storage.bytes[4] = 127;
    storage.bytes[7] = 1;
    storage.bytes[12] = 0xff;
    assert_eq!(
        sockaddr_to_addr(&storage, 16),
        Ok(SocketAddr::V4(SocketAddrV4::new(Ipv4Addr::new(127, 0, 0, 1), 54321)))
    );
}

#[test]
fn decode_v6_from_memory_written_by_the_stack() {
    let mut storage = SockaddrStorage::zeroed();
    storage.bytes[0] = 28;
    storage.bytes[1] = 10;
    storage.bytes[2] = 0x1f;
    storage.bytes[3] = 0x90;
    storage.bytes[4] = 0x78;
    storage.bytes[5] = 0x56;
    storage.bytes[6] = 0x34;
    storage.bytes[7] = 0x12;
    storage.bytes[8..24].copy_from_slice(&sample_v6_octets());
    storage.bytes[24] = 3;
    assert_eq!(
        sockaddr_to_addr(&storage, 28),
        Ok(SocketAddr::V6(SocketAddrV6::new(
            Ipv6Addr::from_octets(sample_v6_octets()),
            8080,
            0x1234_5678,
            3
        )))
    );
}

#[test]
fn round_trip_v4() {
    for (octets, port) in [
        ([0u8, 0, 0, 0], 0u16),
        ([127, 0, 0, 1], 1),
        ([192, 168, 1, 10], 8080),
        ([10, 0, 0, 255], 255),
        ([1, 2, 3, 4], 256),
        ([255, 255, 255, 255], 65535),
    ] {
        let addr = SocketAddr::V4(SocketAddrV4::new(Ipv4Addr::from_octets(octets), port));
        let (storage, len) = encode_to_memory(&addr);
        assert!(storage.covered_by(len as usize));
        assert_eq!(sockaddr_to_addr(&storage, len as usize), Ok(addr));
    }
}

#[test]
fn round_trip_v6() {
    for (port, flowinfo, scope_id) in [
        (0u16, 0u32, 0u32),
        (443, 0x0102_0304, 0xa0b0_c0d0),
        (65535, u32::MAX, u32::MAX),
        (0x00ff, 0x0000_00ff, 0xff00_0000),
        (0xff00, 0x8000_0000, 1),
    ] {
        let addr = SocketAddr::V6(SocketAddrV6::new(
            Ipv6Addr::from_octets(sample_v6_octets()),
            port,
            flowinfo,
            scope_id,
        ));
        let (storage, len) = encode_to_memory(&addr);
        assert!(storage.covered_by(len as usize));
        assert_eq!(sockaddr_to_addr(&storage, len as usize), Ok(addr));
    }
}

#[test]
fn round_trip_every_port() {
    for port in 0..=u16::MAX {
        let v4 = SocketAddrV4::new(Ipv4Addr::new(1, 2, 3, 4), port);
        let inner: SockaddrIn = v4.into_inner();
        assert_eq!(inner.sin_port, port.to_be_bytes());
        assert_eq!(SocketAddrV4::from_inner(inner), v4);
    }
}

#[test]
fn ipv4_tag_gives_only_ipv4() {
    // The same memory under the other tag is another address.
    let (mut storage, _) = encode_to_memory(&sample_v6());
    storage.bytes[1] = AF_INET as u8;
    let addr = sockaddr_to_addr(&storage, 28);
    assert!(matches!(addr, Ok(SocketAddr::V4(_))));
    assert_eq!(
        addr,
        Ok(SocketAddr::V4(SocketAddrV4::new(Ipv4Addr::new(0x04, 0x03, 0x02, 0x01), 443)))
    );
}

#[test]
fn ipv6_tag_gives_only_ipv6() {
    let (mut storage, _) = encode_to_memory(&sample_v4());
    storage.bytes[1] = AF_INET6 as u8;
    let addr = sockaddr_to_addr(&storage, 28);
    assert!(matches!(addr, Ok(SocketAddr::V6(_))));
    let octets = [0u8; 16];
    let flowinfo = u32::from_le_bytes([192, 168, 1, 10]);
    assert_eq!(
        addr,
        Ok(SocketAddr::V6(SocketAddrV6::new(Ipv6Addr::from_octets(octets), 8080, flowinfo, 0)))
    );
}

#[test]
fn any_other_tag_is_unsupported() {
    let (mut storage, _) = encode_to_memory(&sample_v4());
    for tag in 0..=255u8 {
        if tag == 2 || tag == 10 {
            continue;
        }
        storage.bytes[1] = tag;
        assert!(storage.covered_by(0));
        assert_eq!(sockaddr_to_addr(&storage, 0), Err(IOError::UnsupportedFamily));
    }
}

#[test]
fn declared_length_must_cover_the_tagged_structure() {
    let (v4, _) = encode_to_memory(&sample_v4());
    assert!(!v4.covered_by(0));
    assert!(!v4.covered_by(15));
    assert!(v4.covered_by(16));
    assert!(v4.covered_by(28));
    let (v6, _) = encode_to_memory(&sample_v6());
    assert!(!v6.covered_by(16));
    assert!(!v6.covered_by(27));
    assert!(v6.covered_by(28));
    assert!(v6.covered_by(usize::MAX));
}

#[test]
fn storage_reads_back_both_structures() {
    let (storage, _) = encode_to_memory(&sample_v6());
    let v6 = storage.as_sockaddr_in6();
    assert_eq!(v6.sin6_family, 10);
    assert_eq!(v6.sin6_port, [0x01, 0xbb]);
    assert_eq!(v6.sin6_flowinfo, 0x0102_0304);
    assert_eq!(v6.sin6_scope_id, 0xa0b0_c0d0);
    assert_eq!(v6.sin6_addr.u8_addr, sample_v6_octets());
    let v4 = storage.as_sockaddr_in();
    assert_eq!(v4.sin_family, 10);
    assert_eq!(v4.sin_port, [0x01, 0xbb]);
    assert_eq!(v4.sin_addr.s_addr, [0x04, 0x03, 0x02, 0x01]);
}

#[test]
fn error_codes_as_integers() {
    assert_eq!(IOError::IoFailure(104).code(), 104);
    assert_eq!(IOError::IoFailure(0).code(), 0);
    assert_eq!(IOError::UnsupportedFamily.code(), -1);
}
