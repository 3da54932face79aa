//! Socket addresses in the form the socket API reads and writes.
//!
//! There are two layers. The structures ([`SockaddrIn`], [`SockaddrIn6`])
//! hold the fields of the C structures as plain values, and [`IntoInner`] and
//! [`FromInner`] convert between them and the addresses of [`crate::addr`].
//! [`SockaddrStorage`] is the memory itself, byte by byte: a structure is
//! written into it field by field and read back from it by its family tag.
//!
//! A field that the socket API reads in network byte order (a port, an
//! address) is held as the bytes that lie in memory. A field that it reads
//! raw (flow information, scope) is held as an integer, and lies in memory
//! least significant byte first, as on every chip this API is built for.

use crate::abi::{AF_INET, AF_INET6, SOCKADDR_IN6_LEN, SOCKADDR_IN_LEN};
use crate::addr::{Ipv4Addr, Ipv6Addr, SocketAddr, SocketAddrV4, SocketAddrV6};
use crate::sys::IOError;
use vstd::prelude::*;

verus! {

/// Turns a value into its representation for the socket API.
pub trait IntoInner<Inner> {
    /// The representation that `into_inner` returns.
    spec fn spec_into_inner(self) -> Inner;

    fn into_inner(self) -> (inner: Inner)
        ensures
            inner == self.spec_into_inner(),
    ;
}

/// Builds a value from its representation for the socket API.
pub trait FromInner<Inner>: Sized {
    /// The value that `from_inner` returns.
    spec fn spec_from_inner(inner: Inner) -> Self;

    fn from_inner(inner: Inner) -> (outer: Self)
        ensures
            outer == Self::spec_from_inner(inner),
    ;
}

/// `struct in_addr`: the four bytes of `s_addr` as they lie in memory.
#[derive(Clone, Copy, Debug, PartialEq, Eq)]
pub struct InAddr {
    pub s_addr: [u8; 4],
}

/// `struct in6_addr`: its sixteen bytes.
#[derive(Clone, Copy, Debug, PartialEq, Eq)]
pub struct In6Addr {
    pub u8_addr: [u8; 16],
}

/// `struct sockaddr_in`. The length byte and the padding, which are written
/// as zero and never read, have no field.
#[derive(Clone, Copy, Debug, PartialEq, Eq)]
pub struct SockaddrIn {
    pub sin_family: u8,
    /// The port in network byte order.
    pub sin_port: [u8; 2],
    pub sin_addr: InAddr,
}

/// `struct sockaddr_in6`. The length byte, which is written as zero and
/// never read, has no field.
#[derive(Clone, Copy, Debug, PartialEq, Eq)]
pub struct SockaddrIn6 {
    pub sin6_family: u8,
    /// The port in network byte order.
    pub sin6_port: [u8; 2],
    pub sin6_flowinfo: u32,
    pub sin6_addr: In6Addr,
    pub sin6_scope_id: u32,
}

/// An address as it is handed to the socket API: one of the two structures,
/// each no larger than it has to be.
#[derive(Clone, Copy, Debug, PartialEq, Eq)]
pub enum SocketAddrCRepr {
    V4(SockaddrIn),
    V6(SockaddrIn6),
}

/// `struct sockaddr_storage`: memory large enough for either structure,
/// tagged by the family in its second byte.
#[derive(Clone, Copy, Debug, PartialEq, Eq)]
pub struct SockaddrStorage {
    pub bytes: [u8; 28],
}

/// The bytes of `port` in network order: the more significant one first.
pub open spec fn port_to_be(port: u16) -> [u8; 2] {
    [(port / 256) as u8, (port % 256) as u8]
}

/// The port whose bytes in network order are `bytes`.
pub open spec fn port_from_be(bytes: [u8; 2]) -> u16 {
    (bytes[0] * 256 + bytes[1]) as u16
}

/// The bytes of a raw 32-bit field as they lie in memory.
pub open spec fn word_to_bytes(word: u32) -> Seq<u8> {
    seq![
        (word % 256) as u8,
        (word / 256 % 256) as u8,
        (word / 65536 % 256) as u8,
        (word / 16777216) as u8,
    ]
}

/// The raw 32-bit field whose bytes in memory are `b0` to `b3`.
pub open spec fn word_from_bytes(b0: u8, b1: u8, b2: u8, b3: u8) -> u32 {
    (b0 + b1 * 256 + b2 * 65536 + b3 * 16777216) as u32
}

fn port_bytes(port: u16) -> (bytes: [u8; 2])
    ensures
        bytes == port_to_be(port),
{
    let hi: u8 = (port >> 8) as u8;
    let lo: u8 = (port & 0xff) as u8;
    assert(hi == (port / 256) as u8 && lo == (port % 256) as u8) by (bit_vector)
        requires
            hi == (port >> 8) as u8,
            lo == (port & 0xff) as u8,
    ;
    [hi, lo]
}

fn port_of_bytes(bytes: [u8; 2]) -> (port: u16)
    ensures
        port == port_from_be(bytes),
{
    let hi: u8 = bytes[0];
    let lo: u8 = bytes[1];
    let port: u16 = ((hi as u16) << 8) | (lo as u16);
    assert(port == hi * 256 + lo) by (bit_vector)
        requires
            port == ((hi as u16) << 8) | (lo as u16),
    ;
    port
}

fn word_bytes(word: u32) -> (bytes: [u8; 4])
    ensures
        bytes@ == word_to_bytes(word),
{
    let b0: u8 = (word & 0xff) as u8;
    let b1: u8 = ((word >> 8) & 0xff) as u8;
    let b2: u8 = ((word >> 16) & 0xff) as u8;
    let b3: u8 = (word >> 24) as u8;
    assert(b0 == (word % 256) as u8 && b1 == (word / 256 % 256) as u8 && b2 == (word / 65536
        % 256) as u8 && b3 == (word / 16777216) as u8) by (bit_vector)
        requires
            b0 == (word & 0xff) as u8,
            b1 == ((word >> 8) & 0xff) as u8,
            b2 == ((word >> 16) & 0xff) as u8,
            b3 == (word >> 24) as u8,
    ;
    let bytes: [u8; 4] = [b0, b1, b2, b3];
    bytes
}

fn word_of_bytes(b0: u8, b1: u8, b2: u8, b3: u8) -> (word: u32)
    ensures
        word == word_from_bytes(b0, b1, b2, b3),
{
    let word: u32 = (b0 as u32) | ((b1 as u32) << 8) | ((b2 as u32) << 16) | ((b3 as u32) << 24);
    assert(word == b0 + b1 * 256 + b2 * 65536 + b3 * 16777216) by (bit_vector)
        requires
            word == (b0 as u32) | ((b1 as u32) << 8) | ((b2 as u32) << 16) | ((b3 as u32) << 24),
    ;
    word
}

impl IntoInner<InAddr> for Ipv4Addr {
    open spec fn spec_into_inner(self) -> InAddr {
        InAddr { s_addr: self.octets }
    }

    fn into_inner(self) -> (inner: InAddr) {
        InAddr { s_addr: self.octets() }
    }
}

impl IntoInner<In6Addr> for Ipv6Addr {
    open spec fn spec_into_inner(self) -> In6Addr {
        In6Addr { u8_addr: self.octets }
    }

    fn into_inner(self) -> (inner: In6Addr) {
        In6Addr { u8_addr: self.octets() }
    }
}

impl FromInner<InAddr> for Ipv4Addr {
    open spec fn spec_from_inner(inner: InAddr) -> Ipv4Addr {
        Ipv4Addr { octets: inner.s_addr }
    }

    fn from_inner(inner: InAddr) -> (outer: Ipv4Addr) {
        Ipv4Addr::from_octets(inner.s_addr)
    }
}

impl FromInner<In6Addr> for Ipv6Addr {
    open spec fn spec_from_inner(inner: In6Addr) -> Ipv6Addr {
        Ipv6Addr { octets: inner.u8_addr }
    }

    fn from_inner(inner: In6Addr) -> (outer: Ipv6Addr) {
        Ipv6Addr::from_octets(inner.u8_addr)
    }
}

impl IntoInner<SockaddrIn> for SocketAddrV4 {
    open spec fn spec_into_inner(self) -> SockaddrIn {
        SockaddrIn {
            sin_family: AF_INET as u8,
            sin_port: port_to_be(self.port),
            sin_addr: self.ip.spec_into_inner(),
        }
    }

    fn into_inner(self) -> (inner: SockaddrIn) {
        SockaddrIn {
            sin_family: AF_INET as u8,
            sin_port: port_bytes(self.port()),
            sin_addr: self.ip().into_inner(),
        }
    }
}

impl IntoInner<SockaddrIn6> for SocketAddrV6 {
    open spec fn spec_into_inner(self) -> SockaddrIn6 {
        SockaddrIn6 {
            sin6_family: AF_INET6 as u8,
            sin6_port: port_to_be(self.port),
            sin6_flowinfo: self.flowinfo,
            sin6_addr: self.ip.spec_into_inner(),
            sin6_scope_id: self.scope_id,
        }
    }

    fn into_inner(self) -> (inner: SockaddrIn6) {
        SockaddrIn6 {
            sin6_family: AF_INET6 as u8,
            sin6_port: port_bytes(self.port()),
            sin6_flowinfo: self.flowinfo(),
            sin6_addr: self.ip().into_inner(),
            sin6_scope_id: self.scope_id(),
        }
    }
}

impl FromInner<SockaddrIn> for SocketAddrV4 {
    open spec fn spec_from_inner(inner: SockaddrIn) -> SocketAddrV4 {
        SocketAddrV4 {
            ip: Ipv4Addr::spec_from_inner(inner.sin_addr),
            port: port_from_be(inner.sin_port),
        }
    }

    fn from_inner(inner: SockaddrIn) -> (outer: SocketAddrV4) {
        SocketAddrV4::new(Ipv4Addr::from_inner(inner.sin_addr), port_of_bytes(inner.sin_port))
    }
}

impl FromInner<SockaddrIn6> for SocketAddrV6 {
    open spec fn spec_from_inner(inner: SockaddrIn6) -> SocketAddrV6 {
        SocketAddrV6 {
            ip: Ipv6Addr::spec_from_inner(inner.sin6_addr),
            port: port_from_be(inner.sin6_port),
            flowinfo: inner.sin6_flowinfo,
            scope_id: inner.sin6_scope_id,
        }
    }

    fn from_inner(inner: SockaddrIn6) -> (outer: SocketAddrV6) {
        SocketAddrV6::new(
            Ipv6Addr::from_inner(inner.sin6_addr),
            port_of_bytes(inner.sin6_port),
            inner.sin6_flowinfo,
            inner.sin6_scope_id,
        )
    }
}

impl<'a> IntoInner<(SocketAddrCRepr, u32)> for &'a SocketAddr {
    /// The structure of the address's own family, and the size of that
    /// structure, not of the larger of the two.
    open spec fn spec_into_inner(self) -> (SocketAddrCRepr, u32) {
        match *self {
            SocketAddr::V4(a) => (SocketAddrCRepr::V4(a.spec_into_inner()), SOCKADDR_IN_LEN as u32),
            SocketAddr::V6(a) => (
                SocketAddrCRepr::V6(a.spec_into_inner()),
                SOCKADDR_IN6_LEN as u32,
            ),
        }
    }

    fn into_inner(self) -> (inner: (SocketAddrCRepr, u32)) {
        match *self {
            SocketAddr::V4(a) => {
                let sockaddr = SocketAddrCRepr::V4(a.into_inner());
                (sockaddr, SOCKADDR_IN_LEN as u32)
            },
            SocketAddr::V6(a) => {
                let sockaddr = SocketAddrCRepr::V6(a.into_inner());
                (sockaddr, SOCKADDR_IN6_LEN as u32)
            },
        }
    }
}

impl SocketAddrCRepr {
    /// The memory that the socket API is pointed at: the structure, field by
    /// field at the offsets of the C structure, then zeros.
    pub open spec fn spec_to_storage(self) -> SockaddrStorage {
        match self {
            SocketAddrCRepr::V4(v4) => {
                let a = v4.sin_addr.s_addr;
                SockaddrStorage {
                    bytes: [
                        0, v4.sin_family, v4.sin_port[0], v4.sin_port[1],
                        a[0], a[1], a[2], a[3],
                        0, 0, 0, 0, 0, 0, 0, 0,
                        0, 0, 0, 0, 0, 0, 0, 0,
                        0, 0, 0, 0,
                    ],
                }
            },
            SocketAddrCRepr::V6(v6) => {
                let a = v6.sin6_addr.u8_addr;
                let f = word_to_bytes(v6.sin6_flowinfo);
                let s = word_to_bytes(v6.sin6_scope_id);
                SockaddrStorage {
                    bytes: [
                        0, v6.sin6_family, v6.sin6_port[0], v6.sin6_port[1],
                        f[0], f[1], f[2], f[3],
                        a[0], a[1], a[2], a[3], a[4], a[5], a[6], a[7],
                        a[8], a[9], a[10], a[11], a[12], a[13], a[14], a[15],
                        s[0], s[1], s[2], s[3],
                    ],
                }
            },
        }
    }

    /// The number of leading bytes of the memory that belong to the
    /// structure.
    pub open spec fn spec_len(self) -> u32 {
        match self {
            SocketAddrCRepr::V4(_) => SOCKADDR_IN_LEN as u32,
            SocketAddrCRepr::V6(_) => SOCKADDR_IN6_LEN as u32,
        }
    }

    pub fn to_storage(&self) -> (storage: SockaddrStorage)
        ensures
            storage == self.spec_to_storage(),
    {
        match self {
            SocketAddrCRepr::V4(v4) => {
                let a = v4.sin_addr.s_addr;
                let p = v4.sin_port;
                SockaddrStorage {
                    bytes: [
                        0, v4.sin_family, p[0], p[1],
                        a[0], a[1], a[2], a[3],
                        0, 0, 0, 0, 0, 0, 0, 0,
                        0, 0, 0, 0, 0, 0, 0, 0,
                        0, 0, 0, 0,
                    ],
                }
            },
            SocketAddrCRepr::V6(v6) => {
                let a = v6.sin6_addr.u8_addr;
                let p = v6.sin6_port;
                let f = word_bytes(v6.sin6_flowinfo);
                let s = word_bytes(v6.sin6_scope_id);
                SockaddrStorage {
                    bytes: [
                        0, v6.sin6_family, p[0], p[1],
                        f[0], f[1], f[2], f[3],
                        a[0], a[1], a[2], a[3], a[4], a[5], a[6], a[7],
                        a[8], a[9], a[10], a[11], a[12], a[13], a[14], a[15],
                        s[0], s[1], s[2], s[3],
                    ],
                }
            },
        }
    }

    pub fn len(&self) -> (len: u32)
        ensures
            len == self.spec_len(),
    {
        match self {
            SocketAddrCRepr::V4(_) => SOCKADDR_IN_LEN as u32,
            SocketAddrCRepr::V6(_) => SOCKADDR_IN6_LEN as u32,
        }
    }
}

impl SockaddrStorage {
    /// The family tag.
    pub open spec fn spec_family(self) -> u8 {
        self.bytes[1]
    }

    /// The memory read as a `struct sockaddr_in`.
    pub open spec fn spec_as_sockaddr_in(self) -> SockaddrIn {
        let b = self.bytes;
        SockaddrIn {
            sin_family: b[1],
            sin_port: [b[2], b[3]],
            sin_addr: InAddr { s_addr: [b[4], b[5], b[6], b[7]] },
        }
    }

    /// The memory read as a `struct sockaddr_in6`.
    pub open spec fn spec_as_sockaddr_in6(self) -> SockaddrIn6 {
        let b = self.bytes;
        SockaddrIn6 {
            sin6_family: b[1],
            sin6_port: [b[2], b[3]],
            sin6_flowinfo: word_from_bytes(b[4], b[5], b[6], b[7]),
            sin6_addr: In6Addr {
                u8_addr: [
                    b[8], b[9], b[10], b[11], b[12], b[13], b[14], b[15],
                    b[16], b[17], b[18], b[19], b[20], b[21], b[22], b[23],
                ],
            },
            sin6_scope_id: word_from_bytes(b[24], b[25], b[26], b[27]),
        }
    }

    /// Whether `len` bytes cover the structure that the family tag names.
    /// Of memory with any other tag nothing is read, so any length will do.
    pub open spec fn spec_covered_by(self, len: usize) -> bool {
        &&& self.spec_family() == AF_INET ==> len >= SOCKADDR_IN_LEN
        &&& self.spec_family() == AF_INET6 ==> len >= SOCKADDR_IN6_LEN
    }

    /// Memory that holds nothing yet: every byte zero.
    pub open spec fn spec_zeroed() -> SockaddrStorage {
        SockaddrStorage {
            bytes: [
                0, 0, 0, 0, 0, 0, 0, 0, 0, 0, 0, 0, 0, 0, 0, 0, 0, 0, 0, 0, 0, 0, 0, 0, 0, 0, 0, 0,
            ],
        }
    }

    pub fn zeroed() -> (storage: SockaddrStorage)
        ensures
            storage == Self::spec_zeroed(),
            forall|i: int| 0 <= i < 28 ==> storage.bytes[i] == 0,
    {
        let storage = SockaddrStorage { bytes: [0u8; 28] };
        assert(storage.bytes =~= Self::spec_zeroed().bytes);
        storage
    }

    pub fn family(&self) -> (family: u8)
        ensures
            family == self.spec_family(),
    {
        self.bytes[1]
    }

    pub fn as_sockaddr_in(&self) -> (inner: SockaddrIn)
        ensures
            inner == self.spec_as_sockaddr_in(),
    {
        let b = &self.bytes;
        SockaddrIn {
            sin_family: b[1],
            sin_port: [b[2], b[3]],
            sin_addr: InAddr { s_addr: [b[4], b[5], b[6], b[7]] },
        }
    }

    pub fn as_sockaddr_in6(&self) -> (inner: SockaddrIn6)
        ensures
            inner == self.spec_as_sockaddr_in6(),
    {
        let b = &self.bytes;
        SockaddrIn6 {
            sin6_family: b[1],
            sin6_port: [b[2], b[3]],
            sin6_flowinfo: word_of_bytes(b[4], b[5], b[6], b[7]),
            sin6_addr: In6Addr {
                u8_addr: [
                    b[8], b[9], b[10], b[11], b[12], b[13], b[14], b[15],
                    b[16], b[17], b[18], b[19], b[20], b[21], b[22], b[23],
                ],
            },
            sin6_scope_id: word_of_bytes(b[24], b[25], b[26], b[27]),
        }
    }

    pub fn covered_by(&self, len: usize) -> (covered: bool)
        ensures
            covered == self.spec_covered_by(len),
    {
        let family = self.family();
        if family == AF_INET as u8 {
            len >= SOCKADDR_IN_LEN
        } else if family == AF_INET6 as u8 {
            len >= SOCKADDR_IN6_LEN
        } else {
            true
        }
    }
}

/// The address that tagged memory holds: by its family tag an IPv4 or an
/// IPv6 address, read from the structure of that family; with any other tag
/// none.
pub open spec fn spec_sockaddr_to_addr(storage: SockaddrStorage) -> Result<SocketAddr, IOError> {
    if storage.spec_family() == AF_INET {
        Ok(SocketAddr::V4(SocketAddrV4::spec_from_inner(storage.spec_as_sockaddr_in())))
    } else if storage.spec_family() == AF_INET6 {
        Ok(SocketAddr::V6(SocketAddrV6::spec_from_inner(storage.spec_as_sockaddr_in6())))
    } else {
        Err(IOError::UnsupportedFamily)
    }
}

/// Reads the address out of memory that the socket API filled, of which it
/// declared `len` bytes valid.
///
/// Memory whose declared length does not cover the structure that its tag
/// names is not an address at all; a caller that cannot rule it out tests
/// [`SockaddrStorage::covered_by`] first.
pub fn sockaddr_to_addr(storage: &SockaddrStorage, len: usize) -> (addr: Result<
    SocketAddr,
    IOError,
>)
    requires
        storage.spec_covered_by(len),
    ensures
        addr == spec_sockaddr_to_addr(*storage),
        storage.spec_family() == AF_INET ==> addr is Ok && addr->Ok_0 is V4,
        storage.spec_family() == AF_INET6 ==> addr is Ok && addr->Ok_0 is V6,
        storage.spec_family() != AF_INET && storage.spec_family() != AF_INET6 ==> addr == Err::<
            SocketAddr,
            IOError,
        >(IOError::UnsupportedFamily),
{
    let family = storage.family();
    if family == AF_INET as u8 {
        Ok(SocketAddr::V4(SocketAddrV4::from_inner(storage.as_sockaddr_in())))
    } else if family == AF_INET6 as u8 {
        Ok(SocketAddr::V6(SocketAddrV6::from_inner(storage.as_sockaddr_in6())))
    } else {
        Err(IOError::UnsupportedFamily)
    }
}

/// A port survives the trip into network byte order and back.
pub proof fn lemma_port_roundtrip(port: u16)
    ensures
        port_from_be(port_to_be(port)) == port,
{
}

/// A raw 32-bit field survives the trip into memory and back.
pub proof fn lemma_word_roundtrip(word: u32)
    ensures
        word_from_bytes(
            word_to_bytes(word)[0],
            word_to_bytes(word)[1],
            word_to_bytes(word)[2],
            word_to_bytes(word)[3],
        ) == word,
{
}

/// Encoding an address and decoding the memory gives the address back:
/// its octets and port, and for IPv6 its flow information and scope too.
/// The length that encoding returns covers the structure written.
pub proof fn lemma_decode_encode(addr: SocketAddr)
    ensures
        ({
            let (repr, len) = (&addr).spec_into_inner();
            let storage = repr.spec_to_storage();
            &&& len == repr.spec_len()
            &&& storage.spec_covered_by(len as usize)
            &&& spec_sockaddr_to_addr(storage) == Ok::<SocketAddr, IOError>(addr)
        }),
{
    let storage = (&addr).spec_into_inner().0.spec_to_storage();
    match addr {
        SocketAddr::V4(a) => {
            lemma_port_roundtrip(a.port);
            assert(storage.spec_as_sockaddr_in().sin_addr.s_addr =~= a.ip.octets);
        },
        SocketAddr::V6(a) => {
            lemma_port_roundtrip(a.port);
            lemma_word_roundtrip(a.flowinfo);
            lemma_word_roundtrip(a.scope_id);
            assert(storage.spec_as_sockaddr_in6().sin6_addr.u8_addr =~= a.ip.octets);
        },
    }
}

} // verus!
