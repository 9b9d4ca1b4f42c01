use vstd::prelude::*;
use vstd::utf8::{decode_utf8, encode_utf8, valid_utf8};

use crate::error::{Error, ErrorKind};
use crate::octets::{be16, copy_range, from_be16, lemma_be16_inverse, push_all, push_be16, read_be16};

verus! {

broadcast use vstd::utf8::encode_utf8_valid_utf8, vstd::utf8::encode_utf8_decode_utf8;

/// Tag of a domain-name address on the wire.
pub const ATYP_DOMAIN: u8 = 1;
/// Tag of an IPv4 socket address on the wire.
pub const ATYP_IPV4: u8 = 2;
/// Tag of an IPv6 socket address on the wire.
pub const ATYP_IPV6: u8 = 3;
/// The longest domain name, in bytes, that the one-byte length prefix can carry.
pub const MAX_DOMAIN_LENGTH: usize = 255;

/// An IPv4 address and port.
#[derive(Debug, Clone, Copy, PartialEq, Eq, Hash)]
pub struct SocketV4 {
    pub ip: [u8; 4],
    pub port: u16,
}

/// An IPv6 address and port.
#[derive(Debug, Clone, Copy, PartialEq, Eq, Hash)]
pub struct SocketV6 {
    pub ip: [u8; 16],
    pub port: u16,
}

impl SocketV4 {
    pub fn new(ip: [u8; 4], port: u16) -> (r: SocketV4)
        ensures
            r.ip == ip,
            r.port == port,
    {
        SocketV4 { ip, port }
    }

    pub fn ip(&self) -> (r: [u8; 4])
        ensures
            r == self.ip,
    {
        self.ip
    }

    pub fn port(&self) -> (r: u16)
        ensures
            r == self.port,
    {
        self.port
    }
}

impl SocketV6 {
    pub fn new(ip: [u8; 16], port: u16) -> (r: SocketV6)
        ensures
            r.ip == ip,
            r.port == port,
    {
        SocketV6 { ip, port }
    }

    pub fn ip(&self) -> (r: [u8; 16])
        ensures
            r == self.ip,
    {
        self.ip
    }

    pub fn port(&self) -> (r: u16)
        ensures
            r == self.port,
    {
        self.port
    }
}

/// A concrete socket address, as a datagram source or a dial target.
#[derive(Debug, Clone, Copy, PartialEq, Eq, Hash)]
pub enum SocketAddress {
    V4(SocketV4),
    V6(SocketV6),
}

/// Whether two byte strings are equal.
pub fn bytes_equal(a: &[u8], b: &[u8]) -> (r: bool)
    ensures
        r == (a@ == b@),
{
    if a.len() != b.len() {
        return false;
    }
    let mut i: usize = 0;
    while i < a.len()
        invariant
            i <= a@.len(),
            a@.len() == b@.len(),
            forall|k: int| 0 <= k < i ==> a@[k] == b@[k],
        decreases a@.len() - i,
    {
        if a[i] != b[i] {
            return false;
        }
        i = i + 1;
    }
    assert(a@ =~= b@);
    true
}

impl SocketAddress {
    /// Whether `self` and `other` are the same socket address.
    pub fn same(&self, other: &SocketAddress) -> (r: bool)
        ensures
            r == (*self == *other),
    {
        match (self, other) {
            (SocketAddress::V4(a), SocketAddress::V4(b)) => {
                let same_ip = bytes_equal(a.ip.as_slice(), b.ip.as_slice());
                if same_ip {
                    assert(a.ip =~= b.ip);
                }
                same_ip && a.port == b.port
            },
            (SocketAddress::V6(a), SocketAddress::V6(b)) => {
                let same_ip = bytes_equal(a.ip.as_slice(), b.ip.as_slice());
                if same_ip {
                    assert(a.ip =~= b.ip);
                }
                same_ip && a.port == b.port
            },
            _ => false,
        }
    }
}

/// A destination: a domain name to be resolved, or a concrete socket address.
#[derive(Debug, Clone, PartialEq, Eq)]
pub enum Address {
    Domain(String, u16),
    IPv4(SocketV4),
    IPv6(SocketV6),
}

/// What an [`Address`] denotes: names as characters, IP addresses as their octets.
pub enum AddressView {
    Domain(Seq<char>, u16),
    IPv4(Seq<u8>, u16),
    IPv6(Seq<u8>, u16),
}

impl View for Address {
    type V = AddressView;

    open spec fn view(&self) -> AddressView {
        match self {
            Address::Domain(d, p) => AddressView::Domain(d@, *p),
            Address::IPv4(s) => AddressView::IPv4(s.ip@, s.port),
            Address::IPv6(s) => AddressView::IPv6(s.ip@, s.port),
        }
    }
}

/// What a socket address denotes, as a destination.
pub open spec fn socket_view(s: SocketAddress) -> AddressView {
    match s {
        SocketAddress::V4(v) => AddressView::IPv4(v.ip@, v.port),
        SocketAddress::V6(v) => AddressView::IPv6(v.ip@, v.port),
    }
}

impl AddressView {
    pub open spec fn port(self) -> u16 {
        match self {
            AddressView::Domain(_, p) => p,
            AddressView::IPv4(_, p) => p,
            AddressView::IPv6(_, p) => p,
        }
    }
}

/// An address can be put on the wire: its domain name, encoded, fits the one-byte length.
/// IP octet sequences always have their fixed length (4 or 16) when they come from an
/// [`Address`].
pub open spec fn valid_address(a: AddressView) -> bool {
    match a {
        AddressView::Domain(d, _) => encode_utf8(d).len() <= MAX_DOMAIN_LENGTH,
        AddressView::IPv4(ip, _) => ip.len() == 4,
        AddressView::IPv6(ip, _) => ip.len() == 16,
    }
}

/// The wire form of an address: `atyp`, then for a domain its length byte and its UTF-8
/// bytes, for an IP address its octets; then the port, big-endian.
pub open spec fn address_bytes(a: AddressView) -> Seq<u8> {
    match a {
        AddressView::Domain(d, p) => seq![ATYP_DOMAIN, encode_utf8(d).len() as u8] + encode_utf8(d)
            + be16(p),
        AddressView::IPv4(ip, p) => seq![ATYP_IPV4] + ip + be16(p),
        AddressView::IPv6(ip, p) => seq![ATYP_IPV6] + ip + be16(p),
    }
}

/// Reading an address from the front of `b`: the address and the number of bytes it took,
/// or why no address can be read. The tag comes first and decides the layout; bytes missing
/// anywhere give `UnexpectedEof`, an unknown tag or a name that is not UTF-8 `InvalidData`.
pub open spec fn parse_address(b: Seq<u8>) -> Result<(AddressView, int), ErrorKind> {
    if b.len() < 1 {
        Err(ErrorKind::UnexpectedEof)
    } else if b[0] == ATYP_DOMAIN {
        if b.len() < 2 {
            Err(ErrorKind::UnexpectedEof)
        } else {
            let n = b[1] as int;
            if b.len() < 4 + n {
                Err(ErrorKind::UnexpectedEof)
            } else if !valid_utf8(b.subrange(2, 2 + n)) {
                Err(ErrorKind::InvalidData)
            } else {
                Ok(
                    (
                        AddressView::Domain(
                            decode_utf8(b.subrange(2, 2 + n)),
                            from_be16(b[2 + n], b[3 + n]),
                        ),
                        4 + n,
                    ),
                )
            }
        }
    } else if b[0] == ATYP_IPV4 {
        if b.len() < 7 {
            Err(ErrorKind::UnexpectedEof)
        } else {
            Ok((AddressView::IPv4(b.subrange(1, 5), from_be16(b[5], b[6])), 7))
        }
    } else if b[0] == ATYP_IPV6 {
        if b.len() < 19 {
            Err(ErrorKind::UnexpectedEof)
        } else {
            Ok((AddressView::IPv6(b.subrange(1, 17), from_be16(b[17], b[18])), 19))
        }
    } else {
        Err(ErrorKind::InvalidData)
    }
}

/// Reading back what was written gives the same address, whatever follows it, and
/// consumes exactly its wire form.
pub proof fn lemma_address_round_trip(a: AddressView, rest: Seq<u8>)
    requires
        valid_address(a),
    ensures
        parse_address(address_bytes(a) + rest) == Ok::<(AddressView, int), ErrorKind>(
            (a, address_bytes(a).len() as int),
        ),
{
    let b = address_bytes(a) + rest;
    match a {
        AddressView::Domain(d, p) => {
            let e = encode_utf8(d);
            let n = e.len() as int;
            assert(b[1] as int == n);
            assert(b.subrange(2, 2 + n) =~= e);
            lemma_be16_inverse(p);
            assert(b[2 + n] == be16(p)[0]);
            assert(b[3 + n] == be16(p)[1]);
        },
        AddressView::IPv4(ip, p) => {
            assert(b.subrange(1, 5) =~= ip);
            lemma_be16_inverse(p);
            assert(b[5] == be16(p)[0]);
            assert(b[6] == be16(p)[1]);
        },
        AddressView::IPv6(ip, p) => {
            assert(b.subrange(1, 17) =~= ip);
            lemma_be16_inverse(p);
            assert(b[17] == be16(p)[0]);
            assert(b[18] == be16(p)[1]);
        },
    }
}

/// A tag other than the three known ones is malformed data, whatever follows it.
pub proof fn lemma_address_unknown_tag(tag: u8, rest: Seq<u8>)
    requires
        tag != ATYP_DOMAIN && tag != ATYP_IPV4 && tag != ATYP_IPV6,
    ensures
        parse_address(seq![tag] + rest) == Err::<(AddressView, int), ErrorKind>(
            ErrorKind::InvalidData,
        ),
{
}

/// A domain name whose bytes, all present, are not UTF-8 is malformed data.
pub proof fn lemma_address_bad_name(name: Seq<u8>, port: u16, rest: Seq<u8>)
    requires
        name.len() <= MAX_DOMAIN_LENGTH,
        !valid_utf8(name),
    ensures
        parse_address(seq![ATYP_DOMAIN, name.len() as u8] + name + be16(port) + rest) == Err::<
            (AddressView, int),
            ErrorKind,
        >(ErrorKind::InvalidData),
{
    let b = seq![ATYP_DOMAIN, name.len() as u8] + name + be16(port) + rest;
    assert(b.subrange(2, 2 + name.len() as int) =~= name);
}

/// Any strict prefix of an address's wire form is cut short: `UnexpectedEof`.
pub proof fn lemma_address_truncated(a: AddressView, k: int)
    requires
        valid_address(a),
        0 <= k < address_bytes(a).len(),
    ensures
        parse_address(address_bytes(a).subrange(0, k)) == Err::<(AddressView, int), ErrorKind>(
            ErrorKind::UnexpectedEof,
        ),
{
    let b = address_bytes(a).subrange(0, k);
    if k >= 1 {
        assert(b[0] == address_bytes(a)[0]);
    }
    if k >= 2 {
        assert(b[1] == address_bytes(a)[1]);
    }
}

/// Relies on `String::from_utf8`: it succeeds exactly on well-formed UTF-8, and then holds
/// the characters that the bytes encode.
#[verifier::external_body]
pub(crate) fn utf8_string(bytes: Vec<u8>) -> (r: Option<String>)
    ensures
        r is Some <==> valid_utf8(bytes@),
        r matches Some(s) ==> s@ == decode_utf8(bytes@),
{
    String::from_utf8(bytes).ok()
}

/// The UTF-8 bytes of a string.
pub fn string_bytes(s: &String) -> (r: &[u8])
    ensures
        r@ == encode_utf8(s@),
{
    s.as_str().as_bytes()
}

/// Builds a domain-name address from bytes received from a peer, which must be UTF-8.
pub fn domain_from_bytes(bytes: Vec<u8>, port: u16) -> (r: Result<Address, Error>)
    ensures
        r is Ok <==> valid_utf8(bytes@),
        r matches Ok(a) ==> a@ == AddressView::Domain(decode_utf8(bytes@), port),
        r matches Err(e) ==> e.kind == ErrorKind::InvalidData,
{
    match utf8_string(bytes) {
        Some(s) => Ok(Address::Domain(s, port)),
        None => Err(Error::new(ErrorKind::InvalidData)),
    }
}

fn array4(b: &[u8], at: usize) -> (r: [u8; 4])
    requires
        at + 4 <= b@.len(),
    ensures
        r@ == b@.subrange(at as int, at + 4),
{
    let r = [b[at], b[at + 1], b[at + 2], b[at + 3]];
    assert(r@ =~= b@.subrange(at as int, at + 4));
    r
}

fn array16(b: &[u8], at: usize) -> (r: [u8; 16])
    requires
        at + 16 <= b@.len(),
    ensures
        r@ == b@.subrange(at as int, at + 16),
{
    let mut r = [0u8; 16];
    let mut i: usize = 0;
    while i < 16
        invariant
            at + 16 <= b@.len(),
            b@.len() == b.len(),
            i <= 16,
            r@.len() == 16,
            forall|k: int| 0 <= k < i ==> r@[k] == b@[at + k],
        decreases 16 - i,
    {
        r[i] = b[at + i];
        i = i + 1;
    }
    assert(r@ =~= b@.subrange(at as int, at + 16));
    r
}

impl Address {
    /// The address of a concrete socket.
    pub fn from_socket(s: SocketAddress) -> (r: Address)
        ensures
            r == match s {
                SocketAddress::V4(v) => Address::IPv4(v),
                SocketAddress::V6(v) => Address::IPv6(v),
            },
            r@ == socket_view(s),
    {
        match s {
            SocketAddress::V4(v) => Address::IPv4(v),
            SocketAddress::V6(v) => Address::IPv6(v),
        }
    }

    /// The socket that an IP destination names directly; `None` for a domain name, which
    /// must be resolved first.
    pub fn socket(&self) -> (r: Option<SocketAddress>)
        ensures
            r == match self {
                Address::Domain(_, _) => None,
                Address::IPv4(v) => Some(SocketAddress::V4(*v)),
                Address::IPv6(v) => Some(SocketAddress::V6(*v)),
            },
    {
        match self {
            Address::Domain(_, _) => None,
            Address::IPv4(v) => Some(SocketAddress::V4(*v)),
            Address::IPv6(v) => Some(SocketAddress::V6(*v)),
        }
    }

    /// The port of the destination.
    pub fn port(&self) -> (r: u16)
        ensures
            r == self@.port(),
    {
        match self {
            Address::Domain(_, p) => *p,
            Address::IPv4(s) => s.port,
            Address::IPv6(s) => s.port,
        }
    }

    /// Appends the wire form of the address to `out`. A domain name longer than
    /// 255 bytes cannot be written: `InvalidInput`, and `out` is left as it was.
    pub fn write_to(&self, out: &mut Vec<u8>) -> (r: Result<(), Error>)
        ensures
            r is Ok <==> valid_address(self@),
            r is Ok ==> final(out)@ == old(out)@ + address_bytes(self@),
            r matches Err(e) ==> e.kind == ErrorKind::InvalidInput && final(out)@ == old(out)@,
    {
        match self {
            Address::Domain(d, p) => {
                let name = string_bytes(d);
                if name.len() > MAX_DOMAIN_LENGTH {
                    return Err(Error::new(ErrorKind::InvalidInput));
                }
                let ghost start = out@;
                out.push(ATYP_DOMAIN);
                out.push(name.len() as u8);
                push_all(out, name);
                push_be16(out, *p);
                assert(out@ =~= start + address_bytes(self@));
            },
            Address::IPv4(s) => {
                let ghost start = out@;
                out.push(ATYP_IPV4);
                push_all(out, s.ip.as_slice());
                push_be16(out, s.port);
                assert(out@ =~= start + address_bytes(self@));
            },
            Address::IPv6(s) => {
                let ghost start = out@;
                out.push(ATYP_IPV6);
                push_all(out, s.ip.as_slice());
                push_be16(out, s.port);
                assert(out@ =~= start + address_bytes(self@));
            },
        }
        Ok(())
    }

    /// The wire form of the address; `InvalidInput` for a domain name over 255 bytes.
    pub fn to_bytes(&self) -> (r: Result<Vec<u8>, Error>)
        ensures
            r is Ok <==> valid_address(self@),
            r matches Ok(b) ==> b@ == address_bytes(self@),
            r matches Err(e) ==> e.kind == ErrorKind::InvalidInput,
    {
        let mut out: Vec<u8> = Vec::new();
        match self.write_to(&mut out) {
            Ok(()) => {
                assert(out@ =~= address_bytes(self@));
                Ok(out)
            },
            Err(e) => Err(e),
        }
    }

    /// Reads an address from the front of `b`: the address and how many bytes it took.
    pub fn from_bytes(b: &[u8]) -> (r: Result<(Address, usize), Error>)
        ensures
            r matches Ok((a, n)) ==> parse_address(b@) == Ok::<(AddressView, int), ErrorKind>((a@, n as int)),
            r matches Err(e) ==> parse_address(b@) == Err::<(AddressView, int), ErrorKind>(e.kind),
    {
        if b.len() < 1 {
            return Err(Error::new(ErrorKind::UnexpectedEof));
        }
        let atyp = b[0];
        if atyp == ATYP_DOMAIN {
            if b.len() < 2 {
                return Err(Error::new(ErrorKind::UnexpectedEof));
            }
            let n = b[1] as usize;
            if b.len() < 4 + n {
                return Err(Error::new(ErrorKind::UnexpectedEof));
            }
            let name = copy_range(b, 2, 2 + n);
            let port = read_be16(b, 2 + n);
            match domain_from_bytes(name, port) {
                Ok(a) => Ok((a, 4 + n)),
                Err(e) => Err(e),
            }
        } else if atyp == ATYP_IPV4 {
            if b.len() < 7 {
                return Err(Error::new(ErrorKind::UnexpectedEof));
            }
            let ip = array4(b, 1);
            let port = read_be16(b, 5);
            Ok((Address::IPv4(SocketV4 { ip, port }), 7))
        } else if atyp == ATYP_IPV6 {
            if b.len() < 19 {
                return Err(Error::new(ErrorKind::UnexpectedEof));
            }
            let ip = array16(b, 1);
            let port = read_be16(b, 17);
            Ok((Address::IPv6(SocketV6 { ip, port }), 19))
        } else {
            Err(Error::new(ErrorKind::InvalidData))
        }
    }
}

} // verus!
