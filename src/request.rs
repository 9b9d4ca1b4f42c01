use vstd::prelude::*;
use vstd::utf8::{decode_utf8, encode_utf8, valid_utf8};

use crate::address::{
    domain_from_bytes, string_bytes, Address, AddressView, SocketV4, SocketV6, MAX_DOMAIN_LENGTH,
};
use crate::error::{Error, ErrorKind};
use crate::octets::{
    be16, be32, copy_range, from_be16, from_be32, lemma_be16_inverse, lemma_be32_inverse,
    push_all, push_be16, push_be32, read_be16, read_be32,
};

verus! {

broadcast use vstd::utf8::encode_utf8_valid_utf8, vstd::utf8::encode_utf8_decode_utf8;

/// A request in the length-prefixed header layout:
/// `LENGTH(4) RTYP(1) ATYP(1) PORT(2) ADDR(LENGTH or the IP size)`, integers big-endian.
#[derive(Debug, Clone, PartialEq, Eq)]
pub enum Request {
    TcpConnect(Address),
}

/// The size of the fixed part of the header.
pub const HEADER_LENGTH: usize = 8;
/// Request type of a TCP connect.
pub const RTYP_TCP_CONNECT: u8 = 1;
/// Address type of a domain name.
pub const ATYP_DOMAIN: u8 = 1;
/// Address type of an IPv4 address.
pub const ATYP_IPV4: u8 = 2;
/// Address type of an IPv6 address.
pub const ATYP_IPV6: u8 = 3;

/// The address bytes that the header announces, and its type tag.
pub open spec fn request_address(a: AddressView) -> (u8, Seq<u8>) {
    match a {
        AddressView::Domain(d, _) => (ATYP_DOMAIN, encode_utf8(d)),
        AddressView::IPv4(ip, _) => (ATYP_IPV4, ip),
        AddressView::IPv6(ip, _) => (ATYP_IPV6, ip),
    }
}

/// A request can be written: its domain name is at most 255 bytes, its IP octets have their
/// fixed length.
pub open spec fn valid_request(a: AddressView) -> bool {
    match a {
        AddressView::Domain(d, _) => encode_utf8(d).len() <= MAX_DOMAIN_LENGTH,
        AddressView::IPv4(ip, _) => ip.len() == 4,
        AddressView::IPv6(ip, _) => ip.len() == 16,
    }
}

/// The wire form of a TCP connect request to `a`.
pub open spec fn request_bytes(a: AddressView) -> Seq<u8> {
    let (atyp, addr) = request_address(a);
    be32(addr.len() as u32) + seq![RTYP_TCP_CONNECT, atyp] + be16(a.port()) + addr
}

/// Reading a request from the front of `b`: the address of the TCP connect and the number of
/// bytes taken. The address is read first: a domain name announced longer than 255 bytes
/// gives `InvalidData` from the header alone; missing bytes give `UnexpectedEof`, an unknown
/// address type or a name that is not UTF-8 `InvalidData`; then a request type other than
/// TCP connect gives `InvalidData`.
pub open spec fn parse_request(b: Seq<u8>) -> Result<(AddressView, int), ErrorKind> {
    if b.len() < HEADER_LENGTH {
        Err(ErrorKind::UnexpectedEof)
    } else {
        let length = from_be32(b[0], b[1], b[2], b[3]) as int;
        let port = from_be16(b[6], b[7]);
        let address: Result<(AddressView, int), ErrorKind> = if b[5] == ATYP_DOMAIN {
            if length > MAX_DOMAIN_LENGTH {
                Err(ErrorKind::InvalidData)
            } else if b.len() < 8 + length {
                Err(ErrorKind::UnexpectedEof)
            } else if !valid_utf8(b.subrange(8, 8 + length)) {
                Err(ErrorKind::InvalidData)
            } else {
                Ok((AddressView::Domain(decode_utf8(b.subrange(8, 8 + length)), port), 8 + length))
            }
        } else if b[5] == ATYP_IPV4 {
            if b.len() < 12 {
                Err(ErrorKind::UnexpectedEof)
            } else {
                Ok((AddressView::IPv4(b.subrange(8, 12), port), 12))
            }
        } else if b[5] == ATYP_IPV6 {
            if b.len() < 24 {
                Err(ErrorKind::UnexpectedEof)
            } else {
                Ok((AddressView::IPv6(b.subrange(8, 24), port), 24))
            }
        } else {
            Err(ErrorKind::InvalidData)
        };
        match address {
            Err(e) => Err(e),
            Ok(r) => if b[4] == RTYP_TCP_CONNECT {
                Ok(r)
            } else {
                Err(ErrorKind::InvalidData)
            },
        }
    }
}

/// A request is read back as written, whatever follows it, and takes exactly its wire form.
pub proof fn lemma_request_round_trip(a: AddressView, rest: Seq<u8>)
    requires
        valid_request(a),
    ensures
        parse_request(request_bytes(a) + rest) == Ok::<(AddressView, int), ErrorKind>(
            (a, request_bytes(a).len() as int),
        ),
{
    let b = request_bytes(a) + rest;
    let (atyp, addr) = request_address(a);
    lemma_be32_inverse(addr.len() as u32);
    lemma_be16_inverse(a.port());
    assert(b[0] == be32(addr.len() as u32)[0]);
    assert(b[1] == be32(addr.len() as u32)[1]);
    assert(b[2] == be32(addr.len() as u32)[2]);
    assert(b[3] == be32(addr.len() as u32)[3]);
    assert(b[6] == be16(a.port())[0]);
    assert(b[7] == be16(a.port())[1]);
    assert(b.subrange(8, 8 + addr.len() as int) =~= addr);
}

/// A header whose domain name is announced longer than 255 bytes is malformed data, decided
/// from the eight header bytes whatever follows them.
pub proof fn lemma_request_long_name(header: Seq<u8>, rest: Seq<u8>)
    requires
        header.len() == HEADER_LENGTH,
        header[5] == ATYP_DOMAIN,
        from_be32(header[0], header[1], header[2], header[3]) > MAX_DOMAIN_LENGTH,
    ensures
        parse_request(header + rest) == Err::<(AddressView, int), ErrorKind>(
            ErrorKind::InvalidData,
        ),
{
    let b = header + rest;
    assert(b[0] == header[0] && b[1] == header[1] && b[2] == header[2] && b[3] == header[3]);
    assert(b[5] == header[5]);
}

impl View for Request {
    /// A request is known by its destination.
    type V = AddressView;

    open spec fn view(&self) -> AddressView {
        match self {
            Request::TcpConnect(a) => a@,
        }
    }
}

impl Request {
    /// The address of the request.
    pub fn address(&self) -> (r: &Address)
        ensures
            *self == Request::TcpConnect(*r),
    {
        match self {
            Request::TcpConnect(a) => a,
        }
    }

    /// The wire form of the request; `InvalidInput` for a domain name over 255 bytes.
    pub fn to_bytes(&self) -> (r: Result<Vec<u8>, Error>)
        ensures
            r is Ok <==> valid_request(self@),
            r matches Ok(b) ==> b@ == request_bytes(self@),
            r matches Err(e) ==> e.kind == ErrorKind::InvalidInput,
    {
        let mut out: Vec<u8> = Vec::new();
        match self {
            Request::TcpConnect(address) => match address {
                Address::Domain(domain, port) => {
                    let name = string_bytes(domain);
                    if name.len() > MAX_DOMAIN_LENGTH {
                        return Err(Error::new(ErrorKind::InvalidInput));
                    }
                    push_be32(&mut out, name.len() as u32);
                    out.push(RTYP_TCP_CONNECT);
                    out.push(ATYP_DOMAIN);
                    push_be16(&mut out, *port);
                    push_all(&mut out, name);
                },
                Address::IPv4(s) => {
                    push_be32(&mut out, 4);
                    out.push(RTYP_TCP_CONNECT);
                    out.push(ATYP_IPV4);
                    push_be16(&mut out, s.port);
                    push_all(&mut out, s.ip.as_slice());
                },
                Address::IPv6(s) => {
                    push_be32(&mut out, 16);
                    out.push(RTYP_TCP_CONNECT);
                    out.push(ATYP_IPV6);
                    push_be16(&mut out, s.port);
                    push_all(&mut out, s.ip.as_slice());
                },
            },
        }
        assert(out@ =~= request_bytes(self@));
        Ok(out)
    }

    /// Reads a request from the front of `b`: the request and how many bytes it took.
    pub fn read(b: &[u8]) -> (r: Result<(Request, usize), Error>)
        ensures
            r matches Ok((q, n)) ==> parse_request(b@) == Ok::<(AddressView, int), ErrorKind>(
                (q@, n as int),
            ),
            r matches Err(e) ==> parse_request(b@) == Err::<(AddressView, int), ErrorKind>(e.kind),
    {
        if b.len() < HEADER_LENGTH {
            return Err(Error::new(ErrorKind::UnexpectedEof));
        }
        let length = read_be32(b, 0);
        let request_type = b[4];
        let address_type = b[5];
        let port = read_be16(b, 6);
        let (address, n) = if address_type == ATYP_DOMAIN {
            if length as usize > MAX_DOMAIN_LENGTH {
                return Err(Error::new(ErrorKind::InvalidData));
            }
            if (b.len() - 8) < length as usize {
                return Err(Error::new(ErrorKind::UnexpectedEof));
            }
            let name = copy_range(b, 8, 8 + length as usize);
            match domain_from_bytes(name, port) {
                Ok(a) => (a, 8 + length as usize),
                Err(e) => {
                    return Err(e);
                },
            }
        } else if address_type == ATYP_IPV4 {
            if b.len() < 12 {
                return Err(Error::new(ErrorKind::UnexpectedEof));
            }
            let ip = [b[8], b[9], b[10], b[11]];
            assert(ip@ =~= b@.subrange(8, 12));
            (Address::IPv4(SocketV4 { ip, port }), 12)
        } else if address_type == ATYP_IPV6 {
            if b.len() < 24 {
                return Err(Error::new(ErrorKind::UnexpectedEof));
            }
            let ip = [
                b[8], b[9], b[10], b[11], b[12], b[13], b[14], b[15],
                b[16], b[17], b[18], b[19], b[20], b[21], b[22], b[23],
            ];
            assert(ip@ =~= b@.subrange(8, 24));
            (Address::IPv6(SocketV6 { ip, port }), 24)
        } else {
            return Err(Error::new(ErrorKind::InvalidData));
        };
        if request_type != RTYP_TCP_CONNECT {
            return Err(Error::new(ErrorKind::InvalidData));
        }
        Ok((Request::TcpConnect(address), n))
    }
}

} // verus!
