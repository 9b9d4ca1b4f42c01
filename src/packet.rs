use vstd::prelude::*;

use crate::address::{
    address_bytes, lemma_address_round_trip, lemma_address_truncated, parse_address,
    valid_address, Address, AddressView,
};
use crate::error::{Error, ErrorKind};
use crate::octets::{be16, copy_range, from_be16, lemma_be16_inverse, push_all, push_be16, read_be16};
use crate::secret::{secret_at, Secret, SECRET_LENGTH};

verus! {

/// The largest payload that the two-byte length prefix can announce.
pub const MAX_PAYLOAD_LENGTH: usize = 65535;

/// One datagram on the unreliable channel: the secret, the remote address (destination on
/// the way out, source on the way back) and the payload.
#[derive(Debug, Clone, PartialEq, Eq)]
pub struct Packet {
    pub secret: Secret,
    pub address: Address,
    pub data: Vec<u8>,
}

/// The wire form of a datagram: secret, address, payload length (two bytes, big-endian),
/// payload.
pub open spec fn packet_bytes(secret: Seq<u8>, a: AddressView, data: Seq<u8>) -> Seq<u8> {
    secret + address_bytes(a) + be16(data.len() as u16) + data
}

/// A datagram can be written: its address can, and its payload fits the length prefix.
pub open spec fn valid_packet(a: AddressView, data: Seq<u8>) -> bool {
    valid_address(a) && data.len() <= MAX_PAYLOAD_LENGTH
}

/// Reading a whole datagram `b`: secret, address and payload. Fewer than 32 bytes, or a
/// length prefix cut short, give `InvalidData`; the address rules apply after the secret; a
/// payload shorter than announced gives `UnexpectedEof`, bytes after it `InvalidData`.
pub open spec fn parse_packet(b: Seq<u8>) -> Result<(Seq<u8>, AddressView, Seq<u8>), ErrorKind> {
    if b.len() < SECRET_LENGTH {
        Err(ErrorKind::InvalidData)
    } else {
        match parse_address(b.subrange(SECRET_LENGTH as int, b.len() as int)) {
            Err(e) => Err(e),
            Ok((a, n)) => {
                let at = SECRET_LENGTH + n;
                if b.len() < at + 2 {
                    Err(ErrorKind::InvalidData)
                } else {
                    let len = from_be16(b[at], b[at + 1]) as int;
                    if b.len() < at + 2 + len {
                        Err(ErrorKind::UnexpectedEof)
                    } else if b.len() > at + 2 + len {
                        Err(ErrorKind::InvalidData)
                    } else {
                        Ok((b.subrange(0, SECRET_LENGTH as int), a, b.subrange(at + 2, b.len() as int)))
                    }
                }
            },
        }
    }
}

/// A datagram is read back as written: secret, address and payload exactly.
pub proof fn lemma_packet_round_trip(secret: Seq<u8>, a: AddressView, data: Seq<u8>)
    requires
        secret.len() == SECRET_LENGTH,
        valid_packet(a, data),
    ensures
        parse_packet(packet_bytes(secret, a, data)) == Ok::<(Seq<u8>, AddressView, Seq<u8>), ErrorKind>(
            (secret, a, data),
        ),
{
    let b = packet_bytes(secret, a, data);
    let rest = be16(data.len() as u16) + data;
    lemma_address_round_trip(a, rest);
    assert(b.subrange(SECRET_LENGTH as int, b.len() as int) =~= address_bytes(a) + rest);
    assert(b.subrange(0, SECRET_LENGTH as int) =~= secret);
    let at = SECRET_LENGTH + address_bytes(a).len();
    lemma_be16_inverse(data.len() as u16);
    assert(b[at] == be16(data.len() as u16)[0]);
    assert(b[at + 1] == be16(data.len() as u16)[1]);
    assert(b.subrange(at + 2, b.len() as int) =~= data);
}

/// A datagram cut short anywhere is refused: `UnexpectedEof` inside the address or the
/// payload, `InvalidData` inside the secret or the length prefix.
pub proof fn lemma_packet_truncated(secret: Seq<u8>, a: AddressView, data: Seq<u8>, k: int)
    requires
        secret.len() == SECRET_LENGTH,
        valid_packet(a, data),
        0 <= k < packet_bytes(secret, a, data).len(),
    ensures
        parse_packet(packet_bytes(secret, a, data).subrange(0, k)) == Err::<
            (Seq<u8>, AddressView, Seq<u8>),
            ErrorKind,
        >(
            if k < SECRET_LENGTH {
                ErrorKind::InvalidData
            } else if k < SECRET_LENGTH + address_bytes(a).len() {
                ErrorKind::UnexpectedEof
            } else if k < SECRET_LENGTH + address_bytes(a).len() + 2 {
                ErrorKind::InvalidData
            } else {
                ErrorKind::UnexpectedEof
            },
        ),
{
    let full = packet_bytes(secret, a, data);
    let b = full.subrange(0, k);
    let alen = address_bytes(a).len() as int;
    if k >= SECRET_LENGTH {
        let t = b.subrange(SECRET_LENGTH as int, b.len() as int);
        if k < SECRET_LENGTH + alen {
            lemma_address_truncated(a, k - SECRET_LENGTH);
            assert(t =~= address_bytes(a).subrange(0, k - SECRET_LENGTH));
        } else {
            let rest = full.subrange(SECRET_LENGTH + alen, k);
            lemma_address_round_trip(a, rest);
            assert(t =~= address_bytes(a) + rest);
            if k >= SECRET_LENGTH + alen + 2 {
                let at = SECRET_LENGTH + alen;
                lemma_be16_inverse(data.len() as u16);
                assert(b[at] == be16(data.len() as u16)[0]);
                assert(b[at + 1] == be16(data.len() as u16)[1]);
            }
        }
    }
}

/// A datagram with an unknown address tag is malformed data.
pub proof fn lemma_packet_unknown_tag(secret: Seq<u8>, tag: u8, rest: Seq<u8>)
    requires
        secret.len() == SECRET_LENGTH,
        tag != crate::address::ATYP_DOMAIN && tag != crate::address::ATYP_IPV4 && tag
            != crate::address::ATYP_IPV6,
    ensures
        parse_packet(secret + seq![tag] + rest) == Err::<(Seq<u8>, AddressView, Seq<u8>), ErrorKind>(
            ErrorKind::InvalidData,
        ),
{
    let b = secret + seq![tag] + rest;
    crate::address::lemma_address_unknown_tag(tag, rest);
    assert(b.subrange(SECRET_LENGTH as int, b.len() as int) =~= seq![tag] + rest);
}

/// A datagram whose domain name is not UTF-8 is malformed data.
pub proof fn lemma_packet_bad_name(secret: Seq<u8>, name: Seq<u8>, port: u16, rest: Seq<u8>)
    requires
        secret.len() == SECRET_LENGTH,
        name.len() <= crate::address::MAX_DOMAIN_LENGTH,
        !vstd::utf8::valid_utf8(name),
    ensures
        parse_packet(
            secret + seq![crate::address::ATYP_DOMAIN, name.len() as u8] + name + be16(port) + rest,
        ) == Err::<(Seq<u8>, AddressView, Seq<u8>), ErrorKind>(ErrorKind::InvalidData),
{
    let tail = seq![crate::address::ATYP_DOMAIN, name.len() as u8] + name + be16(port) + rest;
    let b = secret + seq![crate::address::ATYP_DOMAIN, name.len() as u8] + name + be16(port)
        + rest;
    crate::address::lemma_address_bad_name(name, port, rest);
    assert(b.subrange(SECRET_LENGTH as int, b.len() as int) =~= tail);
}

impl Packet {
    pub fn with(secret: Secret, address: Address, data: Vec<u8>) -> (r: Packet)
        ensures
            r.secret == secret,
            r.address == address,
            r.data == data,
    {
        Packet { secret, address, data }
    }

    /// The wire form of the datagram; `InvalidInput` when the address cannot be written or
    /// the payload is over 65535 bytes.
    pub fn to_bytes(&self) -> (r: Result<Vec<u8>, Error>)
        ensures
            r is Ok <==> valid_packet(self.address@, self.data@),
            r matches Ok(b) ==> b@ == packet_bytes(self.secret@, self.address@, self.data@),
            r matches Err(e) ==> e.kind == ErrorKind::InvalidInput,
    {
        if self.data.len() > MAX_PAYLOAD_LENGTH {
            return Err(Error::new(ErrorKind::InvalidInput));
        }
        let mut out: Vec<u8> = Vec::new();
        push_all(&mut out, self.secret.as_slice());
        match self.address.write_to(&mut out) {
            Ok(()) => {},
            Err(e) => {
                return Err(e);
            },
        }
        push_be16(&mut out, self.data.len() as u16);
        push_all(&mut out, self.data.as_slice());
        Ok(out)
    }

    /// Reads a whole datagram.
    pub fn from_bytes(b: &[u8]) -> (r: Result<Packet, Error>)
        ensures
            r matches Ok(p) ==> parse_packet(b@) == Ok::<(Seq<u8>, AddressView, Seq<u8>), ErrorKind>(
                (p.secret@, p.address@, p.data@),
            ),
            r matches Err(e) ==> parse_packet(b@) == Err::<(Seq<u8>, AddressView, Seq<u8>), ErrorKind>(
                e.kind,
            ),
    {
        if b.len() < SECRET_LENGTH {
            return Err(Error::new(ErrorKind::InvalidData));
        }
        let secret = secret_at(b);
        let tail = vstd::slice::slice_subrange(b, SECRET_LENGTH, b.len());
        let (address, n) = match Address::from_bytes(tail) {
            Ok(v) => v,
            Err(e) => {
                return Err(e);
            },
        };
        let at = SECRET_LENGTH + n;
        if b.len() < at + 2 {
            return Err(Error::new(ErrorKind::InvalidData));
        }
        let len = read_be16(b, at) as usize;
        if b.len() < at + 2 + len {
            return Err(Error::new(ErrorKind::UnexpectedEof));
        }
        if b.len() > at + 2 + len {
            return Err(Error::new(ErrorKind::InvalidData));
        }
        let data = copy_range(b, at + 2, b.len());
        Ok(Packet { secret, address, data })
    }
}

} // verus!
