use vstd::prelude::*;

use crate::address::{
    address_bytes, lemma_address_round_trip, lemma_address_truncated, parse_address,
    valid_address, Address, AddressView,
};
use crate::error::{Error, ErrorKind};
use crate::octets::push_all;
use crate::secret::{secret_at, Secret, SECRET_LENGTH};

verus! {

/// The header that opens every reliable stream: the client's secret and the destination.
#[derive(Debug, Clone, PartialEq, Eq)]
pub struct Connect {
    pub secret: Secret,
    pub address: Address,
}

/// The leading bytes of a header that hold its secret and its address tag. From these the
/// length of an IP header is known and an unknown tag is refused; a domain header needs one
/// byte more, its name length.
pub const HEADER_PREFIX_LENGTH: usize = 33;

/// The wire form of a header: the 32 secret bytes, then the address.
pub open spec fn connect_bytes(secret: Seq<u8>, a: AddressView) -> Seq<u8> {
    secret + address_bytes(a)
}

/// Reading a header from the front of `b`: secret, address and the number of bytes taken.
/// Fewer than 32 bytes give `InvalidData`; after the secret the address rules apply.
pub open spec fn parse_connect(b: Seq<u8>) -> Result<(Seq<u8>, AddressView, int), ErrorKind> {
    if b.len() < SECRET_LENGTH {
        Err(ErrorKind::InvalidData)
    } else {
        match parse_address(b.subrange(SECRET_LENGTH as int, b.len() as int)) {
            Ok((a, n)) => Ok((b.subrange(0, SECRET_LENGTH as int), a, SECRET_LENGTH + n)),
            Err(e) => Err(e),
        }
    }
}

/// Whether `tag` is one of the three address tags.
pub open spec fn known_tag(tag: u8) -> bool {
    tag == crate::address::ATYP_DOMAIN || tag == crate::address::ATYP_IPV4 || tag
        == crate::address::ATYP_IPV6
}

/// The full length of a header whose first bytes are `p`, once the bytes that decide it are
/// there: the tag, and for a domain name also its length byte.
pub open spec fn header_length(p: Seq<u8>) -> Option<int> {
    if p.len() < HEADER_PREFIX_LENGTH {
        None
    } else {
        let atyp = p[32];
        if atyp == crate::address::ATYP_DOMAIN {
            if p.len() < HEADER_PREFIX_LENGTH + 1 {
                None
            } else {
                Some(36 + p[33] as int)
            }
        } else if atyp == crate::address::ATYP_IPV4 {
            Some(39)
        } else if atyp == crate::address::ATYP_IPV6 {
            Some(51)
        } else {
            None
        }
    }
}

/// A header is read back as written, whatever bytes follow it on the stream.
pub proof fn lemma_connect_round_trip(secret: Seq<u8>, a: AddressView, rest: Seq<u8>)
    requires
        secret.len() == SECRET_LENGTH,
        valid_address(a),
    ensures
        parse_connect(connect_bytes(secret, a) + rest) == Ok::<(Seq<u8>, AddressView, int), ErrorKind>(
            (secret, a, connect_bytes(secret, a).len() as int),
        ),
{
    let b = connect_bytes(secret, a) + rest;
    lemma_address_round_trip(a, rest);
    assert(b.subrange(SECRET_LENGTH as int, b.len() as int) =~= address_bytes(a) + rest);
    assert(b.subrange(0, SECRET_LENGTH as int) =~= secret);
}

/// A header cut short anywhere is refused, with `InvalidData` inside the secret and
/// `UnexpectedEof` inside the address.
pub proof fn lemma_connect_truncated(secret: Seq<u8>, a: AddressView, k: int)
    requires
        secret.len() == SECRET_LENGTH,
        valid_address(a),
        0 <= k < connect_bytes(secret, a).len(),
    ensures
        k < SECRET_LENGTH ==> parse_connect(connect_bytes(secret, a).subrange(0, k)) == Err::<
            (Seq<u8>, AddressView, int),
            ErrorKind,
        >(ErrorKind::InvalidData),
        k >= SECRET_LENGTH ==> parse_connect(connect_bytes(secret, a).subrange(0, k)) == Err::<
            (Seq<u8>, AddressView, int),
            ErrorKind,
        >(ErrorKind::UnexpectedEof),
{
    let b = connect_bytes(secret, a).subrange(0, k);
    if k >= SECRET_LENGTH {
        lemma_address_truncated(a, k - SECRET_LENGTH);
        assert(b.subrange(SECRET_LENGTH as int, b.len() as int) =~= address_bytes(a).subrange(
            0,
            k - SECRET_LENGTH,
        ));
    }
}

/// A header with an unknown address tag is malformed data.
pub proof fn lemma_connect_unknown_tag(secret: Seq<u8>, tag: u8, rest: Seq<u8>)
    requires
        secret.len() == SECRET_LENGTH,
        tag != crate::address::ATYP_DOMAIN && tag != crate::address::ATYP_IPV4 && tag
            != crate::address::ATYP_IPV6,
    ensures
        parse_connect(secret + seq![tag] + rest) == Err::<(Seq<u8>, AddressView, int), ErrorKind>(
            ErrorKind::InvalidData,
        ),
{
    let b = secret + seq![tag] + rest;
    crate::address::lemma_address_unknown_tag(tag, rest);
    assert(b.subrange(SECRET_LENGTH as int, b.len() as int) =~= seq![tag] + rest);
}

/// A header whose domain name is not UTF-8 is malformed data.
pub proof fn lemma_connect_bad_name(secret: Seq<u8>, name: Seq<u8>, port: u16, rest: Seq<u8>)
    requires
        secret.len() == SECRET_LENGTH,
        name.len() <= crate::address::MAX_DOMAIN_LENGTH,
        !vstd::utf8::valid_utf8(name),
    ensures
        parse_connect(
            secret + seq![crate::address::ATYP_DOMAIN, name.len() as u8] + name
                + crate::octets::be16(port) + rest,
        ) == Err::<(Seq<u8>, AddressView, int), ErrorKind>(ErrorKind::InvalidData),
{
    let tail = seq![crate::address::ATYP_DOMAIN, name.len() as u8] + name + crate::octets::be16(
        port,
    ) + rest;
    let b = secret + seq![crate::address::ATYP_DOMAIN, name.len() as u8] + name
        + crate::octets::be16(port) + rest;
    crate::address::lemma_address_bad_name(name, port, rest);
    assert(b.subrange(SECRET_LENGTH as int, b.len() as int) =~= tail);
}

impl Connect {
    pub fn with(secret: Secret, address: Address) -> (r: Connect)
        ensures
            r.secret == secret,
            r.address == address,
    {
        Connect { secret, address }
    }

    /// The wire form of the header; `InvalidInput` when the address cannot be written.
    pub fn to_bytes(&self) -> (r: Result<Vec<u8>, Error>)
        ensures
            r is Ok <==> valid_address(self.address@),
            r matches Ok(b) ==> b@ == connect_bytes(self.secret@, self.address@),
            r matches Err(e) ==> e.kind == ErrorKind::InvalidInput,
    {
        let mut out: Vec<u8> = Vec::new();
        push_all(&mut out, self.secret.as_slice());
        match self.address.write_to(&mut out) {
            Ok(()) => Ok(out),
            Err(e) => Err(e),
        }
    }

    /// Reads a header from the front of `b`: the header and how many bytes it took.
    /// What follows belongs to the application.
    pub fn from_bytes(b: &[u8]) -> (r: Result<(Connect, usize), Error>)
        ensures
            r matches Ok((c, n)) ==> parse_connect(b@) == Ok::<(Seq<u8>, AddressView, int), ErrorKind>(
                (c.secret@, c.address@, n as int),
            ),
            r matches Err(e) ==> parse_connect(b@) == Err::<(Seq<u8>, AddressView, int), ErrorKind>(e.kind),
    {
        if b.len() < SECRET_LENGTH {
            return Err(Error::new(ErrorKind::InvalidData));
        }
        let secret: Secret = secret_at(b);
        let tail = vstd::slice::slice_subrange(b, SECRET_LENGTH, b.len());
        match Address::from_bytes(tail) {
            Ok((address, n)) => Ok((Connect { secret, address }, SECRET_LENGTH + n)),
            Err(e) => Err(e),
        }
    }

    /// How many bytes the header that starts with `prefix` takes in all. Reading that many
    /// bytes from a stream, and no more, gives [`Connect::from_bytes`] a whole header and
    /// leaves the application's bytes unread. The tag is looked at first: with 33 bytes an
    /// unknown tag gives `InvalidData` and an IP header's length is known; a domain header
    /// needs its 34th byte. Too few bytes to decide: `UnexpectedEof`.
    pub fn header_len(prefix: &[u8]) -> (r: Result<usize, Error>)
        ensures
            prefix@.len() < HEADER_PREFIX_LENGTH ==> r == Err::<usize, Error>(
                Error { kind: ErrorKind::UnexpectedEof },
            ),
            prefix@.len() >= HEADER_PREFIX_LENGTH && !known_tag(prefix@[32]) ==> r == Err::<
                usize,
                Error,
            >(Error { kind: ErrorKind::InvalidData }),
            prefix@.len() == HEADER_PREFIX_LENGTH && prefix@[32] == crate::address::ATYP_DOMAIN
                ==> r == Err::<usize, Error>(Error { kind: ErrorKind::UnexpectedEof }),
            r is Ok <==> header_length(prefix@) is Some,
            r matches Ok(n) ==> n == header_length(prefix@)->0 && n > HEADER_PREFIX_LENGTH + 1,
            r matches Ok(n) ==> forall|b: Seq<u8>|
                #![trigger parse_connect(b), b.subrange(0, prefix@.len() as int)]
                b.len() >= n && b.len() >= prefix@.len() && b.subrange(0, prefix@.len() as int)
                    == prefix@ ==> (parse_connect(b) is Ok ==> parse_connect(b)->Ok_0.2 == n)
                    && parse_connect(b) != Err::<(Seq<u8>, AddressView, int), ErrorKind>(
                    ErrorKind::UnexpectedEof,
                ),
    {
        if prefix.len() < HEADER_PREFIX_LENGTH {
            return Err(Error::new(ErrorKind::UnexpectedEof));
        }
        let atyp = prefix[32];
        let n: usize = if atyp == crate::address::ATYP_DOMAIN {
            if prefix.len() < HEADER_PREFIX_LENGTH + 1 {
                return Err(Error::new(ErrorKind::UnexpectedEof));
            }
            36 + prefix[33] as usize
        } else if atyp == crate::address::ATYP_IPV4 {
            39
        } else if atyp == crate::address::ATYP_IPV6 {
            51
        } else {
            return Err(Error::new(ErrorKind::InvalidData));
        };
        assert forall|b: Seq<u8>|
            #![trigger parse_connect(b), b.subrange(0, prefix@.len() as int)]
            b.len() >= n && b.len() >= prefix@.len() && b.subrange(0, prefix@.len() as int)
                == prefix@ implies (parse_connect(b) is Ok ==> parse_connect(b)->Ok_0.2 == n)
            && parse_connect(b) != Err::<(Seq<u8>, AddressView, int), ErrorKind>(
            ErrorKind::UnexpectedEof,
        ) by {
            assert(b[32] == b.subrange(0, prefix@.len() as int)[32]);
            if atyp == crate::address::ATYP_DOMAIN {
                assert(b[33] == b.subrange(0, prefix@.len() as int)[33]);
            }
            let t = b.subrange(SECRET_LENGTH as int, b.len() as int);
            assert(t[0] == b[32]);
            assert(t[1] == b[33]);
        }
        Ok(n)
    }
}

} // verus!
