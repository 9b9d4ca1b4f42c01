use vstd::prelude::*;
use vstd::utf8::{decode_utf8, encode_utf8, valid_utf8};

use crate::address::{domain_from_bytes, string_bytes, Address, AddressView, SocketAddress};
use crate::error::{Error, ErrorKind};
use crate::octets::copy_range;
use crate::packet::{packet_bytes, parse_packet, valid_packet, Packet};
use crate::secret::Secret;

verus! {

broadcast use vstd::utf8::encode_utf8_valid_utf8, vstd::utf8::encode_utf8_decode_utf8;

/// How long a UDP association may go without traffic, in milliseconds, the wait for its
/// first datagram included.
pub const UDP_IDLE_TIMEOUT_MS: u64 = 10000;

/// An address as the SOCKS5 side carries it: a domain name is raw bytes, not yet known to be
/// UTF-8.
#[derive(Debug, Clone, PartialEq, Eq)]
pub enum SocksAddress {
    Domain(Vec<u8>, u16),
    IPv4(crate::address::SocketV4),
    IPv6(crate::address::SocketV6),
}

/// A SOCKS5 request command (RFC 1928).
#[derive(Debug, Clone, Copy, PartialEq, Eq, Structural)]
pub enum SocksCommand {
    Connect,
    Bind,
    Associate,
}

/// The reply that ends a SOCKS5 request that is not served.
#[derive(Debug, Clone, Copy, PartialEq, Eq, Structural)]
pub enum SocksReply {
    GeneralFailure,
    CommandNotSupported,
}

/// What the endpoint does with a SOCKS5 request.
#[derive(Debug, Clone, PartialEq, Eq)]
pub enum SessionPlan {
    /// Reply success with an unspecified bind address, then relay a stream to the target.
    Connect(Address),
    /// Bind a local UDP socket, reply success with its address, then relay datagrams.
    Associate,
    /// Reply with this code and close.
    Reject(SocksReply),
}

/// The inner address that a SOCKS5 address names, when it names one.
pub open spec fn inner_address(a: SocksAddressView) -> Option<AddressView> {
    match a {
        SocksAddressView::Domain(d, p) => if valid_utf8(d) {
            Some(AddressView::Domain(decode_utf8(d), p))
        } else {
            None
        },
        SocksAddressView::IPv4(ip, p) => Some(AddressView::IPv4(ip, p)),
        SocksAddressView::IPv6(ip, p) => Some(AddressView::IPv6(ip, p)),
    }
}

/// The SOCKS5 form of an inner address: a name becomes its UTF-8 bytes.
pub open spec fn socks_address(a: AddressView) -> SocksAddressView {
    match a {
        AddressView::Domain(d, p) => SocksAddressView::Domain(encode_utf8(d), p),
        AddressView::IPv4(ip, p) => SocksAddressView::IPv4(ip, p),
        AddressView::IPv6(ip, p) => SocksAddressView::IPv6(ip, p),
    }
}

/// What a [`SocksAddress`] denotes.
pub enum SocksAddressView {
    Domain(Seq<u8>, u16),
    IPv4(Seq<u8>, u16),
    IPv6(Seq<u8>, u16),
}

impl View for SocksAddress {
    type V = SocksAddressView;

    open spec fn view(&self) -> SocksAddressView {
        match self {
            SocksAddress::Domain(d, p) => SocksAddressView::Domain(d@, *p),
            SocksAddress::IPv4(s) => SocksAddressView::IPv4(s.ip@, s.port),
            SocksAddress::IPv6(s) => SocksAddressView::IPv6(s.ip@, s.port),
        }
    }
}

/// An inner address survives the trip through its SOCKS5 form.
pub proof fn lemma_socks_round_trip(a: AddressView)
    ensures
        inner_address(socks_address(a)) == Some(a),
{
}

impl SocksAddress {
    /// The inner address; `InvalidData` for a domain name that is not UTF-8.
    pub fn to_inner(self) -> (r: Result<Address, Error>)
        ensures
            r is Ok <==> inner_address(self@) is Some,
            r matches Ok(a) ==> Some(a@) == inner_address(self@),
            r matches Err(e) ==> e.kind == ErrorKind::InvalidData,
    {
        match self {
            SocksAddress::Domain(d, p) => domain_from_bytes(d, p),
            SocksAddress::IPv4(s) => Ok(Address::IPv4(s)),
            SocksAddress::IPv6(s) => Ok(Address::IPv6(s)),
        }
    }

    /// The SOCKS5 form of an inner address.
    pub fn from_inner(a: &Address) -> (r: SocksAddress)
        ensures
            r@ == socks_address(a@),
    {
        match a {
            Address::Domain(d, p) => {
                let b = string_bytes(d);
                let name = copy_range(b, 0, b.len());
                assert(name@ =~= b@);
                SocksAddress::Domain(name, *p)
            },
            Address::IPv4(s) => SocksAddress::IPv4(*s),
            Address::IPv6(s) => SocksAddress::IPv6(*s),
        }
    }
}

/// The plan for a SOCKS5 request: CONNECT goes to its target, UDP ASSOCIATE is served when
/// datagrams are enabled, BIND never is. A CONNECT to a name that is not UTF-8 fails.
pub fn plan_request(command: SocksCommand, target: SocksAddress, datagrams: bool) -> (r:
    SessionPlan)
    ensures
        command == SocksCommand::Connect ==> match inner_address(target@) {
            Some(a) => r matches SessionPlan::Connect(t) && t@ == a,
            None => r == SessionPlan::Reject(SocksReply::GeneralFailure),
        },
        command == SocksCommand::Associate ==> r == if datagrams {
            SessionPlan::Associate
        } else {
            SessionPlan::Reject(SocksReply::CommandNotSupported)
        },
        command == SocksCommand::Bind ==> r == SessionPlan::Reject(SocksReply::CommandNotSupported),
{
    match command {
        SocksCommand::Connect => match target.to_inner() {
            Ok(a) => SessionPlan::Connect(a),
            Err(_) => SessionPlan::Reject(SocksReply::GeneralFailure),
        },
        SocksCommand::Associate => if datagrams {
            SessionPlan::Associate
        } else {
            SessionPlan::Reject(SocksReply::CommandNotSupported)
        },
        SocksCommand::Bind => SessionPlan::Reject(SocksReply::CommandNotSupported),
    }
}

/// A UDP association of the SOCKS5 endpoint. The source of the first datagram that arrives
/// on the local socket becomes its client; datagrams from any other source are dropped, and
/// replies go to that client alone.
#[derive(Debug, Clone, PartialEq, Eq)]
pub struct Association {
    secret: Secret,
    client: Option<SocketAddress>,
}

impl Association {
    pub closed spec fn secret(&self) -> Seq<u8> {
        self.secret@
    }

    pub closed spec fn client(&self) -> Option<SocketAddress> {
        self.client
    }

    /// A fresh association, with no client yet.
    pub fn new(secret: Secret) -> (r: Association)
        ensures
            r.secret() == secret@,
            r.client() is None,
    {
        Association { secret, client: None }
    }

    /// The client that the association is anchored to, once a datagram has arrived.
    pub fn anchored(&self) -> (r: Option<SocketAddress>)
        ensures
            r == self.client(),
    {
        self.client
    }

    /// A datagram from `source` on the local socket, already split into its SOCKS5
    /// destination and payload. The first one anchors the association to its source. From
    /// the anchored client it becomes the frame to send on the datagram channel; from any other
    /// source it is dropped (`Ok(None)`). A destination name that is not UTF-8 gives
    /// `InvalidData`, a destination or payload that does not fit a frame `InvalidInput`.
    pub fn outbound(&mut self, source: SocketAddress, target: SocksAddress, data: Vec<u8>) -> (r:
        Result<Option<Vec<u8>>, Error>)
        ensures
            final(self).secret() == old(self).secret(),
            final(self).client() == Some(
                match old(self).client() {
                    Some(c) => c,
                    None => source,
                },
            ),
            final(self).client() != Some(source) ==> r == Ok::<Option<Vec<u8>>, Error>(None),
            final(self).client() == Some(source) ==> match inner_address(target@) {
                None => r == Err::<Option<Vec<u8>>, Error>(Error { kind: ErrorKind::InvalidData }),
                Some(a) => if valid_packet(a, data@) {
                    r matches Ok(Some(f)) && f@ == packet_bytes(old(self).secret(), a, data@)
                } else {
                    r == Err::<Option<Vec<u8>>, Error>(Error { kind: ErrorKind::InvalidInput })
                },
            },
    {
        let client = match self.client {
            Some(c) => c,
            None => {
                self.client = Some(source);
                source
            },
        };
        if !client.same(&source) {
            return Ok(None);
        }
        let address = match target.to_inner() {
            Ok(a) => a,
            Err(e) => {
                return Err(e);
            },
        };
        let packet = Packet::with(self.secret, address, data);
        match packet.to_bytes() {
            Ok(f) => Ok(Some(f)),
            Err(e) => Err(e),
        }
    }

    /// A frame from the datagram channel: the client to send it to, and the SOCKS5 source
    /// address and payload to wrap it in. Before any client is anchored the frame has nowhere
    /// to go: `ConnectionAborted`. A malformed frame gives the error that reading it gives.
    pub fn inbound(&self, frame: &[u8]) -> (r: Result<(SocketAddress, SocksAddress, Vec<u8>), Error>)
        ensures
            self.client() is None ==> r == Err::<(SocketAddress, SocksAddress, Vec<u8>), Error>(
                Error { kind: ErrorKind::ConnectionAborted },
            ),
            self.client() matches Some(c) ==> match parse_packet(frame@) {
                Ok((_, a, data)) => r matches Ok((to, from, d)) && to == c && from@ == socks_address(a)
                    && d@ == data,
                Err(k) => r == Err::<(SocketAddress, SocksAddress, Vec<u8>), Error>(Error { kind: k }),
            },
    {
        let client = match self.client {
            Some(c) => c,
            None => {
                return Err(Error::new(ErrorKind::ConnectionAborted));
            },
        };
        match Packet::from_bytes(frame) {
            Ok(p) => {
                let from = SocksAddress::from_inner(&p.address);
                Ok((client, from, p.data))
            },
            Err(e) => Err(e),
        }
    }
}

} // verus!
