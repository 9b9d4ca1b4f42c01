use vstd::prelude::*;

use crate::address::{socket_view, Address, SocketAddress};
use crate::connect::{parse_connect, Connect};
use crate::error::{Error, ErrorKind};
use crate::packet::{packet_bytes, parse_packet, Packet};
use crate::secret::{secrets_match, Secret};

verus! {

/// What the server does with one frame from a datagram channel.
#[derive(Debug, Clone, PartialEq, Eq)]
pub enum DatagramVerdict {
    /// Send the payload to the destination.
    Forward(Address, Vec<u8>),
    /// A malformed frame: drop it and go on.
    Drop(ErrorKind),
    /// A frame with the wrong secret: tear the datagram binding down.
    Close,
}

/// The server side of the tunnel: it checks every header and frame against its secret.
pub struct Server {
    secret: Secret,
}

impl Server {
    pub closed spec fn secret(&self) -> Seq<u8> {
        self.secret@
    }

    pub fn new(secret: Secret) -> (r: Server)
        ensures
            r.secret() == secret@,
    {
        Server { secret }
    }

    /// Reads the header at the front of a reliable stream and checks its secret: the
    /// destination and the header's length, after which the application's bytes begin. A
    /// malformed header gives the error that reading it gives; a secret other than the
    /// server's gives `PermissionDenied`, and no destination.
    pub fn authorize(&self, header: &[u8]) -> (r: Result<(Address, usize), Error>)
        ensures
            match parse_connect(header@) {
                Err(k) => r == Err::<(Address, usize), Error>(Error { kind: k }),
                Ok((s, a, n)) => if s == self.secret() {
                    r matches Ok((x, m)) && x@ == a && m == n
                } else {
                    r == Err::<(Address, usize), Error>(Error { kind: ErrorKind::PermissionDenied })
                },
            },
    {
        match Connect::from_bytes(header) {
            Ok((c, n)) => {
                if secrets_match(&c.secret, &self.secret) {
                    Ok((c.address, n))
                } else {
                    Err(Error::new(ErrorKind::PermissionDenied))
                }
            },
            Err(e) => Err(e),
        }
    }

    /// The fate of one frame from a datagram channel: forwarded when it is well formed and
    /// carries the server's secret; dropped when malformed; the binding closed on a wrong
    /// secret.
    pub fn datagram_verdict(&self, frame: &[u8]) -> (r: DatagramVerdict)
        ensures
            match parse_packet(frame@) {
                Err(k) => r == DatagramVerdict::Drop(k),
                Ok((s, a, data)) => if s == self.secret() {
                    r matches DatagramVerdict::Forward(x, d) && x@ == a && d@ == data
                } else {
                    r == DatagramVerdict::Close
                },
            },
    {
        match Packet::from_bytes(frame) {
            Ok(p) => {
                if secrets_match(&p.secret, &self.secret) {
                    DatagramVerdict::Forward(p.address, p.data)
                } else {
                    DatagramVerdict::Close
                }
            },
            Err(e) => DatagramVerdict::Drop(e.kind),
        }
    }

    /// The frame that carries a reply from `source` back over the datagram channel: the
    /// source goes in the address field, so that the client learns who answered.
    pub fn reply_datagram(&self, source: SocketAddress, data: Vec<u8>) -> (r: Result<
        Vec<u8>,
        Error,
    >)
        ensures
            r is Ok <==> data@.len() <= crate::packet::MAX_PAYLOAD_LENGTH,
            r matches Ok(b) ==> b@ == packet_bytes(
                self.secret(),
                socket_view(source),
                data@,
            ),
            r matches Err(e) ==> e.kind == ErrorKind::InvalidInput,
    {
        Packet::with(self.secret, Address::from_socket(source), data).to_bytes()
    }
}

} // verus!
