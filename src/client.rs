use vstd::prelude::*;

use crate::address::{valid_address, Address};
use crate::connect::{connect_bytes, Connect};
use crate::error::{Error, ErrorKind};
use crate::packet::{packet_bytes, parse_packet, valid_packet, Packet};
use crate::secret::Secret;

verus! {

/// How long the first request for a reliable stream may wait, in milliseconds.
pub const CONNECT_TIMEOUT_MS: u64 = 5000;
/// How many times a timed-out request for a reliable stream is tried again.
pub const MAX_CONNECT_RETRIES: u32 = 3;
/// The pause between two tries, in milliseconds.
pub const CONNECT_RETRY_PAUSE_MS: u64 = 100;

/// `2` to the power `n`.
pub open spec fn pow2(n: nat) -> nat
    decreases n,
{
    if n == 0 {
        1
    } else {
        2 * pow2((n - 1) as nat)
    }
}

/// How long try number `attempt` (0 for the first) of a request for a reliable stream may
/// wait: 5 s, doubled on each retry; `None` once the three retries are spent and the session
/// is given up.
pub fn connect_timeout_ms(attempt: u32) -> (r: Option<u64>)
    ensures
        attempt <= MAX_CONNECT_RETRIES ==> r == Some((CONNECT_TIMEOUT_MS * pow2(attempt as nat)) as u64),
        attempt > MAX_CONNECT_RETRIES ==> r is None,
{
    if attempt > MAX_CONNECT_RETRIES {
        return None;
    }
    let mut t: u64 = CONNECT_TIMEOUT_MS;
    let mut i: u32 = 0;
    while i < attempt
        invariant
            i <= attempt <= MAX_CONNECT_RETRIES,
            t == CONNECT_TIMEOUT_MS * pow2(i as nat),
        decreases attempt - i,
    {
        assert(pow2((i + 1) as nat) == 2 * pow2(i as nat));
        assert(t * 2 <= 40000) by {
            assert(pow2(i as nat) <= 4) by {
                assert(pow2(0) == 1);
                assert(pow2(1) == 2);
                assert(pow2(2) == 4);
            }
        }
        t = t * 2;
        i = i + 1;
    }
    Some(t)
}

/// The client side of the tunnel: it frames what goes into the transport with its secret.
pub struct Client {
    secret: Secret,
}

impl Client {
    pub closed spec fn secret(&self) -> Seq<u8> {
        self.secret@
    }

    pub fn new(secret: Secret) -> (r: Client)
        ensures
            r.secret() == secret@,
    {
        Client { secret }
    }

    /// The bytes that open a fresh reliable stream to `address`: the header with this
    /// client's secret. Application bytes follow them unframed.
    pub fn connect_header(&self, address: Address) -> (r: Result<Vec<u8>, Error>)
        ensures
            r is Ok <==> valid_address(address@),
            r matches Ok(b) ==> b@ == connect_bytes(self.secret(), address@),
            r matches Err(e) ==> e.kind == ErrorKind::InvalidInput,
    {
        Connect::with(self.secret, address).to_bytes()
    }

    /// The frame that carries `data` to `address` over the datagram channel.
    pub fn datagram(&self, address: Address, data: Vec<u8>) -> (r: Result<Vec<u8>, Error>)
        ensures
            r is Ok <==> valid_packet(address@, data@),
            r matches Ok(b) ==> b@ == packet_bytes(self.secret(), address@, data@),
            r matches Err(e) ==> e.kind == ErrorKind::InvalidInput,
    {
        Packet::with(self.secret, address, data).to_bytes()
    }

    /// The remote source and payload of a frame received on the datagram channel.
    pub fn receive(frame: &[u8]) -> (r: Result<(Address, Vec<u8>), Error>)
        ensures
            match parse_packet(frame@) {
                Ok((_, a, data)) => r matches Ok((x, d)) && x@ == a && d@ == data,
                Err(k) => r == Err::<(Address, Vec<u8>), Error>(Error { kind: k }),
            },
    {
        match Packet::from_bytes(frame) {
            Ok(p) => Ok((p.address, p.data)),
            Err(e) => Err(e),
        }
    }
}

} // verus!
