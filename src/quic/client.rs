use vstd::prelude::*;
use vstd::utf8::encode_utf8;

use crate::address::SocketAddress;
use crate::error::{Error, ErrorKind};
use crate::transport::TransportSettings;

verus! {

broadcast use vstd::utf8::encode_utf8_valid_utf8;

/// Settings of the client end of the QUIC transport. Durations are in milliseconds.
#[derive(Debug, Clone, PartialEq, Eq)]
pub struct Builder {
    pub bind: Option<String>,
    pub server_name: Option<String>,
    pub server_address: String,
    pub tls_cert: Option<String>,
    pub tls_skip: bool,
    pub enable_zero_rtt: bool,
    pub enable_connection_multiplexing: bool,
    pub initial_congestion_window: Option<u32>,
    pub max_handshake_duration: Option<u64>,
    pub max_idle_timeout: Option<u64>,
    pub max_keep_alive_period: Option<u64>,
    pub max_open_bidirectional_streams: Option<u64>,
    pub bidirectional_local_data_window: Option<u64>,
    pub bidirectional_remote_data_window: Option<u64>,
}

/// Where the client's QUIC endpoint binds.
#[derive(Debug, Clone, PartialEq, Eq)]
pub enum BindAddress {
    /// The address that was set.
    Configured(String),
    /// `0.0.0.0`, any port.
    AnyV4,
    /// `::`, any port.
    AnyV6,
}

/// The index of the last byte `c` in `b`, if any.
pub open spec fn last_index_of(b: Seq<u8>, c: u8) -> Option<int>
    decreases b.len(),
{
    if b.len() == 0 {
        None
    } else if b.last() == c {
        Some(b.len() - 1)
    } else {
        last_index_of(b.drop_last(), c)
    }
}

proof fn lemma_last_index_of(b: Seq<u8>, c: u8, i: int)
    requires
        0 <= i <= b.len(),
        forall|k: int| i <= k < b.len() ==> b[k] != c,
    ensures
        last_index_of(b, c) == last_index_of(b.subrange(0, i), c),
    decreases b.len() - i,
{
    if i < b.len() {
        assert(b.drop_last() =~= b.subrange(0, b.len() - 1));
        lemma_last_index_of(b.drop_last(), c, i);
        assert(b.drop_last().subrange(0, i) =~= b.subrange(0, i));
    } else {
        assert(b.subrange(0, i) =~= b);
    }
}

proof fn lemma_last_index_found(b: Seq<u8>, c: u8, i: int)
    requires
        0 <= i < b.len(),
        b[i] == c,
    ensures
        last_index_of(b.subrange(0, i + 1), c) == Some(i),
{
}

/// The position of the last `:` in `s`, counted in bytes.
fn rfind_colon(s: &str) -> (r: Option<usize>)
    ensures
        r matches Some(i) ==> last_index_of(encode_utf8(s@), 58u8) == Some(i as int)
            && i < encode_utf8(s@).len() && encode_utf8(s@)[i as int] == 58u8,
        r is None ==> last_index_of(encode_utf8(s@), 58u8) is None,
{
    let b = s.as_bytes();
    let mut i: usize = b.len();
    while i > 0
        invariant
            i <= b@.len(),
            b@ == encode_utf8(s@),
            forall|k: int| i <= k < b@.len() ==> b@[k] != 58u8,
        decreases i,
    {
        if b[i - 1] == 58u8 {
            proof {
                lemma_last_index_of(b@, 58u8, i as int);
                lemma_last_index_found(b@, 58u8, i - 1);
            }
            return Some(i - 1);
        }
        i = i - 1;
    }
    proof {
        lemma_last_index_of(b@, 58u8, 0);
    }
    None
}

impl Builder {
    pub fn new(server_address: String) -> (r: Builder)
        ensures
            r == (Builder {
                bind: None,
                server_name: None,
                server_address,
                tls_cert: None,
                tls_skip: false,
                enable_zero_rtt: false,
                enable_connection_multiplexing: false,
                initial_congestion_window: None,
                max_handshake_duration: None,
                max_idle_timeout: None,
                max_keep_alive_period: None,
                max_open_bidirectional_streams: None,
                bidirectional_local_data_window: None,
                bidirectional_remote_data_window: None,
            }),
    {
        Builder {
            bind: None,
            server_name: None,
            server_address,
            tls_cert: None,
            tls_skip: false,
            enable_zero_rtt: false,
            enable_connection_multiplexing: false,
            initial_congestion_window: None,
            max_handshake_duration: None,
            max_idle_timeout: None,
            max_keep_alive_period: None,
            max_open_bidirectional_streams: None,
            bidirectional_local_data_window: None,
            bidirectional_remote_data_window: None,
        }
    }

    /// The name the server is expected to present in TLS: the one set, else the host part
    /// of the server address (all before its last `:`). An address without `:` and no name
    /// set: `InvalidInput`.
    pub fn server_name(&self) -> (r: Result<String, Error>)
        ensures
            self.server_name matches Some(n) ==> r == Ok::<String, Error>(n),
            self.server_name is None ==> match last_index_of(
                encode_utf8(self.server_address@),
                58u8,
            ) {
                Some(i) => r matches Ok(n) && 0 <= i < encode_utf8(self.server_address@).len()
                    && encode_utf8(n@) == encode_utf8(self.server_address@).subrange(0, i),
                None => r == Err::<String, Error>(Error { kind: ErrorKind::InvalidInput }),
            },
    {
        match &self.server_name {
            Some(n) => Ok(n.clone()),
            None => {
                let s = self.server_address.as_str();
                match rfind_colon(s) {
                    Some(i) => {
                        proof {
                            vstd::utf8::is_char_boundary_iff_not_is_continuation_byte(
                                encode_utf8(s@),
                                i as int,
                            );
                        }
                        let (host, _) = s.split_at(i);
                        Ok(host.to_owned())
                    },
                    None => Err(Error::new(ErrorKind::InvalidInput)),
                }
            },
        }
    }

    pub fn with_server_name(self, value: String) -> (r: Builder)
        ensures
            r == (Builder { server_name: Some(value), ..self }),
    {
        Builder { server_name: Some(value), ..self }
    }

    pub fn with_bind(self, value: String) -> (r: Builder)
        ensures
            r == (Builder { bind: Some(value), ..self }),
    {
        Builder { bind: Some(value), ..self }
    }

    pub fn with_tls_cert(self, value: String) -> (r: Builder)
        ensures
            r == (Builder { tls_cert: Some(value), ..self }),
    {
        Builder { tls_cert: Some(value), ..self }
    }

    pub fn with_tls_skip(self, value: bool) -> (r: Builder)
        ensures
            r == (Builder { tls_skip: value, ..self }),
    {
        Builder { tls_skip: value, ..self }
    }

    pub fn with_enable_connection_multiplexing(self, value: bool) -> (r: Builder)
        ensures
            r == (Builder { enable_connection_multiplexing: value, ..self }),
    {
        Builder { enable_connection_multiplexing: value, ..self }
    }

    pub fn with_initial_congestion_window(self, value: u32) -> (r: Builder)
        ensures
            r == (Builder { initial_congestion_window: Some(value), ..self }),
    {
        Builder { initial_congestion_window: Some(value), ..self }
    }

    pub fn with_max_handshake_duration(self, value: u64) -> (r: Builder)
        ensures
            r == (Builder { max_handshake_duration: Some(value), ..self }),
    {
        Builder { max_handshake_duration: Some(value), ..self }
    }

    pub fn with_max_idle_timeout(self, value: u64) -> (r: Builder)
        ensures
            r == (Builder { max_idle_timeout: Some(value), ..self }),
    {
        Builder { max_idle_timeout: Some(value), ..self }
    }

    pub fn with_max_keep_alive_period(self, value: u64) -> (r: Builder)
        ensures
            r == (Builder { max_keep_alive_period: Some(value), ..self }),
    {
        Builder { max_keep_alive_period: Some(value), ..self }
    }

    pub fn with_max_open_bidirectional_streams(self, value: u64) -> (r: Builder)
        ensures
            r == (Builder { max_open_bidirectional_streams: Some(value), ..self }),
    {
        Builder { max_open_bidirectional_streams: Some(value), ..self }
    }

    pub fn with_bidirectional_local_data_window(self, value: u64) -> (r: Builder)
        ensures
            r == (Builder { bidirectional_local_data_window: Some(value), ..self }),
    {
        Builder { bidirectional_local_data_window: Some(value), ..self }
    }

    pub fn with_bidirectional_remote_data_window(self, value: u64) -> (r: Builder)
        ensures
            r == (Builder { bidirectional_remote_data_window: Some(value), ..self }),
    {
        Builder { bidirectional_remote_data_window: Some(value), ..self }
    }

    pub fn with_enable_zero_rtt(self, value: bool) -> (r: Builder)
        ensures
            r == (Builder { enable_zero_rtt: value, ..self }),
    {
        Builder { enable_zero_rtt: value, ..self }
    }

    /// The transport limits these settings ask for. The bound on open bidirectional streams
    /// applies to the streams each side may open.
    pub fn transport_settings(&self) -> (r: TransportSettings)
        ensures
            r == (TransportSettings {
                initial_congestion_window: self.initial_congestion_window,
                max_handshake_duration: self.max_handshake_duration,
                max_idle_timeout: self.max_idle_timeout,
                max_keep_alive_period: self.max_keep_alive_period,
                max_open_local_bidirectional_streams: self.max_open_bidirectional_streams,
                max_open_remote_bidirectional_streams: self.max_open_bidirectional_streams,
                bidirectional_local_data_window: self.bidirectional_local_data_window,
                bidirectional_remote_data_window: self.bidirectional_remote_data_window,
            }),
    {
        TransportSettings {
            initial_congestion_window: self.initial_congestion_window,
            max_handshake_duration: self.max_handshake_duration,
            max_idle_timeout: self.max_idle_timeout,
            max_keep_alive_period: self.max_keep_alive_period,
            max_open_local_bidirectional_streams: self.max_open_bidirectional_streams,
            max_open_remote_bidirectional_streams: self.max_open_bidirectional_streams,
            bidirectional_local_data_window: self.bidirectional_local_data_window,
            bidirectional_remote_data_window: self.bidirectional_remote_data_window,
        }
    }

    /// Where the client's QUIC endpoint binds: the address set, else the unspecified address
    /// of the server's family with any port.
    pub fn bind_address(&self, server: SocketAddress) -> (r: BindAddress)
        ensures
            self.bind matches Some(b) ==> r == BindAddress::Configured(b),
            self.bind is None ==> r == if server is V4 {
                BindAddress::AnyV4
            } else {
                BindAddress::AnyV6
            },
    {
        match &self.bind {
            Some(b) => BindAddress::Configured(b.clone()),
            None => match server {
                SocketAddress::V4(_) => BindAddress::AnyV4,
                SocketAddress::V6(_) => BindAddress::AnyV6,
            },
        }
    }
}

} // verus!
