use vstd::prelude::*;

use crate::transport::TransportSettings;

verus! {

/// Settings of the server end of the QUIC transport. Durations are in milliseconds.
#[derive(Debug, Clone, PartialEq, Eq)]
pub struct Builder {
    pub listen: String,
    pub tls_cert: String,
    pub tls_key: String,
    pub enable_zero_rtt: bool,
    pub initial_congestion_window: Option<u32>,
    pub max_handshake_duration: Option<u64>,
    pub max_idle_timeout: Option<u64>,
    pub max_keep_alive_period: Option<u64>,
    pub max_open_bidirectional_streams: Option<u64>,
    pub bidirectional_local_data_window: Option<u64>,
    pub bidirectional_remote_data_window: Option<u64>,
}

impl Builder {
    pub fn new(listen: String, tls_cert: String, tls_key: String) -> (r: Builder)
        ensures
            r == (Builder {
                listen,
                tls_cert,
                tls_key,
                enable_zero_rtt: false,
                initial_congestion_window: None,
                max_handshake_duration: None,
                max_idle_timeout: None,
                max_keep_alive_period: None,
                max_open_bidirectional_streams: None,
                bidirectional_local_data_window: None,
                bidirectional_remote_data_window: None,
            }),
    {
        Builder {
            listen,
            tls_cert,
            tls_key,
            enable_zero_rtt: false,
            initial_congestion_window: None,
            max_handshake_duration: None,
            max_idle_timeout: None,
            max_keep_alive_period: None,
            max_open_bidirectional_streams: None,
            bidirectional_local_data_window: None,
            bidirectional_remote_data_window: None,
        }
    }

    pub fn with_tls_cert(self, value: String) -> (r: Builder)
        ensures
            r == (Builder { tls_cert: value, ..self }),
    {
        Builder { tls_cert: value, ..self }
    }

    pub fn with_tls_key(self, value: String) -> (r: Builder)
        ensures
            r == (Builder { tls_key: value, ..self }),
    {
        Builder { tls_key: value, ..self }
    }

    pub fn with_initial_congestion_window(self, value: u32) -> (r: Builder)
        ensures
            r == (Builder { initial_congestion_window: Some(value), ..self }),
    {
        Builder { initial_congestion_window: Some(value), ..self }
    }

    pub fn with_max_handshake_duration(self, value: u64) -> (r: Builder)
        ensures
            r == (Builder { max_handshake_duration: Some(value), ..self }),
    {
        Builder { max_handshake_duration: Some(value), ..self }
    }

    pub fn with_max_idle_timeout(self, value: u64) -> (r: Builder)
        ensures
            r == (Builder { max_idle_timeout: Some(value), ..self }),
    {
        Builder { max_idle_timeout: Some(value), ..self }
    }

    pub fn with_max_keep_alive_period(self, value: u64) -> (r: Builder)
        ensures
            r == (Builder { max_keep_alive_period: Some(value), ..self }),
    {
        Builder { max_keep_alive_period: Some(value), ..self }
    }

    pub fn with_max_open_bidirectional_streams(self, value: u64) -> (r: Builder)
        ensures
            r == (Builder { max_open_bidirectional_streams: Some(value), ..self }),
    {
        Builder { max_open_bidirectional_streams: Some(value), ..self }
    }

    pub fn with_bidirectional_local_data_window(self, value: u64) -> (r: Builder)
        ensures
            r == (Builder { bidirectional_local_data_window: Some(value), ..self }),
    {
        Builder { bidirectional_local_data_window: Some(value), ..self }
    }

    pub fn with_bidirectional_remote_data_window(self, value: u64) -> (r: Builder)
        ensures
            r == (Builder { bidirectional_remote_data_window: Some(value), ..self }),
    {
        Builder { bidirectional_remote_data_window: Some(value), ..self }
    }

    pub fn with_enable_zero_rtt(self, value: bool) -> (r: Builder)
        ensures
            r == (Builder { enable_zero_rtt: value, ..self }),
    {
        Builder { enable_zero_rtt: value, ..self }
    }

    /// The transport limits these settings ask for. The bound on open bidirectional streams
    /// applies to the streams each side may open.
    pub fn transport_settings(&self) -> (r: TransportSettings)
        ensures
            r == (TransportSettings {
                initial_congestion_window: self.initial_congestion_window,
                max_handshake_duration: self.max_handshake_duration,
                max_idle_timeout: self.max_idle_timeout,
                max_keep_alive_period: self.max_keep_alive_period,
                max_open_local_bidirectional_streams: self.max_open_bidirectional_streams,
                max_open_remote_bidirectional_streams: self.max_open_bidirectional_streams,
                bidirectional_local_data_window: self.bidirectional_local_data_window,
                bidirectional_remote_data_window: self.bidirectional_remote_data_window,
            }),
    {
        TransportSettings {
            initial_congestion_window: self.initial_congestion_window,
            max_handshake_duration: self.max_handshake_duration,
            max_idle_timeout: self.max_idle_timeout,
            max_keep_alive_period: self.max_keep_alive_period,
            max_open_local_bidirectional_streams: self.max_open_bidirectional_streams,
            max_open_remote_bidirectional_streams: self.max_open_bidirectional_streams,
            bidirectional_local_data_window: self.bidirectional_local_data_window,
            bidirectional_remote_data_window: self.bidirectional_remote_data_window,
        }
    }
}

} // verus!
