use ombrac::address::{Address, SocketAddress, SocketV4};
use ombrac::client::Client;
use ombrac::error::ErrorKind;
use ombrac::address::SocketV6;
use ombrac::quic::client::{BindAddress, Builder as ClientBuilder};
use ombrac::quic::server::Builder as ServerBuilder;
use ombrac::secret::derive_secret;
use ombrac::server::{DatagramVerdict, Server};
use ombrac::socks::{plan_request, Association, SessionPlan, SocksAddress, SocksCommand, SocksReply};
use ombrac::transport::{link_step, stream_queue_depth, LinkAction, LinkEvent, LinkState, TransportSettings};

#[test]
fn socks_commands_are_planned() {
    let target = SocksAddress::Domain(b"example.test".to_vec(), 80);
    assert_eq!(
        plan_request(SocksCommand::Connect, target.clone(), true),
        SessionPlan::Connect(Address::Domain("example.test".to_string(), 80))
    );
    assert_eq!(plan_request(SocksCommand::Associate, target.clone(), true), SessionPlan::Associate);
    assert_eq!(
        plan_request(SocksCommand::Associate, target.clone(), false),
        SessionPlan::Reject(SocksReply::CommandNotSupported)
    );
    assert_eq!(
        plan_request(SocksCommand::Bind, target, true),
        SessionPlan::Reject(SocksReply::CommandNotSupported)
    );
    assert_eq!(
        plan_request(SocksCommand::Connect, SocksAddress::Domain(vec![0xFF], 80), true),
        SessionPlan::Reject(SocksReply::GeneralFailure)
    );
}

#[test]
fn udp_associate_round_trip() {
    let secret = derive_secret("hunter2");
    let server = Server::new(secret);
    let mut association = Association::new(secret);
    let app = SocketAddress::V4(SocketV4::new([127, 0, 0, 1], 40000));
    let echo = SocketV4::new([127, 0, 0, 1], 9002);
    let frame = association
        .outbound(app, SocksAddress::IPv4(echo), b"ping".to_vec())
        .unwrap()
        .unwrap();
    assert_eq!(association.anchored(), Some(app));
    match server.datagram_verdict(&frame) {
        DatagramVerdict::Forward(to, data) => {
            assert_eq!(to, Address::IPv4(echo));
            assert_eq!(data, b"ping".to_vec());
        }
        other => panic!("unexpected verdict {:?}", other),
    }
    let reply = server.reply_datagram(SocketAddress::V4(echo), b"pong".to_vec()).unwrap();
    let (to, from, data) = association.inbound(&reply).unwrap();
    assert_eq!(to, app);
    assert_eq!(from, SocksAddress::IPv4(echo));
    assert_eq!(data, b"pong".to_vec());
}

#[test]
fn udp_associate_drops_other_sources() {
    let secret = [5u8; 32];
    let mut association = Association::new(secret);
    assert_eq!(association.inbound(&[0u8; 40]).unwrap_err().kind(), ErrorKind::ConnectionAborted);
    let first = SocketAddress::V4(SocketV4::new([127, 0, 0, 1], 1000));
    let other = SocketAddress::V4(SocketV4::new([127, 0, 0, 1], 1001));
    let target = SocksAddress::Domain(b"example.test".to_vec(), 53);
    assert!(association.outbound(first, target.clone(), b"a".to_vec()).unwrap().is_some());
    assert_eq!(association.outbound(other, target.clone(), b"b".to_vec()).unwrap(), None);
    assert_eq!(association.anchored(), Some(first));
    assert_eq!(
        association.outbound(first, SocksAddress::Domain(vec![0xC3], 53), b"c".to_vec()).unwrap_err().kind(),
        ErrorKind::InvalidData
    );
    let frame = association.outbound(first, target, b"d".to_vec()).unwrap().unwrap();
    let (to, data) = Client::receive(&frame).unwrap();
    assert_eq!(to, Address::Domain("example.test".to_string(), 53));
    assert_eq!(data, b"d".to_vec());
}

#[test]
fn socks_address_conversions() {
    let inner = Address::Domain("测试.com".to_string(), 443);
    let socks = SocksAddress::from_inner(&inner);
    assert_eq!(socks, SocksAddress::Domain("测试.com".as_bytes().to_vec(), 443));
    assert_eq!(socks.to_inner().unwrap(), inner);
}

#[test]
fn link_reconnects_and_stops_only_without_consumer() {
    let (s, a) = link_step(true, true, LinkState::Connecting, LinkEvent::DialFailed);
    assert_eq!(s, LinkState::Connecting);
    assert_eq!(a, LinkAction::DialAfter(100));
    let (s, a) = link_step(true, true, s, LinkEvent::Dialed);
    assert_eq!(s, LinkState::Open { pump_started: true });
    assert_eq!(a, LinkAction::OpenStream { start_pump: true });
    let (s, a) = link_step(true, true, s, LinkEvent::StreamOpened);
    assert_eq!(a, LinkAction::Deliver);
    let (s, a) = link_step(true, true, s, LinkEvent::StreamDelivered);
    assert_eq!(s, LinkState::Open { pump_started: true });
    assert_eq!(a, LinkAction::OpenStream { start_pump: false });
    let (s, a) = link_step(true, true, s, LinkEvent::ConnectionLost);
    assert_eq!((s, a), (LinkState::Draining, LinkAction::FailPending));
    let (s, a) = link_step(true, true, s, LinkEvent::Drained);
    assert_eq!((s, a), (LinkState::Connecting, LinkAction::DialAfter(100)));
    let (s, a) = link_step(true, true, s, LinkEvent::ConsumerGone);
    assert_eq!((s, a), (LinkState::Closed, LinkAction::Stop));
    assert_eq!(link_step(true, true, s, LinkEvent::Dialed), (LinkState::Closed, LinkAction::Stop));
}

#[test]
fn serial_mode_dials_per_stream() {
    let (s, a) = link_step(false, false, LinkState::Connecting, LinkEvent::Dialed);
    assert_eq!((s, a), (LinkState::Open { pump_started: false }, LinkAction::OpenStream { start_pump: false }));
    let (s, _) = link_step(false, false, s, LinkEvent::StreamOpened);
    assert_eq!(link_step(false, false, s, LinkEvent::StreamDelivered), (LinkState::Connecting, LinkAction::Dial));
    assert_eq!(stream_queue_depth(false), 1);
    assert!(stream_queue_depth(true) > 1);
}

#[test]
fn client_builder_settings() {
    let b = ClientBuilder::new("example.test:443".to_string())
        .with_bind("0.0.0.0:0".to_string())
        .with_tls_cert("ca.pem".to_string())
        .with_tls_skip(true)
        .with_enable_zero_rtt(true)
        .with_enable_connection_multiplexing(true)
        .with_initial_congestion_window(32)
        .with_max_handshake_duration(3000)
        .with_max_idle_timeout(30000)
        .with_max_keep_alive_period(8000)
        .with_max_open_bidirectional_streams(100)
        .with_bidirectional_local_data_window(1 << 20)
        .with_bidirectional_remote_data_window(1 << 21);
    assert_eq!(b.bind, Some("0.0.0.0:0".to_string()));
    assert_eq!(b.tls_cert, Some("ca.pem".to_string()));
    assert!(b.tls_skip && b.enable_zero_rtt && b.enable_connection_multiplexing);
    assert_eq!(b.initial_congestion_window, Some(32));
    assert_eq!(b.max_handshake_duration, Some(3000));
    assert_eq!(b.max_idle_timeout, Some(30000));
    assert_eq!(b.max_keep_alive_period, Some(8000));
    assert_eq!(b.max_open_bidirectional_streams, Some(100));
    assert_eq!(b.bidirectional_local_data_window, Some(1 << 20));
    assert_eq!(b.bidirectional_remote_data_window, Some(1 << 21));
    assert_eq!(b.server_name().unwrap(), "example.test");
    let named = b.with_server_name("localhost".to_string());
    assert_eq!(named.server_name().unwrap(), "localhost");
}

#[test]
fn client_builder_server_name_from_address() {
    assert_eq!(ClientBuilder::new("[::1]:443".to_string()).server_name().unwrap(), "[::1]");
    assert_eq!(ClientBuilder::new("a:b:1".to_string()).server_name().unwrap(), "a:b");
    assert_eq!(ClientBuilder::new("测试:1".to_string()).server_name().unwrap(), "测试");
    assert_eq!(
        ClientBuilder::new("localhost".to_string()).server_name().unwrap_err().kind(),
        ErrorKind::InvalidInput
    );
}

#[test]
fn server_builder_settings() {
    let b = ServerBuilder::new("0.0.0.0:443".to_string(), "cert.pem".to_string(), "key.pem".to_string());
    assert_eq!(b.listen, "0.0.0.0:443");
    assert_eq!(b.max_idle_timeout, None);
    let b = b
        .with_tls_cert("c.der".to_string())
        .with_tls_key("k.der".to_string())
        .with_enable_zero_rtt(true)
        .with_initial_congestion_window(10)
        .with_max_handshake_duration(1)
        .with_max_idle_timeout(2)
        .with_max_keep_alive_period(3)
        .with_max_open_bidirectional_streams(4)
        .with_bidirectional_local_data_window(5)
        .with_bidirectional_remote_data_window(6);
    assert_eq!((b.tls_cert.as_str(), b.tls_key.as_str()), ("c.der", "k.der"));
    assert!(b.enable_zero_rtt);
    assert_eq!(b.initial_congestion_window, Some(10));
    assert_eq!(
        (b.max_handshake_duration, b.max_idle_timeout, b.max_keep_alive_period),
        (Some(1), Some(2), Some(3))
    );
    assert_eq!(b.max_open_bidirectional_streams, Some(4));
    assert_eq!((b.bidirectional_local_data_window, b.bidirectional_remote_data_window), (Some(5), Some(6)));
}

#[test]
fn transport_settings_follow_builder() {
    let b = ClientBuilder::new("h:1".to_string())
        .with_max_open_bidirectional_streams(7)
        .with_max_idle_timeout(9)
        .with_initial_congestion_window(3);
    assert_eq!(
        b.transport_settings(),
        TransportSettings {
            initial_congestion_window: Some(3),
            max_handshake_duration: None,
            max_idle_timeout: Some(9),
            max_keep_alive_period: None,
            max_open_local_bidirectional_streams: Some(7),
            max_open_remote_bidirectional_streams: Some(7),
            bidirectional_local_data_window: None,
            bidirectional_remote_data_window: None,
        }
    );
    let s = ServerBuilder::new("l".to_string(), "c".to_string(), "k".to_string())
        .with_bidirectional_local_data_window(11)
        .with_max_keep_alive_period(8000);
    let t = s.transport_settings();
    assert_eq!(t.bidirectional_local_data_window, Some(11));
    assert_eq!(t.max_keep_alive_period, Some(8000));
    assert_eq!(t.max_open_local_bidirectional_streams, None);
}

#[test]
fn bind_address_follows_server_family() {
    let b = ClientBuilder::new("h:1".to_string());
    let v4 = SocketAddress::V4(SocketV4::new([127, 0, 0, 1], 443));
    let v6 = SocketAddress::V6(SocketV6::new([0u8; 16], 443));
    assert_eq!(b.bind_address(v4), BindAddress::AnyV4);
    assert_eq!(b.bind_address(v6), BindAddress::AnyV6);
    let b = b.with_bind("10.0.0.2:0".to_string());
    assert_eq!(b.bind_address(v6), BindAddress::Configured("10.0.0.2:0".to_string()));
}
