use ombrac::address::{Address, SocketV4, SocketV6};
use ombrac::error::ErrorKind;
use ombrac::request::{Request, ATYP_DOMAIN, ATYP_IPV4, ATYP_IPV6, HEADER_LENGTH, RTYP_TCP_CONNECT};

fn v6(s: [u16; 8]) -> [u8; 16] {
    let mut out = [0u8; 16];
    for (i, seg) in s.iter().enumerate() {
        out[2 * i] = (seg >> 8) as u8;
        out[2 * i + 1] = (seg & 0xff) as u8;
    }
    out
}

fn read(bytes: &[u8]) -> Result<Request, ErrorKind> {
    Request::read(bytes).map(|(r, _)| r).map_err(|e| e.kind())
}

#[test]
fn test_domain_request() {
    let domain = "example.com".to_string();
    let port = 80;
    let request = Request::TcpConnect(Address::Domain(domain.clone(), port));
    let bytes = request.to_bytes().unwrap();
    match read(&bytes).unwrap() {
        Request::TcpConnect(Address::Domain(parsed_domain, parsed_port)) => {
            assert_eq!(domain, parsed_domain);
            assert_eq!(port, parsed_port);
        }
        _ => panic!("Wrong request type"),
    }
}

#[test]
fn test_ipv4_request() {
    let addr = SocketV4::new([127, 0, 0, 1], 8080);
    let bytes = Request::TcpConnect(Address::IPv4(addr)).to_bytes().unwrap();
    match read(&bytes).unwrap() {
        Request::TcpConnect(Address::IPv4(parsed_addr)) => {
            assert_eq!(addr.ip(), parsed_addr.ip());
            assert_eq!(addr.port(), parsed_addr.port());
        }
        _ => panic!("Wrong request type"),
    }
}

#[test]
fn test_ipv6_request() {
    let addr = SocketV6::new(v6([0, 0, 0, 0, 0, 0, 0, 1]), 8080);
    let bytes = Request::TcpConnect(Address::IPv6(addr)).to_bytes().unwrap();
    match read(&bytes).unwrap() {
        Request::TcpConnect(Address::IPv6(parsed_addr)) => {
            assert_eq!(addr.ip(), parsed_addr.ip());
            assert_eq!(addr.port(), parsed_addr.port());
        }
        _ => panic!("Wrong request type"),
    }
}

#[test]
fn test_invalid_request_type() {
    let mut bytes = vec![0u8; HEADER_LENGTH];
    bytes[4] = 99;
    let result = read(&bytes);
    assert!(result.is_err());
    assert_eq!(result.unwrap_err(), ErrorKind::InvalidData);
}

#[test]
fn test_invalid_address_type() {
    let mut bytes = vec![0u8; HEADER_LENGTH];
    bytes[4] = RTYP_TCP_CONNECT;
    bytes[5] = 99;
    let result = read(&bytes);
    assert!(result.is_err());
    assert_eq!(result.unwrap_err(), ErrorKind::InvalidData);
}

#[test]
fn test_invalid_utf8_domain() {
    let mut bytes = vec![0u8; HEADER_LENGTH];
    bytes[0..4].copy_from_slice(&4u32.to_be_bytes());
    bytes[4] = RTYP_TCP_CONNECT;
    bytes[5] = ATYP_DOMAIN;
    bytes.extend_from_slice(&[0xFF, 0xFF, 0xFF, 0xFF]);
    let result = read(&bytes);
    assert!(result.is_err());
    assert_eq!(result.unwrap_err(), ErrorKind::InvalidData);
}

#[test]
fn test_max_length_domain() {
    let domain = format!("{}.{}", "a".repeat(63), "b".repeat(189));
    let port = 80;
    let bytes = Request::TcpConnect(Address::Domain(domain.clone(), port)).to_bytes().unwrap();
    match read(&bytes).unwrap() {
        Request::TcpConnect(Address::Domain(parsed_domain, parsed_port)) => {
            assert_eq!(domain, parsed_domain);
            assert_eq!(port, parsed_port);
            assert_eq!(domain.len(), 253);
        }
        _ => panic!("Wrong request type"),
    }
}

#[test]
fn test_special_chars_domain() {
    let special_domains = vec![
        "hello-world.com",
        "test.domain.com",
        "xn--h28h.com",
        "subdomain.测试.com",
        "_acme-challenge.example.com",
        "domain-with-Port.com",
        "s3.bucket.aws.amazon.com",
    ];
    for domain in special_domains {
        let port = 443;
        let bytes = Request::TcpConnect(Address::Domain(domain.to_string(), port)).to_bytes().unwrap();
        match read(&bytes).unwrap() {
            Request::TcpConnect(Address::Domain(parsed_domain, parsed_port)) => {
                assert_eq!(domain, parsed_domain);
                assert_eq!(port, parsed_port);
            }
            _ => panic!("Wrong request type for domain: {}", domain),
        }
    }
}

#[test]
fn test_edge_case_ports() {
    let edge_ports = vec![0, 1, 80, 443, 8080, 65535];
    for port in edge_ports {
        let bytes = Request::TcpConnect(Address::IPv4(SocketV4::new([127, 0, 0, 1], port))).to_bytes().unwrap();
        match read(&bytes).unwrap() {
            Request::TcpConnect(Address::IPv4(parsed_addr)) => {
                assert_eq!(port, parsed_addr.port());
            }
            _ => panic!("Wrong request type"),
        }
        let ipv6 = SocketV6::new(v6([0, 0, 0, 0, 0, 0, 0, 1]), port);
        let bytes = Request::TcpConnect(Address::IPv6(ipv6)).to_bytes().unwrap();
        match read(&bytes).unwrap() {
            Request::TcpConnect(Address::IPv6(parsed_addr)) => {
                assert_eq!(port, parsed_addr.port());
            }
            _ => panic!("Wrong request type"),
        }
    }
}

#[test]
fn test_special_ipv4_addresses() {
    let special_ips = vec![
        [0, 0, 0, 0],
        [127, 0, 0, 1],
        [255, 255, 255, 255],
        [192, 168, 0, 1],
        [10, 0, 0, 1],
        [172, 16, 0, 1],
    ];
    for ip in special_ips {
        let addr = SocketV4::new(ip, 80);
        let bytes = Request::TcpConnect(Address::IPv4(addr)).to_bytes().unwrap();
        match read(&bytes).unwrap() {
            Request::TcpConnect(Address::IPv4(parsed_addr)) => {
                assert_eq!(addr.ip(), parsed_addr.ip());
                assert_eq!(addr.port(), parsed_addr.port());
            }
            _ => panic!("Wrong request type"),
        }
    }
}

#[test]
fn test_special_ipv6_addresses() {
    let special_ips = vec![
        v6([0, 0, 0, 0, 0, 0, 0, 0]),
        v6([0, 0, 0, 0, 0, 0, 0, 1]),
        v6([0xfe80, 0, 0, 0, 0, 0, 0, 1]),
        v6([0x2001, 0xdb8, 0, 0, 0, 0, 0, 1]),
        [0u8; 16],
        v6([0, 0, 0, 0, 0, 0, 0, 1]),
    ];
    for ip in special_ips {
        let addr = SocketV6::new(ip, 80);
        let bytes = Request::TcpConnect(Address::IPv6(addr)).to_bytes().unwrap();
        match read(&bytes).unwrap() {
            Request::TcpConnect(Address::IPv6(parsed_addr)) => {
                assert_eq!(addr.ip(), parsed_addr.ip());
                assert_eq!(addr.port(), parsed_addr.port());
            }
            _ => panic!("Wrong request type"),
        }
    }
}

#[test]
fn test_partial_read() {
    let bytes = Request::TcpConnect(Address::Domain("example.com".to_string(), 80)).to_bytes().unwrap();
    let partial_bytes = &bytes[..bytes.len() - 1];
    let result = read(partial_bytes);
    assert!(result.is_err());
}

#[test]
fn test_empty_domain() {
    let bytes = Request::TcpConnect(Address::Domain("".to_string(), 80)).to_bytes().unwrap();
    match read(&bytes).unwrap() {
        Request::TcpConnect(Address::Domain(domain, port)) => {
            assert_eq!(domain, "");
            assert_eq!(port, 80);
        }
        _ => panic!("Wrong request type"),
    }
}

#[test]
fn test_oversized_header() {
    let mut bytes = vec![0u8; HEADER_LENGTH];
    bytes[0..4].copy_from_slice(&(u32::MAX).to_be_bytes());
    bytes[4] = RTYP_TCP_CONNECT;
    bytes[5] = ATYP_DOMAIN;
    let result = read(&bytes);
    assert!(result.is_err());
}

#[test]
fn test_request_roundtrip() {
    let test_cases = vec![
        Request::TcpConnect(Address::Domain("example.com".to_string(), 80)),
        Request::TcpConnect(Address::IPv4(SocketV4::new([127, 0, 0, 1], 8080))),
        Request::TcpConnect(Address::IPv6(SocketV6::new(v6([0, 0, 0, 0, 0, 0, 0, 1]), 443))),
    ];
    for original_request in test_cases {
        let bytes = original_request.to_bytes().unwrap();
        let parsed_request = read(&bytes).unwrap();
        let original_bytes = original_request.to_bytes().unwrap();
        let parsed_bytes = parsed_request.to_bytes().unwrap();
        assert_eq!(original_bytes, parsed_bytes);
    }
}

#[test]
fn test_concurrent_requests() {
    let requests = vec![
        Request::TcpConnect(Address::Domain("example.com".to_string(), 80)),
        Request::TcpConnect(Address::IPv4(SocketV4::new([127, 0, 0, 1], 8080))),
        Request::TcpConnect(Address::IPv6(SocketV6::new(v6([0, 0, 0, 0, 0, 0, 0, 1]), 443))),
    ];
    let mut results = Vec::new();
    for _ in 0..100 {
        for request in requests.iter() {
            let bytes = request.to_bytes().unwrap();
            results.push(read(&bytes).map(|_| ()));
        }
    }
    for result in results {
        assert!(result.is_ok());
    }
}

#[test]
fn test_large_domain_stress() {
    for i in 1..100 {
        let domain = format!("{}.example.com", "a".repeat(i));
        let request = Request::TcpConnect(Address::Domain(domain, 80));
        let bytes = request.to_bytes().unwrap();
        let parsed_request = read(&bytes).unwrap();
        match (request, parsed_request) {
            (
                Request::TcpConnect(Address::Domain(orig_domain, orig_port)),
                Request::TcpConnect(Address::Domain(parsed_domain, parsed_port)),
            ) => {
                assert_eq!(orig_domain, parsed_domain);
                assert_eq!(orig_port, parsed_port);
            }
            _ => panic!("Request type mismatch in stress test"),
        }
    }
}

#[test]
fn test_allocation_limits() {
    let request = Request::TcpConnect(Address::Domain("test.com".to_string(), 80));
    let bytes = request.to_bytes().unwrap();
    assert_eq!(bytes.len(), HEADER_LENGTH + "test.com".len());
}

#[test]
fn test_slow_reader() {
    let bytes = Request::TcpConnect(Address::Domain("example.com".to_string(), 80)).to_bytes().unwrap();
    // Bytes arriving one at a time: every strict prefix is incomplete, the whole is a request.
    for k in 0..bytes.len() {
        assert_eq!(read(&bytes[..k]).unwrap_err(), ErrorKind::UnexpectedEof);
    }
    match read(&bytes).unwrap() {
        Request::TcpConnect(Address::Domain(domain, port)) => {
            assert_eq!(domain, "example.com");
            assert_eq!(port, 80);
        }
        _ => panic!("Wrong request type"),
    }
}

#[test]
fn test_malformed_headers() {
    let test_cases: Vec<Vec<u8>> = vec![
        vec![0, 0, 1, 0, RTYP_TCP_CONNECT, ATYP_DOMAIN, 0, 80],
        vec![0, 0, 0, 4, RTYP_TCP_CONNECT, 99, 0, 80, 1, 1, 1, 1],
        vec![0, 0, 0, 4, RTYP_TCP_CONNECT, ATYP_IPV4, 0, 80, 127, 0, 0],
        vec![0, 0, 0, 16, RTYP_TCP_CONNECT, ATYP_IPV6, 0, 80],
        vec![0, 0, 0, 4, RTYP_TCP_CONNECT, ATYP_DOMAIN, 0, 80, 0xFF, 0xFF, 0xFF, 0xFF],
    ];
    for (i, test_case) in test_cases.iter().enumerate() {
        let result = read(test_case);
        assert!(
            result.is_err(),
            "Test case {} should have failed but succeeded: {:?}",
            i,
            test_case
        );
    }
}

#[test]
fn test_port_boundaries() {
    for port in [0, 1, 65534, 65535] {
        let bytes = Request::TcpConnect(Address::Domain("example.com".to_string(), port)).to_bytes().unwrap();
        match read(&bytes).unwrap() {
            Request::TcpConnect(Address::Domain(_, parsed_port)) => {
                assert_eq!(port, parsed_port);
            }
            _ => panic!("Wrong address type"),
        }
    }
}

#[test]
fn test_ipv4_subnets() {
    let subnet_tests = vec![
        [10, 0, 0, 1],
        [172, 16, 0, 1],
        [192, 168, 0, 1],
        [127, 0, 0, 1],
        [169, 254, 0, 1],
        [224, 0, 0, 1],
    ];
    for ip in subnet_tests {
        let addr = SocketV4::new(ip, 80);
        let bytes = Request::TcpConnect(Address::IPv4(addr)).to_bytes().unwrap();
        match read(&bytes).unwrap() {
            Request::TcpConnect(Address::IPv4(parsed_addr)) => {
                assert_eq!(addr, parsed_addr);
            }
            _ => panic!("Wrong address type"),
        }
    }
}

#[test]
fn test_ipv6_special_addresses() {
    let special_addrs = vec![
        v6([0, 0, 0, 0, 0, 0, 0, 0]),
        v6([0, 0, 0, 0, 0, 0, 0, 1]),
        v6([0, 0, 0, 0, 0, 0xffff, 0xc000, 0x0201]),
        v6([0xfe80, 0, 0, 0, 0, 0, 0, 1]),
        v6([0xff02, 0, 0, 0, 0, 0, 0, 1]),
    ];
    for ip in special_addrs {
        let addr = SocketV6::new(ip, 80);
        let bytes = Request::TcpConnect(Address::IPv6(addr)).to_bytes().unwrap();
        match read(&bytes).unwrap() {
            Request::TcpConnect(Address::IPv6(parsed_addr)) => {
                assert_eq!(addr, parsed_addr);
            }
            _ => panic!("Wrong address type"),
        }
    }
}

#[test]
fn request_wire_form_is_exact() {
    let bytes = Request::TcpConnect(Address::IPv4(SocketV4::new([127, 0, 0, 1], 8080))).to_bytes().unwrap();
    assert_eq!(bytes, vec![0, 0, 0, 4, 1, ATYP_IPV4, 0x1f, 0x90, 127, 0, 0, 1]);
    let bytes = Request::TcpConnect(Address::Domain("ab".to_string(), 1)).to_bytes().unwrap();
    assert_eq!(bytes, vec![0, 0, 0, 2, 1, ATYP_DOMAIN, 0, 1, b'a', b'b']);
    let (_, n) = Request::read(&[bytes.clone(), vec![9, 9]].concat()).unwrap();
    assert_eq!(n, bytes.len());
}

#[test]
fn request_long_names_are_refused() {
    let mut header = vec![0u8; HEADER_LENGTH];
    header[0..4].copy_from_slice(&256u32.to_be_bytes());
    header[4] = RTYP_TCP_CONNECT;
    header[5] = ATYP_DOMAIN;
    assert_eq!(read(&header).unwrap_err(), ErrorKind::InvalidData);
    header[0..4].copy_from_slice(&u32::MAX.to_be_bytes());
    assert_eq!(read(&header).unwrap_err(), ErrorKind::InvalidData);
    let long = "a".repeat(300);
    let mut full = vec![0, 0, 1, 44, RTYP_TCP_CONNECT, ATYP_DOMAIN, 0, 80];
    full.extend_from_slice(long.as_bytes());
    assert_eq!(read(&full).unwrap_err(), ErrorKind::InvalidData);
    let too_long = Request::TcpConnect(Address::Domain("a".repeat(256), 80));
    assert_eq!(too_long.to_bytes().unwrap_err().kind(), ErrorKind::InvalidInput);
    let longest = Request::TcpConnect(Address::Domain("a".repeat(255), 80));
    let bytes = longest.to_bytes().unwrap();
    assert_eq!(read(&bytes).unwrap(), longest);
}
