use clash_core::addr::{encode_socks, encode_vless, parse_socks, parse_vless_addr, Destination,
    Parsed};
use clash_core::error::ProxyError;

fn domain(name: &str, port: u16) -> Destination {
    Destination::Domain { name: name.as_bytes().to_vec(), port }
}

#[test]
fn socks_encoding_ipv4_exact() {
    let d = Destination::Ipv4 { addr: [127, 0, 0, 1], port: 8080 };
    let mut out = Vec::new();
    encode_socks(&d, &mut out);
    assert_eq!(out, vec![0x01, 127, 0, 0, 1, 0x1f, 0x90]);
}

#[test]
fn socks_encoding_domain_exact() {
    let d = domain("example.com", 443);
    let mut out = Vec::new();
    encode_socks(&d, &mut out);
    let mut expected = vec![0x03, 11];
    expected.extend_from_slice(b"example.com");
    expected.extend_from_slice(&[0x01, 0xbb]);
    assert_eq!(out, expected);
}

#[test]
fn socks_encoding_ipv6_exact() {
    let d = Destination::Ipv6 { addr: [0xfe, 0x80, 0, 0, 0, 0, 0, 0, 0, 0, 0, 0, 0, 0, 0, 1], port: 53 };
    let mut out = Vec::new();
    encode_socks(&d, &mut out);
    let mut expected = vec![0x04, 0xfe, 0x80];
    expected.extend_from_slice(&[0u8; 13]);
    expected.push(1);
    expected.extend_from_slice(&[0x00, 53]);
    assert_eq!(out, expected);
}

#[test]
fn socks_roundtrip_with_trailing_payload() {
    let d = domain("a.b", 1);
    let mut wire = Vec::new();
    encode_socks(&d, &mut wire);
    let n = wire.len();
    wire.extend_from_slice(b"rest");
    match parse_socks(&wire, 0) {
        Parsed::Complete(parsed, consumed) => {
            assert_eq!(parsed, d);
            assert_eq!(consumed, n);
        },
        _ => panic!("expected a complete parse"),
    }
}

#[test]
fn socks_incomplete_and_invalid() {
    assert!(matches!(parse_socks(&vec![], 0), Parsed::Incomplete));
    assert!(matches!(parse_socks(&vec![0x01, 1, 2], 0), Parsed::Incomplete));
    assert!(matches!(parse_socks(&vec![0x03, 5, b'a'], 0), Parsed::Incomplete));
    assert!(matches!(
        parse_socks(&vec![0x02, 0, 0, 0, 0, 0, 0], 0),
        Parsed::Reject(ProxyError::ProtocolViolation)
    ));
}

#[test]
fn socks_rejects_invalid_utf8_domain() {
    // atyp=domain, len=2, bytes 0xff 0xfe are not UTF-8, then a port.
    let wire = vec![0x03, 2, 0xff, 0xfe, 0x00, 80];
    assert!(matches!(
        parse_socks(&wire, 0),
        Parsed::Reject(ProxyError::ProtocolViolation)
    ));
}

#[test]
fn vless_encoding_domain_exact() {
    let d = domain("example.com", 443);
    let mut out = Vec::new();
    encode_vless(&d, &mut out);
    let mut expected = vec![0x01, 0xbb, 0x02, 11];
    expected.extend_from_slice(b"example.com");
    assert_eq!(out, expected);
}

#[test]
fn vless_encoding_uses_its_own_address_numbering() {
    // IPv6 is 0x03 in the VLESS layout (0x04 in the SOCKS layout).
    let d = Destination::Ipv6 { addr: [0; 16], port: 1 };
    let mut out = Vec::new();
    encode_vless(&d, &mut out);
    assert_eq!(out[2], 0x03);
    let v4 = Destination::Ipv4 { addr: [10, 0, 0, 1], port: 1 };
    let mut out4 = Vec::new();
    encode_vless(&v4, &mut out4);
    assert_eq!(out4[2], 0x01);
}

#[test]
fn vless_addr_roundtrip() {
    for d in [
        Destination::Ipv4 { addr: [1, 2, 3, 4], port: 65535 },
        Destination::Ipv6 { addr: [9; 16], port: 0 },
        domain("x", 12345),
    ] {
        let mut wire = Vec::new();
        encode_vless(&d, &mut wire);
        let n = wire.len();
        wire.push(0xaa);
        match parse_vless_addr(&wire, 0) {
            Parsed::Complete(parsed, consumed) => {
                assert_eq!(parsed, d);
                assert_eq!(consumed, n);
            },
            _ => panic!("expected a complete parse"),
        }
    }
}

#[test]
fn vless_addr_invalid_type_rejected() {
    // 0x04 is not a VLESS address type.
    let wire = vec![0x00, 80, 0x04, 1, 2, 3, 4];
    assert!(matches!(
        parse_vless_addr(&wire, 0),
        Parsed::Reject(ProxyError::ProtocolViolation)
    ));
}

#[test]
fn destination_port_accessor() {
    assert_eq!(domain("d", 7).port(), 7);
    assert_eq!(Destination::Ipv4 { addr: [0; 4], port: 99 }.port(), 99);
}

#[test]
fn domain_at_maximum_length_roundtrips() {
    let name = vec![b'a'; 255];
    let d = Destination::Domain { name, port: 65535 };
    let mut wire = Vec::new();
    encode_socks(&d, &mut wire);
    assert_eq!(wire.len(), 1 + 1 + 255 + 2);
    match parse_socks(&wire, 0) {
        Parsed::Complete(parsed, consumed) => {
            assert_eq!(parsed, d);
            assert_eq!(consumed, wire.len());
        },
        _ => panic!("expected a complete parse"),
    }
}

#[test]
fn domain_utf8_multibyte_accepted_and_malformed_rejected() {
    // Valid two-byte and four-byte scalars are accepted.
    for name in [vec![0xc3, 0xa9], vec![0xf0, 0x9f, 0x98, 0x80]] {
        let mut wire = vec![0x03, name.len() as u8];
        wire.extend_from_slice(&name);
        wire.extend_from_slice(&[0x01, 0xbb]);
        match parse_socks(&wire, 0) {
            Parsed::Complete(Destination::Domain { name: parsed, port }, _) => {
                assert_eq!(parsed, name);
                assert_eq!(port, 443);
            },
            _ => panic!("expected a complete parse"),
        }
    }
    // Overlong encodings, surrogates and truncated scalars are rejected.
    for name in [
        vec![0xc0, 0x80],              // overlong
        vec![0xed, 0xa0, 0x80],        // surrogate
        vec![0xe2, 0x82],              // truncated scalar
        vec![0x80],                    // bare continuation byte
        vec![0xf8, 0x80, 0x80, 0x80],  // no encoding starts with 0xf8
    ] {
        let mut wire = vec![0x03, name.len() as u8];
        wire.extend_from_slice(&name);
        wire.extend_from_slice(&[0x01, 0xbb]);
        assert!(matches!(
            parse_socks(&wire, 0),
            Parsed::Reject(ProxyError::ProtocolViolation)
        ));
    }
}
