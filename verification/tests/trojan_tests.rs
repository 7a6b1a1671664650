use clash_core::addr::{encode_socks, Destination, Parsed};
use clash_core::error::ProxyError;
use clash_core::trojan::{hex_of, trojan_auth_hex, TrojanParser};

fn handshake(password: &str, cmd: u8, dest: &Destination) -> Vec<u8> {
    let mut bytes = trojan_auth_hex(password);
    bytes.extend_from_slice(b"\r\n");
    bytes.push(cmd);
    encode_socks(dest, &mut bytes);
    bytes.extend_from_slice(b"\r\n");
    bytes
}

fn example_dest() -> Destination {
    Destination::Domain { name: b"example.com".to_vec(), port: 443 }
}

#[test]
fn hex_of_known_bytes() {
    assert_eq!(hex_of(&[0x00, 0xff, 0x1a]), b"00ff1a".to_vec());
    assert_eq!(hex_of(&[]), Vec::<u8>::new());
}

#[test]
fn auth_hex_matches_sha224_test_vectors() {
    // SHA-224 of the empty string and of "abc", in lower-case hex.
    assert_eq!(
        trojan_auth_hex(""),
        b"d14a028c2a3a2bc9476102bb288234c415a2b01f828ea62ac5b3e42f".to_vec()
    );
    assert_eq!(
        trojan_auth_hex("abc"),
        b"23097d223405d8228642a477bda255b32aadbce4bda0b3f7e36c9da7".to_vec()
    );
}

#[test]
fn valid_handshake_single_read() {
    let dest = example_dest();
    let mut wire = handshake("letmein", 0x01, &dest);
    let header_len = wire.len();
    wire.extend_from_slice(b"payload-bytes");
    let mut parser = TrojanParser::new("letmein");
    parser.feed(&wire);
    match parser.poll() {
        Parsed::Complete(d, n) => {
            assert_eq!(d, dest);
            assert_eq!(n, header_len);
            assert_eq!(parser.into_remainder(n), b"payload-bytes".to_vec());
        },
        _ => panic!("expected a complete parse"),
    }
}

#[test]
fn valid_handshake_byte_by_byte() {
    let dest = example_dest();
    let wire = handshake("letmein", 0x01, &dest);
    let mut parser = TrojanParser::new("letmein");
    for (i, b) in wire.iter().enumerate() {
        if i + 1 < wire.len() {
            assert!(matches!(parser.poll(), Parsed::Incomplete));
        }
        parser.feed(&[*b]);
    }
    match parser.poll() {
        Parsed::Complete(d, n) => {
            assert_eq!(d, dest);
            assert_eq!(n, wire.len());
        },
        _ => panic!("expected a complete parse"),
    }
}

#[test]
fn wrong_password_rejected() {
    let wire = handshake("letmein", 0x01, &example_dest());
    let mut parser = TrojanParser::new("other-password");
    parser.feed(&wire);
    assert!(matches!(
        parser.poll(),
        Parsed::Reject(ProxyError::AuthenticationFailure)
    ));
}

#[test]
fn missing_crlf_after_digest_rejected() {
    let mut wire = trojan_auth_hex("pw");
    wire.extend_from_slice(b"XX");  // not CRLF
    wire.push(0x01);
    let mut parser = TrojanParser::new("pw");
    parser.feed(&wire);
    assert!(matches!(
        parser.poll(),
        Parsed::Reject(ProxyError::AuthenticationFailure)
    ));
}

#[test]
fn udp_associate_unsupported() {
    let wire = handshake("pw", 0x03, &example_dest());
    let mut parser = TrojanParser::new("pw");
    parser.feed(&wire);
    assert!(matches!(
        parser.poll(),
        Parsed::Reject(ProxyError::UnsupportedOperation)
    ));
}

#[test]
fn unknown_command_rejected() {
    let wire = handshake("pw", 0x7f, &example_dest());
    let mut parser = TrojanParser::new("pw");
    parser.feed(&wire);
    assert!(matches!(
        parser.poll(),
        Parsed::Reject(ProxyError::ProtocolViolation)
    ));
}

#[test]
fn missing_trailing_crlf_rejected() {
    let dest = example_dest();
    let mut wire = trojan_auth_hex("pw");
    wire.extend_from_slice(b"\r\n");
    wire.push(0x01);
    encode_socks(&dest, &mut wire);
    wire.extend_from_slice(b"zz");  // should be CRLF
    let mut parser = TrojanParser::new("pw");
    parser.feed(&wire);
    assert!(matches!(
        parser.poll(),
        Parsed::Reject(ProxyError::ProtocolViolation)
    ));
}

#[test]
fn auth_failure_reported_before_address_arrives() {
    // 59 bytes suffice to reject a bad digest even without a destination.
    let mut parser = TrojanParser::new("pw");
    parser.feed(&[b'0'; 59]);
    assert!(matches!(
        parser.poll(),
        Parsed::Reject(ProxyError::AuthenticationFailure)
    ));
}
