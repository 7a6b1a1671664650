//! A loop-back exchange: the client wraps its byte stream with the
//! HTTP-Upgrade transport and then the VLESS codec in TCP mode; the server
//! peels the same stack, observes the decoded destination, and receives the
//! client's payload exactly.
use clash_core::addr::{Destination, Parsed};
use clash_core::transport::header::HeaderReader;
use clash_core::transport::httpupgrade;
use clash_core::vless::inbound::{vless_inbound_reply, VlessInboundParser};
use clash_core::vless::stream::{connect_header, VlessReader, VlessWriter};

#[test]
fn upgrade_then_vless_ping_roundtrip() {
    let dest = Destination::Domain { name: b"example.com".to_vec(), port: 443 };

    // Client side: HTTP-Upgrade transport state plus the VLESS codec.
    let upgrade = httpupgrade::Client::new("srv".to_string(), "/".to_string(), Vec::new());
    let mut client_transport = httpupgrade::HttpUpgradeStream::new(upgrade);
    let vless_header =
        connect_header("00000000-0000-0000-0000-000000000000", &dest, false).unwrap();

    // The VLESS codec's first write goes through the transport, whose own
    // first write sends only the Upgrade handshake and consumes nothing.
    let mut c2s: Vec<u8> = Vec::new();
    let (emit, consumed) = client_transport.on_write(&vless_header);
    assert_eq!(consumed, 0);
    c2s.extend_from_slice(&emit);

    // Server side: peel the Upgrade request, answer 101.
    let mut server_header = HeaderReader::new();
    assert_eq!(server_header.on_chunk(&c2s, false), Ok(true));
    assert_eq!(server_header.pull(4096), Vec::<u8>::new());
    c2s.clear();
    let s2c = b"HTTP/1.1 101 Switching Protocols\r\n\r\n".to_vec();

    // Client consumes the response, then retries the header write; steady
    // state passes it through unchanged.
    assert_eq!(client_transport.on_read_chunk(&s2c), Ok(true));
    let (emit, consumed) = client_transport.on_write(&vless_header);
    assert_eq!(consumed, vless_header.len());
    c2s.extend_from_slice(&emit);

    // Client writes the payload through the VLESS writer, then the transport.
    let mut writer = VlessWriter::new(false);
    writer.begin_write(b"ping");
    let frame = writer.unflushed_bytes().clone();
    assert_eq!(writer.on_wrote(frame.len()), Ok(Some(4)));
    let (emit, _) = client_transport.on_write(&frame);
    c2s.extend_from_slice(&emit);

    // Server parses the VLESS handshake, observes the destination, and the
    // remainder is exactly the payload.
    let mut server_parser = VlessInboundParser::new();
    server_parser.feed(&c2s);
    let (request, consumed) = match server_parser.poll() {
        Parsed::Complete(request, consumed) => (request, consumed),
        _ => panic!("expected a complete handshake"),
    };
    assert_eq!(request.dest, dest);
    assert_eq!(request.uuid, vec![0u8; 16]);
    assert_eq!(server_parser.into_remainder(consumed), b"ping".to_vec());

    // Server replies; the client's read side strips the reply preamble and
    // would deliver any payload that follows it.
    let mut reply = vless_inbound_reply();
    reply.extend_from_slice(b"pong");
    let mut client_reader = VlessReader::new(false);
    client_reader.push(&reply).unwrap();
    assert_eq!(client_reader.pull(4096), b"pong".to_vec());
}
