use clash_core::addr::{Destination, Parsed};
use clash_core::error::ProxyError;
use clash_core::vless::inbound::{vless_inbound_reply, VlessInboundParser};
use clash_core::vless::parse_uuid;
use clash_core::vless::stream::{connect_header, vless_request_header, VlessReader, VlessWriter};

fn sample_dest() -> Destination {
    Destination::Domain { name: b"example.com".to_vec(), port: 443 }
}

fn zero_uuid_header(udp: bool) -> Vec<u8> {
    connect_header("00000000-0000-0000-0000-000000000000", &sample_dest(), udp).unwrap()
}

#[test]
fn parse_uuid_accepts_hyphenated_and_rejects_junk() {
    let b = parse_uuid("01020304-0506-0708-090a-0b0c0d0e0f10").unwrap();
    assert_eq!(b, vec![1, 2, 3, 4, 5, 6, 7, 8, 9, 10, 11, 12, 13, 14, 15, 16]);
    assert!(parse_uuid("not-a-uuid").is_none());
    assert!(parse_uuid("").is_none());
}

#[test]
fn request_header_exact_bytes() {
    let header = zero_uuid_header(false);
    let mut expected = vec![0u8];
    expected.extend_from_slice(&[0u8; 16]);
    expected.push(0);
    expected.push(1);  // TCP command
    expected.extend_from_slice(&[0x01, 0xbb, 0x02, 11]);
    expected.extend_from_slice(b"example.com");
    assert_eq!(header, expected);
    let udp_header = zero_uuid_header(true);
    assert_eq!(udp_header[18], 2);  // UDP command
}

#[test]
fn connect_header_rejects_bad_uuid() {
    assert_eq!(
        connect_header("xyz", &sample_dest(), false),
        Err(ProxyError::ProtocolViolation)
    );
}

#[test]
fn inbound_parses_client_header_and_consumes_exactly() {
    let uuid = parse_uuid("01020304-0506-0708-090a-0b0c0d0e0f10").unwrap();
    let dest = sample_dest();
    let header = vless_request_header(&uuid, &dest, false);
    let mut wire = header.clone();
    wire.extend_from_slice(b"ping");
    let mut parser = VlessInboundParser::new();
    parser.feed(&wire);
    match parser.poll() {
        Parsed::Complete(req, n) => {
            assert_eq!(req.uuid, uuid);
            assert_eq!(req.cmd, 1);
            assert_eq!(req.dest, dest);
            // 1 + 16 + 1 + 1 + 2 + 1 + 1 + len("example.com")
            assert_eq!(n, 23 + 11);
            assert_eq!(n, header.len());
            assert_eq!(parser.into_remainder(n), b"ping".to_vec());
        },
        _ => panic!("expected a complete parse"),
    }
}

#[test]
fn inbound_handles_split_reads_and_addons() {
    // version, uuid, one addon byte (discarded), cmd 2, IPv4 10.0.0.1:53.
    let mut wire = vec![0u8];
    wire.extend_from_slice(&[7u8; 16]);
    wire.push(1);
    wire.push(0xee);
    wire.push(2);
    wire.extend_from_slice(&[0, 53, 0x01, 10, 0, 0, 1]);
    let mut parser = VlessInboundParser::new();
    let (a, b) = wire.split_at(20);
    parser.feed(a);
    assert!(matches!(parser.poll(), Parsed::Incomplete));
    parser.feed(b);
    match parser.poll() {
        Parsed::Complete(req, n) => {
            assert_eq!(req.cmd, 2);
            assert_eq!(req.dest, Destination::Ipv4 { addr: [10, 0, 0, 1], port: 53 });
            assert_eq!(n, wire.len());
        },
        _ => panic!("expected a complete parse"),
    }
}

#[test]
fn inbound_rejects_bad_version() {
    let mut parser = VlessInboundParser::new();
    parser.feed(&[1u8]);
    assert!(matches!(
        parser.poll(),
        Parsed::Reject(ProxyError::ProtocolViolation)
    ));
}

#[test]
fn inbound_reply_is_version_and_empty_addons() {
    assert_eq!(vless_inbound_reply(), vec![0u8, 0u8]);
}

#[test]
fn writer_tcp_passes_payload_unframed() {
    let mut w = VlessWriter::new(false);
    w.begin_write(b"ping");
    assert_eq!(w.unflushed_bytes().clone(), b"ping".to_vec());
    assert_eq!(w.on_wrote(4), Ok(Some(4)));
}

#[test]
fn writer_udp_frames_and_tracks_partial_flushes() {
    let mut w = VlessWriter::new(true);
    w.begin_write(b"abc");
    assert_eq!(w.unflushed_bytes().clone(), vec![0, 3, b'a', b'b', b'c']);
    assert_eq!(w.on_wrote(2), Ok(None));
    assert_eq!(w.unflushed_bytes().clone(), vec![b'a', b'b', b'c']);
    assert_eq!(w.on_wrote(3), Ok(Some(3)));
    assert_eq!(w.unflushed_bytes().len(), 0);
}

#[test]
fn writer_zero_progress_is_short_write() {
    let mut w = VlessWriter::new(true);
    w.begin_write(b"abc");
    assert_eq!(w.on_wrote(0), Err(ProxyError::ShortWrite));
}

#[test]
fn writer_empty_udp_write_is_an_empty_frame() {
    let mut w = VlessWriter::new(true);
    w.begin_write(b"");
    assert_eq!(w.unflushed_bytes().clone(), vec![0, 0]);
    assert_eq!(w.on_wrote(2), Ok(Some(0)));
}

#[test]
fn reader_tcp_strips_preamble_and_passes_through() {
    let mut r = VlessReader::new(false);
    r.push(&[0, 0, b'h', b'i']).unwrap();
    assert_eq!(r.pull(10), b"hi".to_vec());
    r.push(b"more").unwrap();
    assert_eq!(r.pull(2), b"mo".to_vec());
    assert_eq!(r.pull(10), b"re".to_vec());
}

#[test]
fn reader_discards_addon_bytes() {
    let mut r = VlessReader::new(false);
    r.push(&[0, 3]).unwrap();
    r.push(&[9, 9]).unwrap();
    assert_eq!(r.pull(10), Vec::<u8>::new());
    r.push(&[9, b'x']).unwrap();
    assert_eq!(r.pull(10), b"x".to_vec());
}

#[test]
fn reader_rejects_bad_version() {
    let mut r = VlessReader::new(false);
    assert_eq!(r.push(&[5]), Err(ProxyError::ProtocolViolation));
}

#[test]
fn reader_udp_reassembles_frames_across_arbitrary_splits() {
    // Preamble, then frames "ab", "", "cde" — split at awkward points.
    let mut wire = vec![0u8, 0u8];
    wire.extend_from_slice(&[0, 2, b'a', b'b']);
    wire.extend_from_slice(&[0, 0]);
    wire.extend_from_slice(&[0, 3, b'c', b'd', b'e']);
    let mut r = VlessReader::new(true);
    r.push(&wire[..3]).unwrap();
    assert_eq!(r.pull(100), Vec::<u8>::new());
    r.push(&wire[3..7]).unwrap();
    assert_eq!(r.pull(100), b"ab".to_vec());
    r.push(&wire[7..10]).unwrap();
    // The empty datagram is one (empty) delivery of its own.
    assert_eq!(r.pull(100), Vec::<u8>::new());
    r.push(&wire[10..]).unwrap();
    assert_eq!(r.pull(2), b"cd".to_vec());
    assert_eq!(r.pull(100), b"e".to_vec());
}

#[test]
fn udp_mode_roundtrip_over_writer_and_reader() {
    // Encode a sequence of writes with the writer, then decode the captured
    // wire bytes with a reader: the frames come back one per collection,
    // in order, reassembling the original payload stream exactly.
    let writes: [&[u8]; 3] = [b"first", b"", b"second-write"];
    let mut wire = vec![0u8, 0u8];  // reader-side preamble
    let mut w = VlessWriter::new(true);
    for payload in writes {
        w.begin_write(payload);
        let frame = w.unflushed_bytes().clone();
        wire.extend_from_slice(&frame);
        assert_eq!(w.on_wrote(frame.len()), Ok(Some(payload.len())));
    }
    let mut r = VlessReader::new(true);
    r.push(&wire).unwrap();
    assert_eq!(r.pull(1000), b"first".to_vec());
    assert_eq!(r.pull(1000), Vec::<u8>::new());  // the empty datagram
    assert_eq!(r.pull(1000), b"second-write".to_vec());
    assert_eq!(r.pull(1000), Vec::<u8>::new());
}

#[test]
fn reader_udp_delivers_at_most_one_frame_per_pull() {
    // Two one-byte datagrams arrive in a single underlying read; each pull
    // hands back exactly one datagram's payload, never both at once.
    let mut r = VlessReader::new(true);
    r.push(&[0, 0, 0, 1, b'x', 0, 1, b'y']).unwrap();
    assert_eq!(r.pull(100), b"x".to_vec());
    assert_eq!(r.pull(100), b"y".to_vec());
    assert_eq!(r.pull(100), Vec::<u8>::new());
}

#[test]
fn reader_udp_finishes_a_frame_before_the_next() {
    // A partially collected frame is finished before the next frame opens.
    let mut r = VlessReader::new(true);
    r.push(&[0, 0, 0, 3, b'a', b'b', b'c', 0, 1, b'z']).unwrap();
    assert_eq!(r.pull(2), b"ab".to_vec());
    assert_eq!(r.pull(100), b"c".to_vec());
    assert_eq!(r.pull(100), b"z".to_vec());
}

#[test]
fn udp_frame_at_maximum_length_roundtrips() {
    let payload = vec![7u8; 0xffff];
    let mut w = VlessWriter::new(true);
    w.begin_write(&payload);
    let frame = w.unflushed_bytes().clone();
    assert_eq!(frame.len(), 2 + 0xffff);
    assert_eq!(&frame[..2], &[0xff, 0xff]);
    assert_eq!(w.on_wrote(frame.len()), Ok(Some(0xffff)));
    let mut r = VlessReader::new(true);
    r.push(&[0, 0]).unwrap();
    r.push(&frame).unwrap();
    assert_eq!(r.pull(usize::MAX), payload);
}
