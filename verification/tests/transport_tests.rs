use clash_core::config::{CommonConfigOptions, HttpOpt};
use clash_core::error::ProxyError;
use clash_core::transport::header::{find_crlf2, HeaderReader};
use clash_core::transport::http1;
use clash_core::transport::httpupgrade;
use clash_core::transport::xhttp;

fn pairs(list: &[(&str, &str)]) -> Vec<(String, String)> {
    list.iter().map(|(k, v)| (k.to_string(), v.to_string())).collect()
}

#[test]
fn find_crlf2_first_occurrence() {
    assert_eq!(find_crlf2(b"\r\n\r\n"), Some(0));
    assert_eq!(find_crlf2(b"ab\r\n\r\ncd\r\n\r\n"), Some(2));
    assert_eq!(find_crlf2(b"ab\r\n\r"), None);
    assert_eq!(find_crlf2(b""), None);
}

#[test]
fn http1_prefix_exact_bytes() {
    let client = http1::Client::new(
        "h.example".to_string(),
        "/p".to_string(),
        "POST".to_string(),
        pairs(&[("X-A", "1"), ("content-length", "9"), ("Transfer-Encoding", "x")]),
    );
    let prefix = client.build_request_prefix(5);
    let expected = b"POST /p HTTP/1.1\r\n\
Host: h.example\r\n\
X-A: 1\r\n\
Connection: keep-alive\r\n\
Content-Type: application/octet-stream\r\n\
Content-Length: 5\r\n\r\n";
    assert_eq!(prefix, expected.to_vec());
}

#[test]
fn http1_host_header_override() {
    let client = http1::Client::new(
        "default.host".to_string(),
        "/".to_string(),
        "GET".to_string(),
        pairs(&[("Host", "override.host")]),
    );
    let prefix = client.build_request_prefix(0);
    let text = String::from_utf8(prefix).unwrap();
    assert!(text.contains("Host: override.host\r\n"));
    // The override is written once, not repeated in the user header block.
    assert_eq!(text.matches("Host:").count(), 1);
    assert!(text.ends_with("Content-Length: 0\r\n\r\n"));
}

#[test]
fn http1_first_write_carries_prefix_then_passthrough() {
    let client = http1::Client::new(
        "h".to_string(),
        "/".to_string(),
        "POST".to_string(),
        Vec::new(),
    );
    let mut stream = http1::Http1Stream::new(client);
    let (emit, consumed) = stream.on_write(b"body!");
    assert_eq!(consumed, 5);
    assert!(emit.ends_with(b"Content-Length: 5\r\n\r\nbody!"));
    let (emit2, consumed2) = stream.on_write(b"next");
    assert_eq!((emit2, consumed2), (b"next".to_vec(), 4));
}

#[test]
fn http1_from_options_defaults_and_method_mapping() {
    let common = CommonConfigOptions {
        name: "o".to_string(),
        server: "srv".to_string(),
        port: 80,
        connect_via: None,
    };
    let c1 = http1::Client::from_options(&HttpOpt::default(), &common);
    assert_eq!(c1.host, "srv");
    assert_eq!(c1.path, "/");
    assert_eq!(c1.method, "POST");
    assert!(c1.headers.is_empty());
    let opt = HttpOpt { method: Some("gEt".to_string()), ..HttpOpt::default() };
    assert_eq!(http1::Client::from_options(&opt, &common).method, "GET");
    let opt2 = HttpOpt { method: Some("put".to_string()), ..HttpOpt::default() };
    assert_eq!(http1::Client::from_options(&opt2, &common).method, "POST");
}

#[test]
fn upgrade_request_exact_bytes_with_defaults() {
    let client = httpupgrade::Client::new(
        "up.example".to_string(),
        "/chat".to_string(),
        Vec::new(),
    );
    let req = client.build_request();
    let expected = b"GET /chat HTTP/1.1\r\n\
Connection: Upgrade\r\n\
Upgrade: websocket\r\n\
Host: up.example\r\n\r\n";
    assert_eq!(req, expected.to_vec());
}

#[test]
fn upgrade_request_keeps_configured_upgrade_and_host() {
    let client = httpupgrade::Client::new(
        "up.example".to_string(),
        "/".to_string(),
        pairs(&[("upgrade", "custom-proto"), ("HOST", "h2")]),
    );
    let text = String::from_utf8(client.build_request()).unwrap();
    assert!(!text.contains("websocket"));
    assert!(text.contains("upgrade: custom-proto\r\n"));
    assert!(!text.contains("Host: up.example"));
    assert!(text.contains("HOST: h2\r\n"));
}

#[test]
fn upgrade_first_write_consumes_nothing() {
    let client = httpupgrade::Client::new("h".to_string(), "/".to_string(), Vec::new());
    let mut stream = httpupgrade::HttpUpgradeStream::new(client);
    let (emit, consumed) = stream.on_write(b"payload");
    assert_eq!(consumed, 0);
    assert!(emit.starts_with(b"GET / HTTP/1.1\r\n"));
    let (emit2, consumed2) = stream.on_write(b"payload");
    assert_eq!((emit2, consumed2), (b"payload".to_vec(), 7));
}

#[test]
fn upgrade_read_accepts_success_statuses_only() {
    for status in ["HTTP/1.1 101 Switching Protocols", "HTTP/1.0 101 x", "HTTP/1.1 200 OK"] {
        let client = httpupgrade::Client::new("h".to_string(), "/".to_string(), Vec::new());
        let mut stream = httpupgrade::HttpUpgradeStream::new(client);
        let response = format!("{status}\r\n\r\nextra");
        assert_eq!(stream.on_read_chunk(response.as_bytes()), Ok(true));
        assert_eq!(stream.read_buffered(100), b"extra".to_vec());
    }
    let client = httpupgrade::Client::new("h".to_string(), "/".to_string(), Vec::new());
    let mut stream = httpupgrade::HttpUpgradeStream::new(client);
    assert_eq!(
        stream.on_read_chunk(b"HTTP/1.1 403 Forbidden\r\n\r\n"),
        Err(ProxyError::ProtocolViolation)
    );
}

#[test]
fn xhttp_prefix_exact_bytes_with_port() {
    let client = xhttp::Client::new(
        "x.example".to_string(),
        8443,
        xhttp::Options {
            host: None,
            path: Some("/u".to_string()),
            method: None,
            headers: Some(pairs(&[("P", "q"), ("Content-LENGTH", "drop-me")])),
        },
    );
    let stream = xhttp::XHttpObfs::new(&client);
    let prefix = stream.build_prefix(3);
    let expected = b"GET /u HTTP/1.1\r\n\
Host: x.example:8443\r\n\
P: q\r\n\
Content-Length: 3\r\n\r\n";
    assert_eq!(prefix, expected.to_vec());
}

#[test]
fn xhttp_port_80_has_no_port_in_host() {
    let client = xhttp::Client::new("x".to_string(), 80, xhttp::Options::default());
    let stream = xhttp::XHttpObfs::new(&client);
    let text = String::from_utf8(stream.build_prefix(0)).unwrap();
    assert!(text.contains("Host: x\r\n"));
}

#[test]
fn xhttp_first_write_then_passthrough() {
    let client = xhttp::Client::new("x".to_string(), 80, xhttp::Options::default());
    let mut stream = xhttp::XHttpObfs::new(&client);
    let (emit, consumed) = stream.on_write(b"zz");
    assert_eq!(consumed, 2);
    assert!(emit.ends_with(b"Content-Length: 2\r\n\r\nzz"));
    let (emit2, _) = stream.on_write(b"after");
    assert_eq!(emit2, b"after".to_vec());
}

#[test]
fn header_reader_terminator_split_across_reads() {
    // The terminator is split between the two underlying reads; the payload
    // after it contains no header byte.
    let mut reader = HeaderReader::new();
    assert_eq!(reader.on_chunk(b"HTTP/1.1 200 OK\r\n\r", false), Ok(false));
    assert_eq!(reader.on_chunk(b"\nBODY", false), Ok(true));
    assert_eq!(reader.pull(100), b"BODY".to_vec());
    assert_eq!(reader.pull(100), Vec::<u8>::new());
}

#[test]
fn header_reader_one_byte_reads() {
    // Fed one byte at a time, the reader finishes exactly on the final byte
    // of the terminator, with nothing spilled: later bytes belong to the
    // caller directly.
    let wire = b"X: y\r\n\r\n";
    let mut reader = HeaderReader::new();
    for (i, b) in wire.iter().enumerate() {
        let done = reader.on_chunk(&[*b], false).unwrap();
        assert_eq!(done, i == wire.len() - 1);
    }
    assert_eq!(reader.pull(100), Vec::<u8>::new());
}

#[test]
fn header_reader_eof_before_terminator_is_protocol_error() {
    let mut reader = HeaderReader::new();
    assert_eq!(reader.on_chunk(b"HTTP/1.1 200 OK\r\n", false), Ok(false));
    assert_eq!(reader.on_chunk(b"", false), Err(ProxyError::ProtocolViolation));
}

#[test]
fn header_reader_caps_delivery_at_caller_capacity() {
    let mut reader = HeaderReader::new();
    assert_eq!(reader.on_chunk(b"\r\n\r\nabcdef", false), Ok(true));
    assert_eq!(reader.pull(2), b"ab".to_vec());
    assert_eq!(reader.pull(3), b"cde".to_vec());
    assert_eq!(reader.pull(3), b"f".to_vec());
}
