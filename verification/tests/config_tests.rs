use clash_core::addr::{Destination, Parsed};
use clash_core::config::CommonConfigOptions;
use clash_core::error::ProxyError;
use clash_core::http_outbound::{connect_request, connect_response_ok, HandlerOptions};
use clash_core::listener::{BindAddress, CommonInboundOpts, InboundOpts};
use clash_core::session::{Network, Session};
use clash_core::transport::{h3, mkcp, reality, xhttp};
use clash_core::vmess::VmessInboundParser;

fn common(name: &str) -> CommonInboundOpts {
    CommonInboundOpts {
        name: name.to_string(),
        listen: BindAddress::Any,
        allow_lan: false,
        port: 7890,
        fw_mark: None,
    }
}

#[test]
fn common_opts_reads_every_variant() {
    let opts = [
        InboundOpts::Http { common_opts: common("a") },
        InboundOpts::Trojan { common_opts: common("b"), password: "p".to_string() },
        InboundOpts::Socks { common_opts: common("c"), udp: true },
        InboundOpts::Vless { common_opts: common("d"), uuid: "u".to_string() },
        InboundOpts::Vmess { common_opts: common("e"), uuid: "u".to_string() },
    ];
    let names: Vec<&str> = opts.iter().map(|o| o.common_opts().name.as_str()).collect();
    assert_eq!(names, vec!["a", "b", "c", "d", "e"]);
}

#[test]
fn common_opts_mut_updates_in_place() {
    let mut opt = InboundOpts::Trojan { common_opts: common("t"), password: "p".to_string() };
    opt.common_opts_mut().port = 1080;
    opt.common_opts_mut().allow_lan = true;
    assert_eq!(opt.common_opts().port, 1080);
    assert!(opt.common_opts().allow_lan);
    match &opt {
        InboundOpts::Trojan { password, .. } => assert_eq!(password, "p"),
        _ => panic!("variant changed"),
    }
}

#[test]
fn basic_auth_header_needs_both_credentials() {
    let mut opts = HandlerOptions::default();
    assert!(opts.basic_auth_header().is_none());
    opts.username = Some("user".to_string());
    assert!(opts.basic_auth_header().is_none());
    opts.password = Some("pass".to_string());
    assert_eq!(opts.basic_auth_header().unwrap(), "Basic dXNlcjpwYXNz");
}

#[test]
fn connect_request_exact_bytes() {
    let auth = Some("Basic dXNlcjpwYXNz".to_string());
    let req = connect_request("example.com", 443, &auth);
    let expected = b"CONNECT example.com:443 HTTP/1.1\r\n\
Host: example.com:443\r\n\
Proxy-Authorization: Basic dXNlcjpwYXNz\r\n\
Proxy-Connection: keep-alive\r\n\r\n";
    assert_eq!(req, expected.to_vec());
    let bare = connect_request("h", 80, &None);
    assert_eq!(
        bare,
        b"CONNECT h:80 HTTP/1.1\r\nHost: h:80\r\nProxy-Connection: keep-alive\r\n\r\n".to_vec()
    );
}

#[test]
fn connect_response_requires_status_200() {
    assert!(connect_response_ok(b"HTTP/1.1 200 Connection established\r\n\r\n"));
    assert!(connect_response_ok(b"HTTP/1.0 200 OK\r\n\r\n"));
    assert!(!connect_response_ok(b"HTTP/1.1 407 Proxy Authentication Required\r\n\r\n"));
    assert!(!connect_response_ok(b""));
}

#[test]
fn session_for_dispatch_carries_destination_and_mark() {
    let dest = Destination::Ipv4 { addr: [1, 1, 1, 1], port: 53 };
    let session = Session::tcp(dest.clone(), Some(42));
    assert_eq!(session.network, Network::Tcp);
    assert_eq!(session.destination, dest);
    assert_eq!(session.so_mark, Some(42));
    assert!(session.iface.is_none());
}

#[test]
fn vmess_inbound_parses_socks_destination() {
    let mut wire = vec![0x03, 4];
    wire.extend_from_slice(b"host");
    wire.extend_from_slice(&[0x00, 80]);
    wire.extend_from_slice(b"tail");
    let mut parser = VmessInboundParser::new();
    parser.feed(&wire[..3]);
    assert!(matches!(parser.poll(), Parsed::Incomplete));
    parser.feed(&wire[3..]);
    match parser.poll() {
        Parsed::Complete(d, n) => {
            assert_eq!(d, Destination::Domain { name: b"host".to_vec(), port: 80 });
            assert_eq!(n, 8);
            assert_eq!(parser.into_remainder(n), b"tail".to_vec());
        },
        _ => panic!("expected a complete parse"),
    }
}

#[test]
fn passthrough_clients_hold_their_endpoint() {
    let cfg = CommonConfigOptions {
        name: "x".to_string(),
        server: "srv".to_string(),
        port: 4443,
        connect_via: None,
    };
    let h3_client = h3::Client::from_options(&cfg);
    assert_eq!((h3_client.server.as_str(), h3_client.port), ("srv", 4443));
    let xh = xhttp::Client::from_options(&cfg);
    assert_eq!((xh.server.as_str(), xh.port), ("srv", 4443));
    assert!(xh.opts.host.is_none());
    let _kcp = mkcp::Client::new();
    let real = reality::Client::new(reality::Options {
        skip_cert_verify: false,
        sni: Some("sni.example".to_string()),
        alpn: None,
    });
    assert_eq!(real.opts.sni.as_deref(), Some("sni.example"));
}

#[test]
fn error_messages_name_the_class() {
    assert_eq!(ProxyError::AuthenticationFailure.message(), "authentication failed");
    assert_eq!(ProxyError::ShortWrite.message(), "short write on underlying stream");
    assert_eq!(ProxyError::ProtocolViolation.message(), "protocol violation");
    assert_eq!(ProxyError::UnsupportedOperation.message(), "unsupported operation");
}
