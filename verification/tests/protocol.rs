//! Tests of the SOCKS5 address codec and handshake state machine.
use proxy_core::addr::{parse_addr, SocksAddr};
use proxy_core::error::{Error, ProtocolKind};
use proxy_core::session::{Network, Session};
use proxy_core::socks::{
    encode_reply, select_auth_method, verify_credentials, Handshake, Phase, RequestAction,
};

fn users_fixture() -> Vec<(Vec<u8>, Vec<u8>)> {
    vec![
        (b"alice".to_vec(), b"wonder".to_vec()),
        (b"bob".to_vec(), b"builder".to_vec()),
    ]
}

#[test]
fn addr_v4_parses() {
    let bytes = [1u8, 10, 0, 0, 1, 0, 80];
    let (a, n) = parse_addr(&bytes).unwrap();
    assert_eq!(n, 7);
    match a {
        SocksAddr::V4 { ip, port } => {
            assert_eq!(ip, [10, 0, 0, 1]);
            assert_eq!(port, 80);
        }
        _ => panic!("expected v4"),
    }
}

#[test]
fn addr_domain_parses() {
    let mut bytes = vec![3u8, 11];
    bytes.extend_from_slice(b"example.com");
    bytes.extend_from_slice(&[0, 80]);
    let (a, n) = parse_addr(&bytes).unwrap();
    assert_eq!(n, 15);
    match a {
        SocksAddr::Domain { name, port } => {
            assert_eq!(name, b"example.com".to_vec());
            assert_eq!(port, 80);
        }
        _ => panic!("expected domain"),
    }
}

#[test]
fn addr_v6_parses() {
    let mut bytes = vec![4u8];
    bytes.extend_from_slice(&[0; 15]);
    bytes.push(1);
    bytes.extend_from_slice(&[0x1f, 0x90]);
    let (a, n) = parse_addr(&bytes).unwrap();
    assert_eq!(n, 19);
    match a {
        SocksAddr::V6 { ip, port } => {
            assert_eq!(ip[15], 1);
            assert_eq!(port, 8080);
        }
        _ => panic!("expected v6"),
    }
}

#[test]
fn addr_round_trips_through_wire_bytes() {
    let addrs = vec![
        SocksAddr::V4 { ip: [127, 0, 0, 1], port: 1080 },
        SocksAddr::Domain { name: b"example.com".to_vec(), port: 443 },
        SocksAddr::V6 { ip: [0xfe; 16], port: 65535 },
    ];
    for a in addrs {
        let wire = a.wire_bytes();
        let (b, n) = parse_addr(&wire).unwrap();
        assert_eq!(n, wire.len());
        assert_eq!(b.wire_bytes(), wire);
    }
}

#[test]
fn addr_bad_tag_is_malformed() {
    let bytes = [9u8, 1, 2, 3, 4, 0, 80];
    let e = parse_addr(&bytes).unwrap_err();
    assert!(e.is_protocol(ProtocolKind::Malformed));
}

#[test]
fn addr_truncated_is_malformed() {
    let bytes = [1u8, 10, 0];
    assert!(parse_addr(&bytes).is_err());
    let bytes = [3u8, 200, 1, 2];
    assert!(parse_addr(&bytes).is_err());
}

#[test]
fn no_auth_only_selects_no_auth() {
    assert_eq!(select_auth_method(&[0x00]), 0x00);
    let mut hs = Handshake::start(Session::new());
    hs.on_greeting(5, 1).unwrap();
    let (reply, r) = hs.on_methods(&[0x00]);
    assert_eq!(reply, [0x05, 0x00]);
    r.unwrap();
    // straight to the request phase: no credential request
    assert_eq!(hs.phase, Phase::Request);
}

#[test]
fn user_pass_preferred_over_no_auth() {
    assert_eq!(select_auth_method(&[0x00, 0x02]), 0x02);
    let mut hs = Handshake::start(Session::new());
    hs.on_greeting(5, 2).unwrap();
    let (reply, r) = hs.on_methods(&[0x00, 0x02]);
    assert_eq!(reply, [0x05, 0x02]);
    r.unwrap();
    assert_eq!(hs.phase, Phase::Auth);
}

#[test]
fn no_acceptable_method_fails() {
    assert_eq!(select_auth_method(&[0x05, 0x09]), 0xFF);
    let mut hs = Handshake::start(Session::new());
    hs.on_greeting(5, 2).unwrap();
    let (reply, r) = hs.on_methods(&[0x05, 0x09]);
    assert_eq!(reply, [0x05, 0xFF]);
    assert!(r.unwrap_err().is_auth_failure());
    assert_eq!(hs.phase, Phase::Failed);
}

#[test]
fn wrong_version_is_rejected() {
    let mut hs = Handshake::start(Session::new());
    let e = hs.on_greeting(4, 1).unwrap_err();
    assert!(e.is_protocol(ProtocolKind::UnsupportedVersion));
    assert_eq!(hs.phase, Phase::Failed);
}

#[test]
fn zero_method_count_is_malformed() {
    let mut hs = Handshake::start(Session::new());
    let e = hs.on_greeting(5, 0).unwrap_err();
    assert!(e.is_protocol(ProtocolKind::Malformed));
}

#[test]
fn bad_credentials_reply_and_close() {
    let users = users_fixture();
    assert!(!verify_credentials(&users, b"mallory", b"guess"));
    let mut hs = Handshake::start(Session::new());
    hs.on_greeting(5, 1).unwrap();
    let (_, r) = hs.on_methods(&[0x02]);
    r.unwrap();
    let (reply, r) = hs.on_auth(&users, b"mallory", b"guess");
    assert_eq!(reply, [0x01, 0x01]);
    assert!(r.unwrap_err().is_auth_failure());
    assert_eq!(hs.phase, Phase::Failed);
}

#[test]
fn good_credentials_reply_and_continue() {
    let users = users_fixture();
    assert!(verify_credentials(&users, b"alice", b"wonder"));
    let mut hs = Handshake::start(Session::new());
    hs.on_greeting(5, 1).unwrap();
    let (_, r) = hs.on_methods(&[0x02]);
    r.unwrap();
    let (reply, r) = hs.on_auth(&users, b"alice", b"wonder");
    assert_eq!(reply, [0x01, 0x00]);
    r.unwrap();
    assert_eq!(hs.phase, Phase::Request);
}

#[test]
fn connect_sets_destination_and_terminates() {
    let users = users_fixture();
    let mut hs = Handshake::start(Session::new());
    hs.on_greeting(5, 1).unwrap();
    let (_, r) = hs.on_methods(&[0x02]);
    r.unwrap();
    let (_, r) = hs.on_auth(&users, b"alice", b"wonder");
    r.unwrap();
    let dst = SocksAddr::Domain { name: b"example.com".to_vec(), port: 80 };
    let action = hs.on_request(5, 1, dst).unwrap();
    assert_eq!(action, RequestAction::Connect);
    // terminal phase: the stream is handed over exactly once, and
    // the machine accepts no further protocol bytes
    assert_eq!(hs.phase, Phase::Done { network: Network::Tcp });
    match &hs.session.destination {
        SocksAddr::Domain { name, port } => {
            assert_eq!(name, &b"example.com".to_vec());
            assert_eq!(*port, 80);
        }
        _ => panic!("expected the parsed domain as destination"),
    }
    assert_eq!(hs.session.network, Network::Tcp);
}

#[test]
fn connect_success_reply_is_exact() {
    let bnd = SocksAddr::V4 { ip: [127, 0, 0, 1], port: 1080 };
    let reply = encode_reply(0, &bnd);
    assert_eq!(&reply[..], &[0x05, 0x00, 0x00, 0x01, 127, 0, 0, 1, 0x04, 0x38][..]);
}

#[test]
fn udp_associate_reaches_relay_action() {
    let mut hs = Handshake::start(Session::new());
    hs.on_greeting(5, 1).unwrap();
    let (_, r) = hs.on_methods(&[0x00]);
    r.unwrap();
    let dst = SocksAddr::any_ipv4();
    let action = hs.on_request(5, 3, dst).unwrap();
    assert_eq!(action, RequestAction::UdpAssociate);
    assert_eq!(hs.phase, Phase::Done { network: Network::Udp });
    // the relay task serves a fresh datagram session
    let udp_sess = Session::new_udp();
    assert_eq!(udp_sess.network, Network::Udp);
}

#[test]
fn unsupported_command_is_refused_with_zero_address() {
    let mut hs = Handshake::start(Session::new());
    hs.on_greeting(5, 1).unwrap();
    let (_, r) = hs.on_methods(&[0x00]);
    r.unwrap();
    let e = hs.on_request(5, 2, SocksAddr::any_ipv4()).unwrap_err();
    assert!(e.is_protocol(ProtocolKind::UnsupportedCommand));
    let reply = encode_reply(7, &SocksAddr::any_ipv4());
    assert_eq!(&reply[..], &[0x05, 0x07, 0x00, 0x01, 0, 0, 0, 0, 0, 0][..]);
}

#[test]
fn credentials_are_raw_bytes() {
    // credential bytes need not be valid text and must still compare
    let users = vec![(vec![0xffu8, 0xfe], vec![0x80u8])];
    assert!(verify_credentials(&users, &[0xff, 0xfe], &[0x80]));
    assert!(!verify_credentials(&users, &[0xff], &[0x80]));
}

#[test]
fn transport_error_maps_to_abandonment() {
    let e = Error::AuthFailure;
    assert!(e.is_auth_failure());
    assert!(e.config_message().is_none());
}
