use rusk_socks5::errors::ServerError;
use rusk_socks5::handlers::{Event, NextOp, Session, SessionState, Step};
use rusk_socks5::server::ServerConfig;

fn config(
    allow_anonymous: bool,
    username: Option<&str>,
    password: Option<&str>,
) -> ServerConfig {
    ServerConfig {
        address: "127.0.0.1".to_string(),
        port: 1080,
        allow_anonymous,
        username: username.map(|s| s.to_string()),
        password: password.map(|s| s.to_string()),
        dns_cache_capacity: 10_000,
        dns_cache_ttl_secs: 300,
        max_connections: 1024,
        ip_whitelist: Vec::new(),
    }
}

fn expect_read(st: &Step, n: usize) {
    assert!(st.reply.is_empty());
    match st.op {
        NextOp::Read { n: k } => assert_eq!(k, n),
        _ => panic!("expected a read"),
    }
}

/// Drives a machine from the greeting through an anonymous method
/// selection, checking each read size on the way.
fn run_anonymous_greeting(s: Session) -> Session {
    let (s, st) = s.step(Event::Bytes(vec![5]));
    expect_read(&st, 1);
    let (s, st) = s.step(Event::Bytes(vec![1]));
    expect_read(&st, 1);
    let (s, st) = s.step(Event::Bytes(vec![0]));
    assert_eq!(st.reply, vec![5, 0]);
    match st.op {
        NextOp::Read { n } => assert_eq!(n, 1),
        _ => panic!("expected a read"),
    }
    s
}

#[test]
fn anonymous_connect_to_loopback() {
    // Anonymous CONNECT to 127.0.0.1:9 with allow_anonymous = true.
    let cfg = config(true, None, None);
    let s = Session::new(&cfg);
    let s = run_anonymous_greeting(s);
    // Request: 05 01 00 01 7F 00 00 01 00 09, one field at a time.
    let (s, st) = s.step(Event::Bytes(vec![5]));
    expect_read(&st, 1);
    let (s, st) = s.step(Event::Bytes(vec![1]));
    expect_read(&st, 1);
    let (s, st) = s.step(Event::Bytes(vec![0]));
    expect_read(&st, 1);
    let (s, st) = s.step(Event::Bytes(vec![1]));
    expect_read(&st, 4);
    let (s, st) = s.step(Event::Bytes(vec![127, 0, 0, 1]));
    expect_read(&st, 2);
    let (s, st) = s.step(Event::Bytes(vec![0, 9]));
    assert!(st.reply.is_empty());
    match st.op {
        NextOp::Dial { host, port, resolve } => {
            assert_eq!(host, b"127.0.0.1".to_vec());
            assert_eq!(port, 9);
            assert!(!resolve);
        }
        _ => panic!("expected a dial"),
    }
    let (s, st) = s.step(Event::DialSucceeded);
    assert_eq!(st.reply, vec![5, 0, 0, 1, 0, 0, 0, 0, 0, 0]);
    assert!(matches!(st.op, NextOp::Relay));
    assert!(matches!(s.state, SessionState::Relaying));
}

#[test]
fn password_success() {
    // Config username "u", password "p"; client offers 00 and 02.
    let cfg = config(false, Some("u"), Some("p"));
    let s = Session::new(&cfg);
    let (s, st) = s.step(Event::Bytes(vec![5]));
    expect_read(&st, 1);
    let (s, st) = s.step(Event::Bytes(vec![2]));
    expect_read(&st, 2);
    let (s, st) = s.step(Event::Bytes(vec![0, 2]));
    assert_eq!(st.reply, vec![5, 2]);
    match st.op {
        NextOp::Read { n } => assert_eq!(n, 2),
        _ => panic!("expected a read"),
    }
    // Sub-negotiation: 01 01 75 01 70.
    let (s, st) = s.step(Event::Bytes(vec![1, 1]));
    expect_read(&st, 1);
    let (s, st) = s.step(Event::Bytes(vec![0x75]));
    expect_read(&st, 1);
    let (s, st) = s.step(Event::Bytes(vec![1]));
    expect_read(&st, 1);
    let (s, st) = s.step(Event::Bytes(vec![0x70]));
    assert_eq!(st.reply, vec![5, 0]);
    match st.op {
        NextOp::Read { n } => assert_eq!(n, 1),
        _ => panic!("expected a read"),
    }
    assert!(matches!(s.state, SessionState::RequestVersion));
}

#[test]
fn password_failure() {
    // Wrong password: client sends 70 70 as the credentials.
    let cfg = config(false, Some("u"), Some("p"));
    let s = Session::new(&cfg);
    let (s, _) = s.step(Event::Bytes(vec![5]));
    let (s, _) = s.step(Event::Bytes(vec![2]));
    let (s, st) = s.step(Event::Bytes(vec![0, 2]));
    assert_eq!(st.reply, vec![5, 2]);
    let (s, _) = s.step(Event::Bytes(vec![1, 1]));
    let (s, _) = s.step(Event::Bytes(vec![0x70]));
    let (s, _) = s.step(Event::Bytes(vec![1]));
    let (s, st) = s.step(Event::Bytes(vec![0x70]));
    assert_eq!(st.reply, vec![5, 1]);
    match st.op {
        NextOp::Fail { err } => match err {
            ServerError::AuthenticationFailed(m) => {
                assert_eq!(m, "Invalid username or password");
            }
            _ => panic!("expected an authentication failure"),
        },
        _ => panic!("expected a failure"),
    }
    assert!(matches!(s.state, SessionState::Closed));
}

#[test]
fn no_acceptable_methods() {
    // allow_anonymous = false and no password configured.
    let cfg = config(false, None, None);
    let s = Session::new(&cfg);
    let (s, _) = s.step(Event::Bytes(vec![5]));
    let (s, _) = s.step(Event::Bytes(vec![1]));
    let (s, st) = s.step(Event::Bytes(vec![0]));
    assert_eq!(st.reply, vec![5, 0xFF]);
    match st.op {
        NextOp::Fail { err } => {
            assert!(matches!(err, ServerError::AuthenticationFailed(_)))
        }
        _ => panic!("expected a failure"),
    }
    assert!(matches!(s.state, SessionState::Closed));
}

#[test]
fn password_preferred_over_anonymous() {
    // Both methods offered and both acceptable: password is chosen.
    let cfg = ServerConfig { allow_anonymous: true, ..config(true, Some("u"), Some("p")) };
    let s = Session::new(&cfg);
    let (s, _) = s.step(Event::Bytes(vec![5]));
    let (s, _) = s.step(Event::Bytes(vec![2]));
    let (_, st) = s.step(Event::Bytes(vec![0, 2]));
    assert_eq!(st.reply, vec![5, 2]);
}

#[test]
fn unsupported_command_bind() {
    // After successful auth, client sends a BIND request.
    let cfg = config(true, None, None);
    let s = Session::new(&cfg);
    let s = run_anonymous_greeting(s);
    let (s, _) = s.step(Event::Bytes(vec![5]));
    let (s, st) = s.step(Event::Bytes(vec![2]));
    assert_eq!(st.reply, vec![5, 7, 0, 1, 0, 0, 0, 0]);
    match st.op {
        NextOp::Fail { err } => match err {
            ServerError::UnsupportedCmd(c) => assert_eq!(c, 2),
            _ => panic!("expected the unsupported command"),
        },
        _ => panic!("expected a failure"),
    }
    assert!(matches!(s.state, SessionState::Closed));
}

#[test]
fn unsupported_command_udp_associate() {
    let cfg = config(true, None, None);
    let s = Session::new(&cfg);
    let s = run_anonymous_greeting(s);
    let (_, _) = {
        let (s, _) = s.step(Event::Bytes(vec![5]));
        let (s, st) = s.step(Event::Bytes(vec![3]));
        assert_eq!(st.reply, vec![5, 7, 0, 1, 0, 0, 0, 0]);
        match st.op {
            NextOp::Fail { err } => {
                assert!(matches!(err, ServerError::UnsupportedCmd(3)))
            }
            _ => panic!("expected a failure"),
        }
        (s, ())
    };
}

#[test]
fn wrong_greeting_version() {
    let cfg = config(true, None, None);
    let s = Session::new(&cfg);
    let (s, st) = s.step(Event::Bytes(vec![4]));
    assert!(st.reply.is_empty());
    match st.op {
        NextOp::Fail { err } => {
            assert!(matches!(err, ServerError::UnsupportedProtocolVersion))
        }
        _ => panic!("expected a failure"),
    }
    assert!(matches!(s.state, SessionState::Closed));
}

#[test]
fn wrong_request_version() {
    let cfg = config(true, None, None);
    let s = Session::new(&cfg);
    let s = run_anonymous_greeting(s);
    let (_, st) = s.step(Event::Bytes(vec![4]));
    assert!(st.reply.is_empty());
    match st.op {
        NextOp::Fail { err } => {
            assert!(matches!(err, ServerError::UnsupportedProtocolVersion))
        }
        _ => panic!("expected a failure"),
    }
}

#[test]
fn unknown_command_is_invalid_format() {
    let cfg = config(true, None, None);
    let s = Session::new(&cfg);
    let s = run_anonymous_greeting(s);
    let (s, _) = s.step(Event::Bytes(vec![5]));
    let (_, st) = s.step(Event::Bytes(vec![9]));
    assert!(st.reply.is_empty());
    match st.op {
        NextOp::Fail { err } => {
            assert!(matches!(err, ServerError::InvalidRequestFormat))
        }
        _ => panic!("expected a failure"),
    }
}

#[test]
fn unknown_address_type_is_invalid_format() {
    let cfg = config(true, None, None);
    let s = Session::new(&cfg);
    let s = run_anonymous_greeting(s);
    let (s, _) = s.step(Event::Bytes(vec![5]));
    let (s, _) = s.step(Event::Bytes(vec![1]));
    let (s, _) = s.step(Event::Bytes(vec![0]));
    let (_, st) = s.step(Event::Bytes(vec![2]));
    match st.op {
        NextOp::Fail { err } => {
            assert!(matches!(err, ServerError::InvalidRequestFormat))
        }
        _ => panic!("expected a failure"),
    }
}

#[test]
fn non_utf8_password_is_invalid_format() {
    // Invalid UTF-8 credentials end the connection without any reply.
    let cfg = config(false, Some("u"), Some("p"));
    let s = Session::new(&cfg);
    let (s, _) = s.step(Event::Bytes(vec![5]));
    let (s, _) = s.step(Event::Bytes(vec![1]));
    let (s, _) = s.step(Event::Bytes(vec![2]));
    let (s, _) = s.step(Event::Bytes(vec![1, 1]));
    let (s, _) = s.step(Event::Bytes(vec![0xFF]));
    let (s, _) = s.step(Event::Bytes(vec![1]));
    let (_, st) = s.step(Event::Bytes(vec![0x70]));
    assert!(st.reply.is_empty());
    match st.op {
        NextOp::Fail { err } => {
            assert!(matches!(err, ServerError::InvalidRequestFormat))
        }
        _ => panic!("expected a failure"),
    }
}

#[test]
fn domain_target_resolves_through_cache() {
    let cfg = config(true, None, None);
    let s = Session::new(&cfg);
    let s = run_anonymous_greeting(s);
    let (s, _) = s.step(Event::Bytes(vec![5]));
    let (s, _) = s.step(Event::Bytes(vec![1]));
    let (s, _) = s.step(Event::Bytes(vec![0]));
    let (s, st) = s.step(Event::Bytes(vec![3]));
    expect_read(&st, 1);
    let (s, st) = s.step(Event::Bytes(vec![11]));
    expect_read(&st, 11);
    let (s, st) = s.step(Event::Bytes(b"example.com".to_vec()));
    expect_read(&st, 2);
    let (_, st) = s.step(Event::Bytes(vec![1, 187]));
    match st.op {
        NextOp::Dial { host, port, resolve } => {
            assert_eq!(host, b"example.com".to_vec());
            assert_eq!(port, 443);
            assert!(resolve);
        }
        _ => panic!("expected a dial"),
    }
}

#[test]
fn ipv6_target_is_formatted_without_compression() {
    let cfg = config(true, None, None);
    let s = Session::new(&cfg);
    let s = run_anonymous_greeting(s);
    let (s, _) = s.step(Event::Bytes(vec![5]));
    let (s, _) = s.step(Event::Bytes(vec![1]));
    let (s, _) = s.step(Event::Bytes(vec![0]));
    let (s, st) = s.step(Event::Bytes(vec![4]));
    expect_read(&st, 16);
    let addr = vec![
        0x20, 0x01, 0x0d, 0xb8, 0, 0, 0, 0, 0, 0, 0, 0, 0, 0, 0, 0x01,
    ];
    let (s, st) = s.step(Event::Bytes(addr));
    expect_read(&st, 2);
    let (_, st) = s.step(Event::Bytes(vec![0, 80]));
    match st.op {
        NextOp::Dial { host, port, resolve } => {
            assert_eq!(host, b"2001:db8:0:0:0:0:0:1".to_vec());
            assert_eq!(port, 80);
            assert!(!resolve);
        }
        _ => panic!("expected a dial"),
    }
}

#[test]
fn dial_failure_echoes_address_type() {
    // The failure reply is 8 bytes and carries the requested ATYP.
    let cfg = config(true, None, None);
    let s = Session::new(&cfg);
    let s = run_anonymous_greeting(s);
    let (s, _) = s.step(Event::Bytes(vec![5]));
    let (s, _) = s.step(Event::Bytes(vec![1]));
    let (s, _) = s.step(Event::Bytes(vec![0]));
    let (s, _) = s.step(Event::Bytes(vec![3]));
    let (s, _) = s.step(Event::Bytes(vec![4]));
    let (s, _) = s.step(Event::Bytes(b"host".to_vec()));
    let (s, _) = s.step(Event::Bytes(vec![0, 80]));
    let (s, st) = s.step(Event::DialFailed { msg: "refused".to_string() });
    assert_eq!(st.reply, vec![5, 1, 0, 3, 0, 0, 0, 0]);
    match st.op {
        NextOp::Fail { err } => match err {
            ServerError::ConnectionError(m) => assert_eq!(m, "refused"),
            _ => panic!("expected a connection error"),
        },
        _ => panic!("expected a failure"),
    }
    assert!(matches!(s.state, SessionState::Closed));
}

#[test]
fn resolve_failure_is_silent() {
    let cfg = config(true, None, None);
    let s = Session::new(&cfg);
    let s = run_anonymous_greeting(s);
    let (s, _) = s.step(Event::Bytes(vec![5]));
    let (s, _) = s.step(Event::Bytes(vec![1]));
    let (s, _) = s.step(Event::Bytes(vec![0]));
    let (s, _) = s.step(Event::Bytes(vec![3]));
    let (s, _) = s.step(Event::Bytes(vec![4]));
    let (s, _) = s.step(Event::Bytes(b"host".to_vec()));
    let (s, _) = s.step(Event::Bytes(vec![0, 80]));
    let (_, st) = s.step(Event::ResolveFailed { msg: "no address".to_string() });
    assert!(st.reply.is_empty());
    match st.op {
        NextOp::Fail { err } => match err {
            ServerError::IoError(m) => assert_eq!(m, "no address"),
            _ => panic!("expected an io error"),
        },
        _ => panic!("expected a failure"),
    }
}

#[test]
fn empty_method_list_is_rejected() {
    let cfg = config(true, None, None);
    let s = Session::new(&cfg);
    let (s, _) = s.step(Event::Bytes(vec![5]));
    let (s, st) = s.step(Event::Bytes(vec![0]));
    match st.op {
        NextOp::Read { n } => assert_eq!(n, 0),
        _ => panic!("expected a read"),
    }
    let (_, st) = s.step(Event::Bytes(Vec::new()));
    assert_eq!(st.reply, vec![5, 0xFF]);
}
