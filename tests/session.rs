use proxy::auth::{AuthError, UserConfig};
use proxy::protocol::{Address, ProtocolError};
use proxy::session::{ConnectOutcome, Next, Phase, Session, SessionError};

fn root_user() -> UserConfig {
    UserConfig { username: "root".to_string(), password: "1234".to_string() }
}

const ZERO_BOUND: [u8; 8] = [0x00, 0x01, 0, 0, 0, 0, 0, 0];

fn connect_reply(code: u8) -> Vec<u8> {
    let mut v = vec![0x05, code];
    v.extend_from_slice(&ZERO_BOUND);
    v
}

#[test]
fn scenario_no_auth_connect_and_relay() {
    let mut s = Session::new(None);
    let step = s.on_input(&[0x05, 0x01, 0x00], false);
    assert_eq!(step.reply, vec![0x05, 0x00]);
    assert_eq!(step.consumed, 3);
    assert!(matches!(step.next, Next::Proceed));
    assert_eq!(s.phase(), Phase::Request);

    let req = [0x05, 0x01, 0x00, 0x01, 0x7F, 0x00, 0x00, 0x01, 0x00, 0x50];
    let step = s.on_input(&req, false);
    assert_eq!(step.consumed, 10);
    assert!(step.reply.is_empty());
    match step.next {
        Next::Connect(r) => {
            assert_eq!(r.cmd, 0x01);
            assert_eq!(r.port, 80);
            match r.address {
                Address::IpV4(a) => assert_eq!(a, vec![127, 0, 0, 1]),
                other => panic!("unexpected address {:?}", other),
            }
        }
        other => panic!("unexpected next {:?}", other),
    }
    assert_eq!(s.phase(), Phase::Connecting);

    let step = s.on_connect(ConnectOutcome::Connected);
    assert_eq!(step.reply, vec![0x05, 0x00, 0x00, 0x01, 0x00, 0x00, 0x00, 0x00, 0x00, 0x00]);
    assert!(matches!(step.next, Next::Relay));
    assert_eq!(s.phase(), Phase::Relaying);
    s.on_relay_end();
    assert_eq!(s.phase(), Phase::Closed);
}

fn session_at_connecting() -> Session {
    let mut s = Session::new(None);
    s.on_input(&[0x05, 0x01, 0x00], false);
    let step = s.on_input(&[0x05, 0x01, 0x00, 0x03, 0x04, b'n', b'o', b'n', b'e', 0x01, 0xBB], false);
    assert!(matches!(step.next, Next::Connect(_)));
    s
}

#[test]
fn scenario_unreachable_host() {
    let mut s = session_at_connecting();
    let step = s.on_connect(ConnectOutcome::Failed);
    assert_eq!(step.reply, vec![0x05, 0x04, 0x00, 0x01, 0x00, 0x00, 0x00, 0x00, 0x00, 0x00]);
    assert!(matches!(step.next, Next::Close(SessionError::Connect(ConnectOutcome::Failed))));
    assert_eq!(s.phase(), Phase::Closed);
    assert!(!s.reads_input());
}

#[test]
fn connect_failures_map_to_reply_codes() {
    let cases = [
        (ConnectOutcome::TimedOut, 0x06),
        (ConnectOutcome::Refused, 0x05),
        (ConnectOutcome::NotAllowed, 0x02),
        (ConnectOutcome::Failed, 0x04),
    ];
    for (outcome, code) in cases {
        let mut s = session_at_connecting();
        let step = s.on_connect(outcome);
        assert_eq!(step.reply, connect_reply(code));
        assert!(matches!(step.next, Next::Close(SessionError::Connect(o)) if o == outcome));
    }
}

#[test]
fn scenario_bad_credentials() {
    let mut s = Session::new(Some(root_user()));
    let step = s.on_input(&[0x05, 0x01, 0x02], false);
    assert_eq!(step.reply, vec![0x05, 0x02]);
    assert_eq!(s.phase(), Phase::Auth);

    let mut frame = vec![0x01, 0x04];
    frame.extend_from_slice(b"root");
    frame.push(0x04);
    frame.extend_from_slice(b"4321");
    // a request frame already queued behind the auth frame is left unread
    let consumed_len = frame.len();
    frame.extend_from_slice(&[0x05, 0x01, 0x00, 0x01, 127, 0, 0, 1, 0, 80]);
    let step = s.on_input(&frame, false);
    assert_eq!(step.reply, vec![0x01, 0x01]);
    assert_eq!(step.consumed, consumed_len);
    assert!(matches!(step.next, Next::Close(SessionError::Auth(AuthError::BadCredentials))));
    assert_eq!(s.phase(), Phase::Closed);
    assert!(!s.reads_input());
}

#[test]
fn good_credentials_lead_to_request() {
    let mut s = Session::new(Some(root_user()));
    s.on_input(&[0x05, 0x02, 0x00, 0x02], false);
    let mut frame = vec![0x01, 0x04];
    frame.extend_from_slice(b"root");
    frame.push(0x04);
    frame.extend_from_slice(b"1234");
    let step = s.on_input(&frame, false);
    assert_eq!(step.reply, vec![0x01, 0x00]);
    assert_eq!(step.consumed, 11);
    assert!(matches!(step.next, Next::Proceed));
    assert_eq!(s.phase(), Phase::Request);
}

#[test]
fn scenario_bind_not_supported() {
    let mut s = Session::new(None);
    s.on_input(&[0x05, 0x01, 0x00], false);
    let step = s.on_input(&[0x05, 0x02, 0x00, 0x01, 10, 0, 0, 1, 0x1F, 0x90], false);
    assert_eq!(step.reply, connect_reply(0x07));
    assert!(matches!(step.next, Next::Close(SessionError::CommandNotSupported)));
    assert_eq!(s.phase(), Phase::Closed);
}

#[test]
fn no_auth_selected_without_credentials() {
    let mut s = Session::new(None);
    let step = s.on_input(&[0x05, 0x03, 0x80, 0x02, 0x00], false);
    assert_eq!(step.reply, vec![0x05, 0x00]);
    assert_eq!(s.phase(), Phase::Request);
}

#[test]
fn no_acceptable_method_without_no_auth_offer() {
    let mut s = Session::new(None);
    let step = s.on_input(&[0x05, 0x01, 0x02], false);
    assert_eq!(step.reply, vec![0x05, 0xFF]);
    assert!(matches!(step.next, Next::Close(SessionError::NoAcceptableMethod)));
}

#[test]
fn password_required_when_configured() {
    let mut s = Session::new(Some(root_user()));
    let step = s.on_input(&[0x05, 0x01, 0x00, 0x05, 0x01, 0x00], false);
    assert_eq!(step.reply, vec![0x05, 0xFF]);
    assert_eq!(step.consumed, 3);
    assert!(matches!(step.next, Next::Close(SessionError::NoAcceptableMethod)));
    assert_eq!(s.phase(), Phase::Closed);
    assert!(!s.reads_input());
}

#[test]
fn truncated_greeting_waits_then_closes_at_eof() {
    let mut s = Session::new(None);
    let step = s.on_input(&[0x05, 0x02, 0x00], false);
    assert!(matches!(step.next, Next::NeedMore));
    assert_eq!(step.consumed, 0);
    assert!(step.reply.is_empty());
    assert_eq!(s.phase(), Phase::Greeting);
    let step = s.on_input(&[0x05, 0x02, 0x00], true);
    assert!(matches!(step.next, Next::Close(SessionError::Protocol(ProtocolError::Truncated))));
    assert!(step.reply.is_empty());
    assert_eq!(s.phase(), Phase::Closed);
}

#[test]
fn wrong_version_greeting_closes_silently() {
    let mut s = Session::new(None);
    let step = s.on_input(&[0x04, 0x01, 0x00], false);
    assert!(step.reply.is_empty());
    assert!(matches!(
        step.next,
        Next::Close(SessionError::Protocol(ProtocolError::UnsupportedVersion))
    ));
}

#[test]
fn wrong_auth_version_closes() {
    let mut s = Session::new(Some(root_user()));
    s.on_input(&[0x05, 0x01, 0x02], false);
    let step = s.on_input(&[0x05, 0x00, 0x00], false);
    assert!(step.reply.is_empty());
    assert!(matches!(step.next, Next::Close(SessionError::Auth(AuthError::UnsupportedVersion))));
}

#[test]
fn truncated_auth_waits() {
    let mut s = Session::new(Some(root_user()));
    s.on_input(&[0x05, 0x01, 0x02], false);
    let step = s.on_input(&[0x01, 0x04, b'r', b'o'], false);
    assert!(matches!(step.next, Next::NeedMore));
    assert_eq!(s.phase(), Phase::Auth);
    let step = s.on_input(&[0x01, 0x04, b'r', b'o'], true);
    assert!(matches!(step.next, Next::Close(SessionError::Auth(AuthError::Truncated))));
}

#[test]
fn unknown_address_type_gets_reply() {
    let mut s = Session::new(None);
    s.on_input(&[0x05, 0x01, 0x00], false);
    let step = s.on_input(&[0x05, 0x01, 0x00, 0x02], false);
    assert_eq!(step.reply, connect_reply(0x08));
    assert!(matches!(
        step.next,
        Next::Close(SessionError::Protocol(ProtocolError::UnknownAddressType))
    ));
}

#[test]
fn request_with_wrong_version_closes_silently() {
    let mut s = Session::new(None);
    s.on_input(&[0x05, 0x01, 0x00], false);
    let step = s.on_input(&[0x04, 0x01, 0x00, 0x01, 1, 2, 3, 4, 0, 80], false);
    assert!(step.reply.is_empty());
    assert!(matches!(
        step.next,
        Next::Close(SessionError::Protocol(ProtocolError::UnsupportedVersion))
    ));
}
