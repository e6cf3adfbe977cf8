use mc_cli::error::RconError;
use mc_cli::packet::{build_packet, decode, Packet, AUTHENTICATE, EXEC_COMMAND};
use mc_cli::session::{RconSession, SessionState, AUTH_FAILED_ID, CLIENT_ID};

/// A server stand-in: takes the bytes of one request and gives the bytes of
/// its reply. It accepts any password, and answers a command with
/// `OK:` and the command.
fn echo_server(request: &[u8]) -> Vec<u8> {
    let p = decode(request).unwrap();
    if p.kind == AUTHENTICATE {
        build_packet(p.id, 2, "").to_bytes()
    } else {
        let reply = format!("OK:{}", p.payload);
        build_packet(p.id, 0, &reply).to_bytes()
    }
}

/// A server stand-in that refuses every password.
fn refusing_server(request: &[u8]) -> Vec<u8> {
    let p = decode(request).unwrap();
    build_packet(AUTH_FAILED_ID, 2, &p.payload).to_bytes()
}

fn connect(server: fn(&[u8]) -> Vec<u8>, password: &str) -> (RconSession, Result<(), RconError>) {
    let mut session = RconSession::new();
    session.begin_connect();
    let request = session.auth_request(password).unwrap();
    let reply = decode(&server(&request));
    let outcome = session.on_auth_reply(reply);
    (session, outcome)
}

fn packet(id: i32, kind: i32, payload: &str) -> Packet {
    build_packet(id, kind, payload)
}

#[test]
fn end_to_end_echo() {
    let (mut session, outcome) = connect(echo_server, "secret");
    assert_eq!(outcome, Ok(()));
    assert_eq!(session.state(), SessionState::Ready);
    let request = session.exec_request("list").unwrap();
    let reply = decode(&echo_server(&request));
    assert_eq!(session.on_exec_reply(reply).unwrap(), "OK:list");
}

#[test]
fn end_to_end_refused_password() {
    let (session, outcome) = connect(refusing_server, "wrong");
    assert_eq!(outcome, Err(RconError::Auth));
    assert_eq!(session.state(), SessionState::Failed);
    assert!(!session.is_ready());
    assert!(matches!(session.exec_request("list"), Err(RconError::NotReady)));
}

#[test]
fn auth_request_carries_password() {
    let mut session = RconSession::new();
    session.begin_connect();
    assert_eq!(session.state(), SessionState::Connecting);
    let bytes = session.auth_request("pw").unwrap();
    assert_eq!(session.state(), SessionState::Authenticating);
    let p = decode(&bytes).unwrap();
    assert_eq!(p.id, CLIENT_ID);
    assert_eq!(p.kind, AUTHENTICATE);
    assert_eq!(p.payload, "pw");
}

#[test]
fn auth_fails_on_minus_one_whatever_kind_and_payload() {
    for (kind, payload) in [(0, ""), (2, "welcome"), (3, "x"), (-7, "anything")] {
        let mut session = RconSession::new();
        session.begin_connect();
        session.auth_request("pw").unwrap();
        let outcome = session.on_auth_reply(Ok(packet(-1, kind, payload)));
        assert_eq!(outcome, Err(RconError::Auth));
        assert_eq!(session.state(), SessionState::Failed);
    }
}

#[test]
fn auth_accepts_any_other_id() {
    for id in [CLIENT_ID, 0, 42, -2] {
        let mut session = RconSession::new();
        session.begin_connect();
        session.auth_request("pw").unwrap();
        assert_eq!(session.on_auth_reply(Ok(packet(id, 2, ""))), Ok(()));
        assert!(session.is_ready());
    }
}

#[test]
fn auth_framing_error_fails_session() {
    let mut session = RconSession::new();
    session.begin_connect();
    session.auth_request("pw").unwrap();
    assert_eq!(session.on_auth_reply(Err(RconError::Framing)), Err(RconError::Framing));
    assert_eq!(session.state(), SessionState::Failed);
}

#[test]
fn connect_failure_is_reported() {
    let mut session = RconSession::new();
    session.begin_connect();
    assert_eq!(session.connect_failed(), RconError::Connect);
    assert_eq!(session.state(), SessionState::Failed);
}

#[test]
fn correlation_error_keeps_session_usable() {
    let (mut session, _) = connect(echo_server, "pw");
    session.exec_request("list").unwrap();
    let wrong = session.on_exec_reply(Ok(packet(CLIENT_ID + 1, 0, "stray")));
    assert!(matches!(wrong, Err(RconError::Correlation)));
    assert!(session.is_ready());
    let request = session.exec_request("list").unwrap();
    let right = session.on_exec_reply(decode(&echo_server(&request)));
    assert_eq!(right.unwrap(), "OK:list");
}

#[test]
fn framing_error_keeps_session_usable() {
    let (mut session, _) = connect(echo_server, "pw");
    let r = session.on_exec_reply(Err(RconError::Framing));
    assert!(matches!(r, Err(RconError::Framing)));
    assert!(session.is_ready());
}

#[test]
fn empty_reply_is_a_reply() {
    let (mut session, _) = connect(echo_server, "pw");
    let r = session.on_exec_reply(Ok(packet(CLIENT_ID, 0, "")));
    assert_eq!(r.unwrap(), "");
}

#[test]
fn command_before_ready_is_refused() {
    let mut session = RconSession::new();
    assert!(matches!(session.exec_request("list"), Err(RconError::NotReady)));
    assert!(matches!(session.on_exec_reply(Ok(packet(CLIENT_ID, 0, "x"))), Err(RconError::NotReady)));
    assert!(matches!(session.auth_request("pw"), Err(RconError::NotReady)));
    assert_eq!(session.state(), SessionState::Disconnected);
}

#[test]
fn exec_request_frame() {
    let (session, _) = connect(echo_server, "pw");
    let bytes = session.exec_request("say hi").unwrap();
    let p = decode(&bytes).unwrap();
    assert_eq!((p.id, p.kind, p.payload.as_str()), (CLIENT_ID, EXEC_COMMAND, "say hi"));
}

#[test]
fn oversized_command_is_refused() {
    let (session, _) = connect(echo_server, "pw");
    assert!(session.exec_request(&"x".repeat(4086)).is_ok());
    assert!(matches!(session.exec_request(&"x".repeat(4087)), Err(RconError::Framing)));
}

#[test]
fn close_ends_session() {
    let (mut session, _) = connect(echo_server, "pw");
    session.close();
    assert_eq!(session.state(), SessionState::Closed);
    assert!(matches!(session.exec_request("list"), Err(RconError::NotReady)));
}

#[test]
fn error_messages() {
    assert_eq!(RconError::Auth.message(), "authentication failed");
    assert_eq!(RconError::Correlation.message(), "invalid response id");
    assert_eq!(RconError::Framing.message(), "invalid packet framing");
}

use mc_cli::console::{ConsoleAction, ConsoleLoop};

/// Drives the console over `lines` against a server stand-in that answers
/// `stop` with a stray id, and gives the types of the packets sent.
fn console_run(lines: &[&str]) -> Vec<i32> {
    let (mut session, outcome) = connect(echo_server, "pw");
    assert_eq!(outcome, Ok(()));
    let mut console = ConsoleLoop::new();
    let mut sent = Vec::new();
    let mut input = lines.iter();
    while !console.is_finished() {
        if let ConsoleAction::Execute(cmd) = console.on_line(input.next().copied()) {
            let request = session.exec_request(&cmd).unwrap();
            sent.push(decode(&request).unwrap().kind);
            let reply = if cmd == "stop" {
                Ok(packet(CLIENT_ID + 7, 0, ""))
            } else {
                decode(&echo_server(&request))
            };
            let _ = session.on_exec_reply(reply);
            console.on_reply();
        }
    }
    sent
}

#[test]
fn console_blank_then_quit_sends_no_packet() {
    assert!(console_run(&["", "Q"]).is_empty());
}

#[test]
fn console_stop_sends_two_commands_even_on_error() {
    assert_eq!(console_run(&["say hi", "stop", "list"]), vec![EXEC_COMMAND, EXEC_COMMAND]);
}
