use socks5_relay::destination::Destination;
use socks5_relay::error::ProxyError;
use socks5_relay::handshake::{ClientEvent, Demand, Handshake, HandshakeState};
use socks5_relay::session::{Action, Session, SessionEvent};

fn received(bytes: &[u8]) -> SessionEvent {
    SessionEvent::Client(ClientEvent::Received(bytes.to_vec()))
}

fn sent() -> SessionEvent {
    SessionEvent::Client(ClientEvent::Sent)
}

/// Plays a client's stream into a session until it asks for something that
/// the stream cannot answer, and returns the session with what was written.
fn play(stream: &[u8]) -> (Session, Vec<u8>, usize) {
    let mut session = Session::new();
    let mut written = Vec::new();
    let mut at = 0;
    loop {
        let event = match session.action() {
            Action::Read(count) => {
                if at + count <= stream.len() {
                    at += count;
                    received(&stream[at - count..at])
                } else {
                    at = stream.len();
                    SessionEvent::Client(ClientEvent::Failed)
                }
            }
            Action::Write(bytes) => {
                written.extend_from_slice(&bytes);
                sent()
            }
            _ => return (session, written, at),
        };
        session = session.advance(event);
    }
}

#[test]
fn session_to_ipv4_target_end_to_end() {
    let mut stream = vec![0x05, 0x01, 0x00];
    stream.extend_from_slice(&[0x05, 0x01, 0x00, 0x01, 0x7f, 0x00, 0x00, 0x01, 0x00, 0x50]);
    let (session, written, at) = play(&stream);
    assert_eq!(written, vec![0x05, 0x00]);
    assert_eq!(at, stream.len());
    assert_eq!(
        session.action(),
        Action::Connect(Destination::new("127.0.0.1".to_string(), 80))
    );

    let session = session.advance(SessionEvent::Connected);
    assert_eq!(
        session.action(),
        Action::Write(vec![0x05, 0x00, 0x00, 0x01, 0x00, 0x00, 0x00, 0x00, 0x00, 0x00])
    );
    let session = session.advance(sent());
    assert_eq!(session.action(), Action::Relay);
    assert!(matches!(&session, Session::Relaying(d) if d.host == "127.0.0.1" && d.port == 80));

    let session = session.advance(SessionEvent::RelayEnded);
    assert_eq!(session.action(), Action::Close(Ok(())));
}

#[test]
fn session_to_domain_target_asks_upstream_for_the_name() {
    let mut stream = vec![5, 1, 0, 5, 1, 0, 3, 11];
    stream.extend_from_slice(b"example.com");
    stream.extend_from_slice(&[0x01, 0xbb]);
    let (session, written, _) = play(&stream);
    assert_eq!(written, vec![0x05, 0x00]);
    assert_eq!(
        session.action(),
        Action::Connect(Destination::new("example.com".to_string(), 443))
    );
}

#[test]
fn session_reads_in_the_order_of_the_protocol() {
    let mut session = Session::new();
    assert_eq!(session.action(), Action::Read(2));
    session = session.advance(received(&[5, 2]));
    assert_eq!(session.action(), Action::Read(2));
    session = session.advance(received(&[0, 2]));
    assert_eq!(session.action(), Action::Write(vec![5, 0]));
    session = session.advance(sent());
    assert_eq!(session.action(), Action::Read(4));
    session = session.advance(received(&[5, 1, 0, 3]));
    assert_eq!(session.action(), Action::Read(1));
    session = session.advance(received(&[4]));
    assert_eq!(session.action(), Action::Read(4));
    session = session.advance(received(b"a.io"));
    assert_eq!(session.action(), Action::Read(2));
    session = session.advance(received(&[0x1f, 0x90]));
    assert_eq!(session.action(), Action::Connect(Destination::new("a.io".to_string(), 8080)));
}

#[test]
fn session_with_wrong_version_closes_after_two_bytes() {
    let (session, written, at) = play(&[4, 1, 0, 4, 1, 0, 80, 127, 0, 0, 1, 0]);
    assert_eq!(at, 2);
    assert!(written.is_empty());
    assert_eq!(session.action(), Action::Close(Err(ProxyError::UnsupportedVersion)));
}

#[test]
fn session_with_unsupported_command_closes() {
    let (session, _, at) = play(&[5, 1, 0, 5, 2, 0, 1, 127, 0, 0, 1, 0, 80]);
    assert_eq!(at, 7);
    assert_eq!(session.action(), Action::Close(Err(ProxyError::UnsupportedCommand)));
}

#[test]
fn session_with_ipv6_target_closes() {
    let (session, _, at) = play(&[5, 1, 0, 5, 1, 0, 4, 0, 0, 0, 0]);
    assert_eq!(at, 7);
    assert_eq!(session.action(), Action::Close(Err(ProxyError::UnsupportedAddressType)));
}

#[test]
fn session_with_invalid_host_text_closes_without_relaying() {
    let (mut session, _, at) = play(&[5, 1, 0, 5, 1, 0, 3, 2, 0xc3, 0x28, 0, 80]);
    assert_eq!(at, 10);
    assert_eq!(session.action(), Action::Close(Err(ProxyError::MalformedRequest)));
    for event in [SessionEvent::Connected, sent(), SessionEvent::RelayEnded] {
        session = session.advance(event);
        assert_eq!(session.action(), Action::Close(Err(ProxyError::MalformedRequest)));
    }
}

#[test]
fn session_with_truncated_stream_closes() {
    let (session, _, _) = play(&[5, 1, 0, 5, 1]);
    assert_eq!(session.action(), Action::Close(Err(ProxyError::MalformedRequest)));
}

#[test]
fn session_fails_when_upstream_refuses() {
    let (session, _, _) = play(&[5, 1, 0, 5, 1, 0, 1, 10, 0, 0, 1, 0, 80]);
    let session = session.advance(SessionEvent::ConnectFailed);
    assert_eq!(session.action(), Action::Close(Err(ProxyError::UpstreamConnectFailed)));
    let session = session.advance(SessionEvent::Connected);
    assert_eq!(session.action(), Action::Close(Err(ProxyError::UpstreamConnectFailed)));
}

#[test]
fn session_fails_when_relay_fails() {
    let (session, _, _) = play(&[5, 1, 0, 5, 1, 0, 1, 10, 0, 0, 1, 0, 80]);
    let session = session.advance(SessionEvent::Connected).advance(sent());
    assert_eq!(session.action(), Action::Relay);
    let session = session.advance(SessionEvent::RelayFailed);
    assert_eq!(session.action(), Action::Close(Err(ProxyError::RelayIOError)));
}

#[test]
fn session_fails_when_success_reply_cannot_be_written() {
    let (session, _, _) = play(&[5, 1, 0, 5, 1, 0, 1, 10, 0, 0, 1, 0, 80]);
    let session = session.advance(SessionEvent::Connected);
    let session = session.advance(SessionEvent::Client(ClientEvent::Failed));
    assert_eq!(session.action(), Action::Close(Err(ProxyError::RelayIOError)));
}

#[test]
fn session_does_not_relay_before_the_upstream_stands() {
    let mut session = Session::new();
    session = session.advance(SessionEvent::Connected);
    assert_eq!(session.action(), Action::Close(Err(ProxyError::MalformedRequest)));

    let mut session = Session::new();
    session = session.advance(received(&[5, 0]));
    session = session.advance(SessionEvent::RelayEnded);
    assert_eq!(session.action(), Action::Close(Err(ProxyError::MalformedRequest)));
}

#[test]
fn read_of_the_wrong_length_is_malformed() {
    let session = Session::new().advance(received(&[5, 1, 0]));
    assert_eq!(session.action(), Action::Close(Err(ProxyError::MalformedRequest)));
    let session = Session::new().advance(received(&[5, 2])).advance(received(&[0]));
    assert_eq!(session.action(), Action::Close(Err(ProxyError::MalformedRequest)));
}

#[test]
fn concurrent_sessions_are_independent() {
    let first = [5u8, 1, 0, 5, 1, 0, 1, 10, 0, 0, 1, 0, 80];
    let mut second = vec![5u8, 1, 0, 5, 1, 0, 3, 7];
    second.extend_from_slice(b"b.local");
    second.extend_from_slice(&[0x01, 0xbb]);

    let mut a = Session::new();
    let mut b = Session::new();
    a = a.advance(received(&first[0..2]));
    b = b.advance(received(&second[0..2]));
    b = b.advance(received(&second[2..3]));
    a = a.advance(received(&first[2..3]));
    a = a.advance(sent());
    a = a.advance(received(&first[3..7]));
    b = b.advance(sent());
    // the first session is cut off early
    a = a.advance(SessionEvent::Client(ClientEvent::Failed));
    b = b.advance(received(&second[3..7]));
    b = b.advance(received(&second[7..8]));
    b = b.advance(received(&second[8..15]));
    b = b.advance(received(&second[15..17]));
    assert_eq!(a.action(), Action::Close(Err(ProxyError::MalformedRequest)));
    assert_eq!(b.action(), Action::Connect(Destination::new("b.local".to_string(), 443)));
    b = b.advance(SessionEvent::Connected).advance(sent());
    assert_eq!(b.action(), Action::Relay);

    let (alone, _, _) = play(&second);
    assert_eq!(alone.action(), Action::Connect(Destination::new("b.local".to_string(), 443)));
}

#[test]
fn handshake_states_follow_the_protocol() {
    let mut h = Handshake::new();
    assert_eq!(h.state(), HandshakeState::AwaitGreeting);
    assert_eq!(h.demand(), Demand::Read(2));
    h = h.advance(ClientEvent::Received(vec![5, 0]));
    assert_eq!(h.state(), HandshakeState::AwaitGreeting);
    assert_eq!(h.demand(), Demand::Read(0));
    h = h.advance(ClientEvent::Received(vec![]));
    assert_eq!(h.demand(), Demand::Write(vec![5, 0]));
    h = h.advance(ClientEvent::Sent);
    assert_eq!(h.state(), HandshakeState::AwaitRequest);
    h = h.advance(ClientEvent::Received(vec![5, 1, 0, 1]));
    assert_eq!(h.state(), HandshakeState::AwaitRequest);
    h = h.advance(ClientEvent::Received(vec![1, 1, 1, 1]));
    h = h.advance(ClientEvent::Received(vec![0, 53]));
    assert_eq!(h.state(), HandshakeState::Parsed);
    assert_eq!(h.demand(), Demand::Stop);
    assert!(matches!(&h, Handshake::Parsed(d) if d.host == "1.1.1.1" && d.port == 53));
    h = h.advance(ClientEvent::Received(vec![9, 9]));
    assert!(matches!(&h, Handshake::Parsed(d) if d.host == "1.1.1.1" && d.port == 53));
}

#[test]
fn handshake_error_is_final() {
    let mut h = Handshake::new().advance(ClientEvent::Received(vec![3, 1]));
    assert_eq!(h.state(), HandshakeState::Error);
    assert_eq!(h.demand(), Demand::Stop);
    for event in [ClientEvent::Received(vec![5, 1]), ClientEvent::Sent, ClientEvent::Failed] {
        h = h.advance(event);
        assert!(matches!(h, Handshake::Error(ProxyError::UnsupportedVersion)));
    }
}

#[test]
fn handshake_fails_when_the_method_reply_cannot_be_written() {
    let h = Handshake::new()
        .advance(ClientEvent::Received(vec![5, 0]))
        .advance(ClientEvent::Received(vec![]))
        .advance(ClientEvent::Failed);
    assert!(matches!(h, Handshake::Error(ProxyError::MalformedRequest)));
}
