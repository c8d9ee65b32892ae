use pubsub_relay::access::AccessCheck;
use pubsub_relay::cipher::{create_key, create_keys, decrypt_id, Key, TokenError};
use pubsub_relay::registry::Registry;
use pubsub_relay::websocket::{
    create_handler, forwards_inbound, goes_on_after_send, join_tokens, next_outbound, parse_bytes, ping_message,
    post_data, read_message, routed_outcome, send_message, status_code, user_connected,
    user_disconnected, Inbound, IngestOutcome, Outbound, Session, SessionState, WriteEvent,
    MAX_BODY_LEN, TICK_SECS,
};
use tokio::sync::mpsc::error::TryRecvError;
use tokio::sync::mpsc::unbounded_channel;

fn text_of(frame: Option<Outbound>) -> String {
    match frame {
        Some(Outbound::Text(text)) => text,
        other => panic!("no text frame: {:?}", other),
    }
}

fn payload_of(frame: Option<Outbound>) -> Vec<u8> {
    match frame {
        Some(Outbound::Ping(payload)) => payload,
        other => panic!("no probe: {:?}", other),
    }
}

#[test]
fn a_reader_is_registered_under_its_base() {
    let mut registry = Registry::new();
    let mut outbox = user_connected(&mut registry, 11).unwrap();
    assert!(registry.is_registered(10));
    assert!(!registry.is_registered(11));
    assert_eq!(registry.len(), 1);
    assert!(registry.route_message(10, String::from("hello")));
    assert_eq!(outbox.try_recv(), Ok(String::from("hello")));
    assert_eq!(outbox.try_recv(), Err(TryRecvError::Empty));
}

#[test]
fn a_writer_registers_nothing() {
    let mut registry = Registry::new();
    assert!(user_connected(&mut registry, 10).is_none());
    assert_eq!(registry.len(), 0);
    assert!(!registry.is_registered(10));
    assert!(forwards_inbound(10));
    assert!(!forwards_inbound(11));
}

#[test]
fn a_second_reader_replaces_the_first() {
    let mut registry = Registry::new();
    let mut first = user_connected(&mut registry, 11).unwrap();
    let mut second = user_connected(&mut registry, 11).unwrap();
    assert_eq!(registry.len(), 1);
    assert!(registry.route_message(10, String::from("m")));
    assert_eq!(first.try_recv(), Err(TryRecvError::Disconnected));
    assert_eq!(second.try_recv(), Ok(String::from("m")));
}

#[test]
fn the_read_loop_routes_text_of_a_writer() {
    let mut registry = Registry::new();
    let mut outbox = user_connected(&mut registry, 11).unwrap();
    assert!(read_message(&mut registry, true, 10, Inbound::Text(String::from("a"))));
    assert!(read_message(&mut registry, true, 10, Inbound::Other));
    assert!(read_message(&mut registry, true, 10, Inbound::Text(String::from("b"))));
    assert_eq!(outbox.try_recv(), Ok(String::from("a")));
    assert_eq!(outbox.try_recv(), Ok(String::from("b")));
    assert_eq!(outbox.try_recv(), Err(TryRecvError::Empty));
    // A reader's own frames are passed over.
    assert!(read_message(&mut registry, false, 10, Inbound::Text(String::from("c"))));
    assert_eq!(outbox.try_recv(), Err(TryRecvError::Empty));
    assert!(!read_message(&mut registry, true, 10, Inbound::Failed));
    assert!(!read_message(&mut registry, true, 10, Inbound::End));
    assert!(!read_message(&mut registry, false, 10, Inbound::Failed));
    assert!(!read_message(&mut registry, false, 10, Inbound::End));
    assert!(registry.is_registered(10));
}

#[test]
fn the_end_of_a_session_unregisters() {
    let mut registry = Registry::new();
    let _outbox = user_connected(&mut registry, 11).unwrap();
    let _other = user_connected(&mut registry, 21).unwrap();
    user_disconnected(11, &mut registry);
    assert!(!registry.is_registered(10));
    assert!(registry.is_registered(20));
    user_disconnected(11, &mut registry);
    assert_eq!(registry.len(), 1);
    // The end of a writer's session leaves the reader where it is.
    user_disconnected(20, &mut registry);
    assert!(registry.is_registered(20));
    assert_eq!(registry.len(), 1);
}

#[test]
fn a_tick_sends_a_probe() {
    assert_eq!(TICK_SECS, 10);
    assert_eq!(payload_of(ping_message(0)), vec![0; 8]);
    assert_eq!(payload_of(ping_message(10)), vec![0, 0, 0, 0, 0, 0, 0, 10]);
    assert_eq!(payload_of(ping_message(0x0102_0304_0506_0708)), vec![1, 2, 3, 4, 5, 6, 7, 8]);
    assert_eq!(payload_of(next_outbound(WriteEvent::Tick(258))), 258_u64.to_be_bytes().to_vec());
}

#[test]
fn a_queued_message_is_sent_as_text() {
    assert_eq!(text_of(next_outbound(WriteEvent::Queued(Some(String::from("hi"))))), "hi");
    assert_eq!(text_of(next_outbound(WriteEvent::Queued(Some(String::new())))), "");
    assert!(next_outbound(WriteEvent::Queued(None)).is_none());
}

#[test]
fn bodies_are_bounded_text() {
    assert_eq!(MAX_BODY_LEN, 2048);
    assert_eq!(parse_bytes(b"hello".to_vec()), Some(String::from("hello")));
    assert_eq!(parse_bytes(Vec::new()), Some(String::new()));
    assert_eq!(parse_bytes(vec![0xc3, 0xa9]), Some(String::from("\u{e9}")));
    assert_eq!(parse_bytes(vec![0xff]), None);
    assert_eq!(parse_bytes(vec![0xc3]), None);
    assert_eq!(parse_bytes(vec![b'a'; 2048]), Some("a".repeat(2048)));
    assert_eq!(parse_bytes(vec![b'a'; 2049]), None);
}

#[test]
fn submissions() {
    let mut registry = Registry::new();
    let mut outbox = user_connected(&mut registry, 11).unwrap();
    assert_eq!(send_message(10, &mut registry, b"one".to_vec()), IngestOutcome::Accepted);
    assert_eq!(send_message(10, &mut registry, b"two".to_vec()), IngestOutcome::Accepted);
    assert_eq!(send_message(11, &mut registry, b"no".to_vec()), IngestOutcome::Forbidden);
    assert_eq!(send_message(11, &mut registry, vec![0xff]), IngestOutcome::Forbidden);
    assert_eq!(send_message(10, &mut registry, vec![0xff]), IngestOutcome::MalformedBody);
    assert_eq!(send_message(10, &mut registry, vec![b'a'; 2049]), IngestOutcome::MalformedBody);
    assert_eq!(send_message(20, &mut registry, b"lost".to_vec()), IngestOutcome::NotFound);
    assert_eq!(outbox.try_recv(), Ok(String::from("one")));
    assert_eq!(outbox.try_recv(), Ok(String::from("two")));
    assert_eq!(outbox.try_recv(), Err(TryRecvError::Empty));
    assert_eq!(registry.len(), 1);
    drop(outbox);
    assert_eq!(send_message(10, &mut registry, b"late".to_vec()), IngestOutcome::NotFound);
    assert_eq!(registry.len(), 0);
}

#[test]
fn role_enforcement_end_to_end() {
    let key = create_key();
    let pair = create_keys(key);
    let mut registry = Registry::new();
    // The write token opens a session that registers nothing.
    let writer = decrypt_id(pair[1].clone(), key).unwrap();
    assert!(user_connected(&mut registry, writer).is_none());
    assert_eq!(registry.len(), 0);
    assert_eq!(
        post_data(pair[1].clone(), key, &mut registry, b"m".to_vec()),
        Ok(IngestOutcome::NotFound)
    );
    // The read token opens the reader's session and cannot submit.
    let reader = decrypt_id(pair[0].clone(), key).unwrap();
    let mut outbox = user_connected(&mut registry, reader).unwrap();
    assert!(registry.is_registered(writer.base()));
    assert_eq!(
        post_data(pair[0].clone(), key, &mut registry, b"m".to_vec()),
        Ok(IngestOutcome::Forbidden)
    );
    assert_eq!(outbox.try_recv(), Err(TryRecvError::Empty));
    assert_eq!(
        post_data(pair[1].clone(), key, &mut registry, b"m".to_vec()),
        Ok(IngestOutcome::Accepted)
    );
    assert_eq!(outbox.try_recv(), Ok(String::from("m")));
}

#[test]
fn a_token_that_does_not_open_is_rejected() {
    let key = Key { bytes: [3; 16] };
    let other = Key { bytes: [4; 16] };
    let pair = create_keys(other);
    let mut registry = Registry::new();
    let (sink, mut outbox) = unbounded_channel::<String>();
    registry.register(0, sink);
    assert_eq!(
        post_data(String::from("!"), key, &mut registry, b"m".to_vec()),
        Err(TokenError::MalformedToken)
    );
    assert_eq!(
        post_data(pair[1].clone(), key, &mut registry, b"m".to_vec()),
        Err(TokenError::AuthenticationFailed)
    );
    assert_eq!(outbox.try_recv(), Err(TryRecvError::Empty));
    assert_eq!(registry.len(), 1);
}

#[test]
fn outcomes_and_statuses() {
    assert_eq!(routed_outcome(true), IngestOutcome::Accepted);
    assert_eq!(routed_outcome(false), IngestOutcome::NotFound);
    assert_eq!(status_code(IngestOutcome::Accepted), 202);
    assert_eq!(status_code(IngestOutcome::Forbidden), 403);
    assert_eq!(status_code(IngestOutcome::NotFound), 404);
    assert_eq!(status_code(IngestOutcome::MalformedBody), 400);
}

#[test]
fn the_mint_answer_is_two_lines() {
    let tokens = [String::from("read"), String::from("write")];
    assert_eq!(join_tokens(&tokens), "read\nwrite");
    let key = create_key();
    let answer = create_handler(key);
    let lines: Vec<&str> = answer.split('\n').collect();
    assert_eq!(lines.len(), 2);
    let read = decrypt_id(String::from(lines[0]), key).unwrap();
    let write = decrypt_id(String::from(lines[1]), key).unwrap();
    assert!(read.read_only());
    assert!(write.write_only());
    assert_eq!(read.base(), write);
}

#[test]
fn a_reader_session_from_handshake_to_close() {
    let mut registry = Registry::new();
    let mut session = Session::new(11);
    assert_eq!(session.state, SessionState::Handshaking);
    assert_eq!(session.user_id, 11);
    // Nothing runs before the handshake is done.
    assert!(!session.start());
    assert!(!session.on_frame(&mut registry, Inbound::Other));
    assert_eq!(session.state, SessionState::Handshaking);
    let mut outbox = session.register(&mut registry).unwrap();
    assert_eq!(session.state, SessionState::Registered);
    assert!(registry.is_registered(10));
    assert!(session.register(&mut registry).is_none());
    assert!(session.start());
    assert_eq!(session.state, SessionState::Draining);
    assert!(!session.start());
    // A reader's own text is not routed.
    assert!(session.on_frame(&mut registry, Inbound::Text(String::from("mine"))));
    assert!(session.on_frame(&mut registry, Inbound::Other));
    assert_eq!(outbox.try_recv(), Err(TryRecvError::Empty));
    assert_eq!(send_message(10, &mut registry, b"yours".to_vec()), IngestOutcome::Accepted);
    assert_eq!(outbox.try_recv(), Ok(String::from("yours")));
    assert!(!session.on_frame(&mut registry, Inbound::End));
    assert_eq!(session.state, SessionState::Closed);
    assert!(!registry.is_registered(10));
    assert_eq!(outbox.try_recv(), Err(TryRecvError::Disconnected));
    // Closed is the end.
    assert!(!session.on_frame(&mut registry, Inbound::Other));
    assert!(!session.start());
    assert!(session.register(&mut registry).is_none());
    assert_eq!(session.state, SessionState::Closed);
    assert_eq!(registry.len(), 0);
}

#[test]
fn a_writer_session_routes_its_text() {
    let mut registry = Registry::new();
    let mut reader = Session::new(11);
    let mut outbox = reader.register(&mut registry).unwrap();
    assert!(reader.start());
    let mut writer = Session::new(10);
    assert!(writer.register(&mut registry).is_none());
    assert_eq!(writer.state, SessionState::Registered);
    assert_eq!(registry.len(), 1);
    assert!(writer.start());
    assert!(writer.on_frame(&mut registry, Inbound::Text(String::from("a"))));
    assert!(writer.on_frame(&mut registry, Inbound::Other));
    assert!(writer.on_frame(&mut registry, Inbound::Text(String::from("b"))));
    assert_eq!(outbox.try_recv(), Ok(String::from("a")));
    assert_eq!(outbox.try_recv(), Ok(String::from("b")));
    assert_eq!(outbox.try_recv(), Err(TryRecvError::Empty));
    assert!(!writer.on_frame(&mut registry, Inbound::Failed));
    assert_eq!(writer.state, SessionState::Closed);
    // The writer is gone; the reader is still registered and still served.
    assert!(registry.is_registered(10));
    assert_eq!(registry.len(), 1);
    assert_eq!(send_message(10, &mut registry, b"c".to_vec()), IngestOutcome::Accepted);
    assert_eq!(outbox.try_recv(), Ok(String::from("c")));
    let mut second_writer = Session::new(10);
    assert!(second_writer.register(&mut registry).is_none());
    assert!(second_writer.start());
    assert!(!second_writer.on_frame(&mut registry, Inbound::End));
    assert!(registry.is_registered(10));
    assert!(!reader.on_frame(&mut registry, Inbound::End));
    assert!(!registry.is_registered(10));
}

#[test]
fn a_failed_send_ends_the_write_loop() {
    assert!(goes_on_after_send(true));
    assert!(!goes_on_after_send(false));
}

#[test]
fn an_idle_connection_still_gets_a_frame() {
    // With nothing queued the only event is the tick, and every tick sends.
    for elapsed in [0_u64, 1, 10, 11, u64::MAX] {
        assert_eq!(
            payload_of(next_outbound(WriteEvent::Tick(elapsed))),
            elapsed.to_be_bytes().to_vec()
        );
    }
}

fn is_text(frame: &Inbound, expected: &str) -> bool {
    match frame {
        Inbound::Text(text) => text == expected,
        _ => false,
    }
}

#[test]
fn frames_that_do_not_concern_the_registry() {
    // Before the loops run nothing is served.
    let mut early = Session::new(10);
    assert!(matches!(early.pass_over(Inbound::Text(String::from("t"))), Ok(false)));
    assert_eq!(early.state, SessionState::Handshaking);

    let mut registry = Registry::new();
    let mut reader = Session::new(11);
    let _outbox = reader.register(&mut registry).unwrap();
    assert!(reader.start());
    assert!(matches!(reader.pass_over(Inbound::Text(String::from("t"))), Ok(true)));
    assert!(matches!(reader.pass_over(Inbound::Other), Ok(true)));
    // The end of a reader's read loop unregisters: the frame comes back.
    assert!(matches!(reader.pass_over(Inbound::End), Err(Inbound::End)));
    assert!(matches!(reader.pass_over(Inbound::Failed), Err(Inbound::Failed)));
    assert_eq!(reader.state, SessionState::Draining);

    let mut writer = Session::new(10);
    assert!(writer.register(&mut registry).is_none());
    assert!(writer.start());
    assert!(matches!(writer.pass_over(Inbound::Other), Ok(true)));
    // A writer's text is routed: the frame comes back as it was.
    match writer.pass_over(Inbound::Text(String::from("t"))) {
        Err(frame) => assert!(is_text(&frame, "t")),
        Ok(_) => panic!("a writer's text was passed over"),
    }
    assert_eq!(writer.state, SessionState::Draining);
    assert!(matches!(writer.pass_over(Inbound::End), Ok(false)));
    assert_eq!(writer.state, SessionState::Closed);
    assert!(matches!(writer.pass_over(Inbound::Other), Ok(false)));
    assert_eq!(registry.len(), 1);
}
