use haak::message::Message;
use haak::socket::{socket_url, Event, Frame, Phase, Socket, Step, CHAT_SOCKET_URL};

fn connected() -> Socket {
    let mut s = Socket::for_agent();
    assert!(matches!(s.step(Event::Connected), Step::Send(_)));
    assert!(matches!(s.step(Event::Done), Step::SetNonblocking));
    assert!(matches!(s.step(Event::Done), Step::Read));
    s
}

#[test]
fn socket_url_replaces_the_scheme() {
    assert_eq!(socket_url("http://127.0.0.1:5201"), "ws://127.0.0.1:5201/ws/session");
    assert_eq!(socket_url("https://haak.dev"), "wss://haak.dev/ws/session");
    assert_eq!(socket_url("http://http.example"), "ws://ws.example/ws/session");
    assert_eq!(socket_url(""), "/ws/session");
    assert_eq!(CHAT_SOCKET_URL, "ws://127.0.0.1:5201/ws/session");
}

#[test]
fn connecting_asks_for_a_session() {
    let mut s = Socket::for_chat();
    match s.step(Event::Connected) {
        Step::Send(raw) => {
            let m = Message::decode(&raw).unwrap();
            assert_eq!(m.kind(), "session.create");
            assert_eq!(m.text("agent"), Some("bala"));
            assert_eq!(m.text("model"), Some(""));
        }
        _ => panic!("no request"),
    }
    assert!(s.phase == Phase::Opening);
}

#[test]
fn failing_to_connect_is_reported_and_ends_the_driver() {
    for (mut s, words) in [
        (Socket::for_agent(), "refused"),
        (Socket::for_chat(), "Connect failed: refused"),
    ] {
        match s.step(Event::ConnectFailed("refused".to_string())) {
            Step::Emit(raw) => {
                let m = Message::decode(&raw).unwrap();
                assert_eq!(m.kind(), "error");
                assert_eq!(m.text("message"), Some(words));
            }
            _ => panic!("no report"),
        }
        assert!(matches!(s.step(Event::Emitted(true)), Step::Stop));
        assert!(s.phase == Phase::Stopped);
    }
}

#[test]
fn a_round_reads_forwards_sends_and_pauses() {
    let mut s = connected();
    match s.step(Event::Read(Frame::Text("hello".to_string()))) {
        Step::Emit(text) => assert_eq!(text, "hello"),
        _ => panic!("not passed on"),
    }
    assert!(matches!(s.step(Event::Emitted(true)), Step::TakeQueued));
    match s.step(Event::Queued(Some("one".to_string()))) {
        Step::Send(text) => assert_eq!(text, "one"),
        _ => panic!("not sent"),
    }
    assert!(matches!(s.step(Event::Done), Step::TakeQueued));
    match s.step(Event::Queued(Some("two".to_string()))) {
        Step::Send(text) => assert_eq!(text, "two"),
        _ => panic!("not sent"),
    }
    assert!(matches!(s.step(Event::Done), Step::TakeQueued));
    assert!(matches!(s.step(Event::Queued(None)), Step::Pause(16)));
    assert!(matches!(s.step(Event::Done), Step::Read));
}

#[test]
fn frames_without_text_are_passed_over() {
    for frame in [Frame::Skipped, Frame::Pending] {
        let mut s = connected();
        assert!(matches!(s.step(Event::Read(frame)), Step::TakeQueued));
    }
}

#[test]
fn reasons_to_stop() {
    for frame in [Frame::Close, Frame::Broken] {
        let mut s = connected();
        assert!(matches!(s.step(Event::Read(frame)), Step::Stop));
        assert!(matches!(s.step(Event::Read(Frame::Pending)), Step::Stop));
    }
    let mut s = connected();
    assert!(matches!(s.step(Event::Read(Frame::Text("x".to_string()))), Step::Emit(_)));
    assert!(matches!(s.step(Event::Emitted(false)), Step::Stop));
}

#[test]
fn an_outcome_that_was_not_asked_for_ends_the_driver() {
    let mut s = connected();
    assert!(matches!(s.step(Event::Connected), Step::Stop));
    assert!(s.phase == Phase::Stopped);
}
