use haak::connection::{
    prompt_text, ContentBlock, HaakConnection, NewSession, PromptError, SessionError,
    SessionUpdate, Turn,
};
use haak::message::Message;
use haak::socket::{Event, Socket, Step};

fn with_session(id: &str) -> (HaakConnection, usize) {
    let mut c = HaakConnection::new("http://127.0.0.1:5201");
    let raw = format!("{{\"type\":\"session.created\",\"sessionId\":\"{}\"}}", id);
    match c.new_session_event(&raw) {
        NewSession::Created { session_id, channel } => {
            assert_eq!(session_id, id);
            (c, channel)
        }
        _ => panic!("no session"),
    }
}

fn text(s: &str) -> ContentBlock {
    ContentBlock::Text(s.to_string())
}

fn error_words(n: NewSession) -> String {
    match n {
        NewSession::Failed(e) => e.message(),
        _ => panic!("no failure"),
    }
}

#[test]
fn session_is_created() {
    let (c, channel) = with_session("s1");
    assert_eq!(channel, 0);
    assert_eq!(c.sessions.len(), 1);
    assert_eq!(c.sessions[0].haakd_session_id, "s1");
    assert_eq!(c.receivers, vec![true]);
}

#[test]
fn other_events_are_waited_out() {
    let mut c = HaakConnection::new("http://x");
    for raw in ["", "nonsense", "{}", "[]", r#"{"type":"state","state":"busy"}"#] {
        assert!(matches!(c.new_session_event(raw), NewSession::Wait));
    }
    assert!(c.sessions.is_empty());
}

#[test]
fn session_without_a_name_is_none() {
    let mut c = HaakConnection::new("http://x");
    for raw in [
        r#"{"type":"session.created"}"#,
        r#"{"type":"session.created","sessionId":""}"#,
        r#"{"type":"session.created","sessionId":7}"#,
    ] {
        let r = c.new_session_event(raw);
        assert!(matches!(r, NewSession::Failed(SessionError::NotCreated)));
    }
    assert!(c.sessions.is_empty());
    assert_eq!(error_words(c.new_session_closed()), "haakd session not created");
}

#[test]
fn server_error_refuses_the_session() {
    let mut c = HaakConnection::new("http://x");
    assert_eq!(
        error_words(c.new_session_event(r#"{"type":"error","message":"full"}"#)),
        "haakd: full"
    );
    assert_eq!(error_words(c.new_session_event(r#"{"type":"error"}"#)), "haakd: ?");
}

#[test]
fn connect_failure_reaches_who_waits() {
    let mut s = Socket::for_agent();
    let mut c = HaakConnection::new("http://x");
    match s.step(Event::ConnectFailed("refused".to_string())) {
        Step::Emit(raw) => assert_eq!(error_words(c.new_session_event(&raw)), "haakd: refused"),
        _ => panic!("no report"),
    }
}

#[test]
fn a_session_of_the_same_name_is_replaced() {
    let (mut c, first) = with_session("s1");
    assert!(c.begin_turn(first).is_ok());
    let second = c.register("s1".to_string());
    assert_eq!((first, second), (0, 1));
    assert_eq!(c.sessions.len(), 1);
    assert_eq!(c.prompt("s1", &vec![]).ok().unwrap().channel, second);
    assert_eq!(c.receivers, vec![false, true]);
    c.register("s2".to_string());
    assert_eq!(c.prompt("s1", &vec![]).ok().unwrap().channel, second);
    assert_eq!(c.prompt("s2", &vec![]).ok().unwrap().channel, 2);
}

#[test]
fn the_channel_of_a_replaced_session_is_left() {
    let (mut c, first) = with_session("s1");
    let other = c.register("s2".to_string());
    assert!(c.has_session_on(first) && c.has_session_on(other));
    assert!(!c.has_session_on(2));
    let second = c.register("s1".to_string());
    assert!(!c.has_session_on(first));
    assert!(c.has_session_on(other) && c.has_session_on(second));
}

#[test]
fn the_first_decision_on_a_session_counts() {
    let events = [
        "nonsense",
        r#"{"type":"text","delta":"x"}"#,
        r#"{"type":"session.created","sessionId":"s1"}"#,
        r#"{"type":"error","message":"late"}"#,
    ];
    let mut c = HaakConnection::new("http://x");
    let mut at = 0;
    let news = loop {
        let news = match events.get(at) {
            Some(raw) => c.new_session_event(raw),
            None => c.new_session_closed(),
        };
        if !matches!(news, NewSession::Wait) {
            break news;
        }
        assert!(c.sessions.is_empty() && c.receivers.is_empty());
        at += 1;
    };
    assert_eq!(at, 2);
    match news {
        NewSession::Created { session_id, channel } => {
            assert_eq!((session_id.as_str(), channel), ("s1", 0));
        }
        _ => panic!("no session"),
    }
    assert_eq!(c.sessions.len(), 1);
}

#[test]
fn a_prompt_shows_the_news_up_to_its_end() {
    let (mut c, ch) = with_session("s1");
    assert!(c.begin_turn(ch).is_ok());
    let events = [
        r#"{"type":"thinking","text":"hm"}"#,
        "nonsense",
        r#"{"type":"text","delta":"a"}"#,
        r#"{"type":"text","delta":""}"#,
        r#"{"type":"text","delta":"a"}"#,
        r#"{"type":"turn_done"}"#,
        r#"{"type":"text","delta":"b"}"#,
    ];
    let mut shown: Vec<String> = Vec::new();
    let mut at = 0;
    loop {
        match c.turn_event(ch, events[at]) {
            Turn::Wait => {}
            Turn::Update(SessionUpdate::AgentMessageChunk(s)) => shown.push(s),
            Turn::Update(SessionUpdate::AgentThoughtChunk(s)) => shown.push(format!("({})", s)),
            Turn::Update(_) => panic!("no tools were called"),
            Turn::Done => break,
            _ => panic!("not done"),
        }
        at += 1;
    }
    assert_eq!(at, 5);
    assert_eq!(shown, vec!["(hm)", "a", "a"]);
    assert_eq!(c.receivers, vec![true]);
}

#[test]
fn prompt_text_joins_the_text_blocks() {
    assert_eq!(prompt_text(&vec![]), "");
    assert_eq!(prompt_text(&vec![text("a")]), "a");
    assert_eq!(prompt_text(&vec![text("a"), ContentBlock::Other, text("b")]), "a\nb");
    assert_eq!(prompt_text(&vec![text(""), text("")]), "\n");
    assert_eq!(prompt_text(&vec![ContentBlock::Other]), "");
}

#[test]
fn prompt_carries_the_text_to_the_session() {
    let (c, channel) = with_session("s1");
    let p = c.prompt("s1", &vec![text("one"), text("two")]).ok().unwrap();
    assert_eq!(p.channel, channel);
    let m = Message::decode(&p.payload).unwrap();
    assert_eq!(m.kind(), "user.message");
    assert_eq!(m.text("sessionId"), Some("s1"));
    assert_eq!(m.text("text"), Some("one\ntwo"));
}

#[test]
fn prompt_without_a_session_fails() {
    let (c, _) = with_session("s1");
    let e = c.prompt("s2", &vec![]).err().unwrap();
    assert!(e == PromptError::SessionNotFound);
    assert_eq!(e.message(), "session not found");
}

#[test]
fn one_prompt_at_a_time() {
    let (mut c, ch) = with_session("s1");
    assert!(c.begin_turn(ch).is_ok());
    let e = c.begin_turn(ch).err().unwrap();
    assert!(e == PromptError::ReceiverTaken);
    assert_eq!(e.message(), "event_rx already taken");
}

#[test]
fn turn_done_and_errors_leave_the_session_ready() {
    let (mut c, ch) = with_session("s1");
    assert!(c.begin_turn(ch).is_ok());
    assert!(matches!(c.turn_event(ch, r#"{"type":"text","delta":"x"}"#), Turn::Update(_)));
    assert!(matches!(c.turn_event(ch, r#"{"type":"turn_done"}"#), Turn::Done));
    assert!(c.begin_turn(ch).is_ok());
    match c.turn_event(ch, r#"{"type":"error","message":"overloaded"}"#) {
        Turn::Failed(e) => assert_eq!(e, "overloaded"),
        _ => panic!("no failure"),
    }
    assert!(c.begin_turn(ch).is_ok());
    match c.turn_event(ch, r#"{"type":"error"}"#) {
        Turn::Failed(e) => assert_eq!(e, "unknown error"),
        _ => panic!("no failure"),
    }
}

#[test]
fn an_ended_session_takes_no_prompt() {
    let (mut c, ch) = with_session("s1");
    assert!(c.begin_turn(ch).is_ok());
    assert!(matches!(c.turn_event(ch, r#"{"type":"session.ended"}"#), Turn::Ended));
    assert!(c.begin_turn(ch).is_err());
    assert!(matches!(c.turn_closed(), Turn::Ended));
}

#[test]
fn turn_updates() {
    let (mut c, ch) = with_session("s1");
    match c.turn_event(ch, r#"{"type":"text","delta":"hi"}"#) {
        Turn::Update(SessionUpdate::AgentMessageChunk(s)) => assert_eq!(s, "hi"),
        _ => panic!("no chunk"),
    }
    match c.turn_event(ch, r#"{"type":"thinking","text":"hm"}"#) {
        Turn::Update(SessionUpdate::AgentThoughtChunk(s)) => assert_eq!(s, "hm"),
        _ => panic!("no thought"),
    }
    match c.turn_event(ch, r#"{"type":"tool_start","name":"grep","id":"t1"}"#) {
        Turn::Update(SessionUpdate::ToolCall { id, title }) => {
            assert_eq!((id.as_str(), title.as_str()), ("t1", "grep"));
        }
        _ => panic!("no call"),
    }
    match c.turn_event(ch, r#"{"type":"tool_start"}"#) {
        Turn::Update(SessionUpdate::ToolCall { id, title }) => {
            assert_eq!((id.as_str(), title.as_str()), ("unknown", "tool"));
        }
        _ => panic!("no call"),
    }
    match c.turn_event(ch, r#"{"type":"tool_result","tool_use_id":"t1","is_error":true}"#) {
        Turn::Update(SessionUpdate::ToolCallUpdate { id, failed }) => {
            assert_eq!((id.as_str(), failed), ("t1", true));
        }
        _ => panic!("no update"),
    }
    match c.turn_event(ch, r#"{"type":"tool_result"}"#) {
        Turn::Update(SessionUpdate::ToolCallUpdate { id, failed }) => {
            assert_eq!((id.as_str(), failed), ("", false));
        }
        _ => panic!("no update"),
    }
}

#[test]
fn turn_passes_over_what_says_nothing() {
    let (mut c, ch) = with_session("s1");
    for raw in [
        "no json",
        "{}",
        r#"{"type":"text"}"#,
        r#"{"type":"text","delta":""}"#,
        r#"{"type":"thinking","text":""}"#,
        r#"{"type":"session.state","state":"busy"}"#,
    ] {
        assert!(matches!(c.turn_event(ch, raw), Turn::Wait));
    }
    assert_eq!(c.receivers, vec![true]);
}
