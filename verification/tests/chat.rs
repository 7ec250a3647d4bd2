use haak::chat::{ChatEntry, HaakChat, Key, Refresh, Row};
use haak::message::Message;
use haak::panel::{DockPosition, Icon, ThemeColor};
use haak::socket::{Event, Socket, Step};

fn after(events: &[&str]) -> HaakChat {
    let mut c = HaakChat::new();
    for raw in events {
        c.handle_event(raw);
        assert_eq!(c.list_len, c.entries.len());
    }
    c
}

fn describe(c: &HaakChat) -> Vec<String> {
    c.entries
        .iter()
        .map(|e| match e {
            ChatEntry::User { text } => format!("user {}", text),
            ChatEntry::Assistant { text, done } => format!("agent {} {}", text, done),
            ChatEntry::ToolCall { name, input_summary, result, is_error } => {
                format!("tool {} {} {:?} {}", name, input_summary, result, is_error)
            }
            ChatEntry::System { text } => format!("system {}", text),
        })
        .collect()
}

#[test]
fn chat_starts_empty() {
    let c = HaakChat::new();
    assert!(c.entries.is_empty());
    assert_eq!(c.state, "connecting");
    assert_eq!(c.agent, "bala");
    assert_eq!(c.model, "");
    assert!(c.session_id.is_none() && c.session_name.is_none());
}

#[test]
fn session_created_fills_the_panel() {
    let mut c = HaakChat::new();
    let raw = r#"{"type":"session.created","sessionId":"s1","name":"Work","agent":"mira","model":"m"}"#;
    assert!(matches!(c.handle_event(raw), Refresh::Rebuild));
    assert_eq!(c.session_id.as_deref(), Some("s1"));
    assert_eq!(c.session_name.as_deref(), Some("Work"));
    assert_eq!((c.agent.as_str(), c.model.as_str(), c.state.as_str()), ("mira", "m", "connected"));
    assert_eq!(describe(&c), vec!["system Connected as mira"]);
    let c = after(&[r#"{"type":"session.created"}"#]);
    assert_eq!(c.agent, "bala");
    assert_eq!(c.session_id.as_deref(), Some(""));
    assert_eq!(describe(&c), vec!["system Connected as bala"]);
}

#[test]
fn state_messages() {
    let mut c = HaakChat::new();
    assert!(matches!(
        c.handle_event(r#"{"type":"session.state","state":"busy"}"#),
        Refresh::Redraw
    ));
    assert_eq!(c.state, "busy");
    c.handle_event(r#"{"type":"state","value":"idle"}"#);
    assert_eq!(c.state, "idle");
    c.handle_event(r#"{"type":"state","state":7,"value":"lost"}"#);
    assert_eq!(c.state, "idle");
    assert!(matches!(c.handle_event(r#"{"type":"state"}"#), Refresh::Redraw));
    assert_eq!(c.state, "idle");
}

#[test]
fn text_is_gathered_in_one_entry() {
    let mut c = HaakChat::new();
    assert!(matches!(c.handle_event(r#"{"type":"text","delta":"Hel"}"#), Refresh::Rebuild));
    match c.handle_event(r#"{"type":"text","delta":"lo"}"#) {
        Refresh::Append(s) => assert_eq!(s, "lo"),
        _ => panic!("not appended"),
    }
    assert!(matches!(c.handle_event(r#"{"type":"text","delta":""}"#), Refresh::Unchanged));
    assert_eq!(describe(&c), vec!["agent Hello false"]);
    let whole = after(&[r#"{"type":"text","delta":"Hello"}"#]);
    assert_eq!(describe(&whole), describe(&c));
}

#[test]
fn turn_done_closes_the_last_agent_entry() {
    let c = after(&[
        r#"{"type":"text","delta":"a"}"#,
        r#"{"type":"tool_start","name":"ls"}"#,
        r#"{"type":"turn_done"}"#,
        r#"{"type":"text","delta":"b"}"#,
        r#"{"type":"turn_done"}"#,
        r#"{"type":"text","delta":"c"}"#,
    ]);
    assert_eq!(c.state, "idle");
    assert_eq!(
        describe(&c),
        vec!["agent a true", "tool ls  None false", "agent b true", "agent c false"]
    );
}

#[test]
fn tool_calls() {
    let mut c = after(&[
        r#"{"type":"tool_start","name":"first"}"#,
        r#"{"type":"tool_input","summary":"in"}"#,
        r#"{"type":"text","delta":"x"}"#,
        r#"{"type":"tool_result","content":"out","is_error":true}"#,
    ]);
    assert_eq!(describe(&c), vec!["tool first in Some(\"out\") true", "agent x false"]);
    assert!(matches!(
        c.handle_event(r#"{"type":"tool_input","summary":"late"}"#),
        Refresh::Unchanged
    ));
    c.handle_event(r#"{"type":"tool_start","name":"second"}"#);
    c.handle_event(r#"{"type":"tool_result","content":"ok"}"#);
    assert_eq!(
        describe(&c),
        vec![
            "tool first in Some(\"out\") true",
            "agent x false",
            "tool second  Some(\"ok\") false"
        ]
    );
    let mut none = HaakChat::new();
    assert!(matches!(
        none.handle_event(r#"{"type":"tool_result","content":"x"}"#),
        Refresh::Redraw
    ));
    assert!(none.entries.is_empty());
}

#[test]
fn long_results_are_cut() {
    let long = "é".repeat(201);
    let raw = format!("{{\"type\":\"tool_result\",\"content\":\"{}\"}}", long);
    let c = after(&[r#"{"type":"tool_start","name":"t"}"#, &raw]);
    match &c.entries[0] {
        ChatEntry::ToolCall { result: Some(r), .. } => assert_eq!(*r, "é".repeat(200)),
        _ => panic!("no result"),
    }
}

#[test]
fn errors_and_the_end_are_noted() {
    let c = after(&[r#"{"type":"error","message":"oops"}"#, r#"{"type":"session.ended"}"#]);
    assert_eq!(describe(&c), vec!["system Error: oops", "system Session ended"]);
    assert_eq!(c.state, "ended");
}

#[test]
fn other_messages_are_ignored() {
    let mut c = HaakChat::new();
    for raw in ["", "nope", "[]", "{}", r#"{"type":"thinking","text":"x"}"#, r#"{"type":5}"#] {
        assert!(matches!(c.handle_event(raw), Refresh::Unchanged));
    }
    assert!(c.entries.is_empty());
    assert_eq!(c.state, "connecting");
}

#[test]
fn connect_failure_is_shown_in_the_chat() {
    let mut s = Socket::for_chat();
    match s.step(Event::ConnectFailed("refused".to_string())) {
        Step::Emit(raw) => {
            let c = after(&[&raw]);
            assert_eq!(describe(&c), vec!["system Error: Connect failed: refused"]);
        }
        _ => panic!("no report"),
    }
}

#[test]
fn send_message_sends_the_trimmed_input_once() {
    let mut c = after(&[r#"{"type":"session.created","sessionId":"s1"}"#]);
    c.input_text = "  hello \n".to_string();
    let m = Message::decode(&c.send_message().unwrap()).unwrap();
    assert_eq!(m.kind(), "user.message");
    assert_eq!(m.text("sessionId"), Some("s1"));
    assert_eq!(m.text("text"), Some("hello"));
    assert_eq!(describe(&c), vec!["system Connected as bala", "user hello"]);
    assert_eq!((c.input_text.as_str(), c.state.as_str()), ("", "running"));
    assert_eq!(c.list_len, 2);
    assert!(c.send_message().is_none());
    c.input_text = " \t".to_string();
    assert!(c.send_message().is_none());
    assert_eq!(c.input_text, " \t");
}

#[test]
fn send_message_before_a_session() {
    let mut c = HaakChat::new();
    c.input_text = "x".to_string();
    let m = Message::decode(&c.send_message().unwrap()).unwrap();
    assert_eq!(m.text("sessionId"), Some(""));
}

#[test]
fn keys_edit_and_send() {
    let mut c = HaakChat::new();
    assert!(matches!(c.key_down("h", false, Some("h")), Key::Edited));
    assert!(matches!(c.key_down("é", false, Some("é")), Key::Edited));
    assert_eq!(c.input_text, "hé");
    assert!(matches!(c.key_down("backspace", false, None), Key::Edited));
    assert_eq!(c.input_text, "h");
    assert!(matches!(c.key_down("enter", true, Some("\n")), Key::Ignored));
    assert!(matches!(c.key_down("left", false, None), Key::Ignored));
    assert!(matches!(c.key_down("x", false, Some("")), Key::Ignored));
    assert_eq!(c.input_text, "h");
    match c.key_down("enter", false, Some("\n")) {
        Key::Sent(raw) => {
            assert_eq!(Message::decode(&raw).unwrap().text("text"), Some("h"));
        }
        _ => panic!("not sent"),
    }
    assert!(matches!(c.key_down("enter", false, None), Key::Ignored));
    assert!(matches!(c.key_down("backspace", true, None), Key::Edited));
    assert_eq!(c.input_text, "");
}

#[test]
fn entries_as_rows() {
    let mut c = after(&[
        r#"{"type":"text","delta":"*hi*"}"#,
        r#"{"type":"tool_start","name":"ls"}"#,
        r#"{"type":"error","message":"m"}"#,
    ]);
    c.input_text = "yo".to_string();
    c.send_message();
    match c.render_entry(0) {
        Row::Said { by, by_color, text, markdown } => {
            assert_eq!((by.as_str(), text.as_str()), ("bala", "*hi*"));
            assert_eq!(by_color, ThemeColor::Cyan);
            assert!(markdown);
        }
        _ => panic!("no agent row"),
    }
    match c.render_entry(1) {
        Row::Tool { color, dot, name, input_summary } => {
            assert_eq!(color, ThemeColor::TextDisabled);
            assert_eq!((dot, name.as_str(), input_summary.as_str()), ("○", "ls", ""));
        }
        _ => panic!("no tool row"),
    }
    match c.render_entry(2) {
        Row::Note { text } => assert_eq!(text, "Error: m"),
        _ => panic!("no note"),
    }
    match c.render_entry(3) {
        Row::Said { by, by_color, text, markdown } => {
            assert_eq!((by.as_str(), text.as_str()), ("you", "yo"));
            assert_eq!(by_color, ThemeColor::TextMuted);
            assert!(!markdown);
        }
        _ => panic!("no user row"),
    }
    for (failed, expected) in [(true, ThemeColor::Red), (false, ThemeColor::Green)] {
        c.handle_event(&format!("{{\"type\":\"tool_result\",\"is_error\":{}}}", failed));
        match c.render_entry(1) {
            Row::Tool { color, dot, .. } => {
                assert_eq!(color, expected);
                assert_eq!(dot, "●");
            }
            _ => panic!("no tool row"),
        }
    }
}

#[test]
fn chat_screen() {
    let mut c = HaakChat::new();
    let s = c.render();
    assert_eq!(s.state_color, ThemeColor::Yellow);
    assert_eq!((s.title.as_str(), s.state.as_str()), ("bala", "connecting"));
    assert_eq!((s.input.as_str(), s.input_color), ("Write a message...", ThemeColor::TextDisabled));
    assert_eq!(s.rows, 0);
    c.handle_event(r#"{"type":"session.created","name":"Work"}"#);
    c.input_text = "hi".to_string();
    let s = c.render();
    assert_eq!((s.title.as_str(), s.rows, s.state_color), ("Work", 1, ThemeColor::Cyan));
    assert_eq!((s.input.as_str(), s.input_color), ("hi", ThemeColor::Text));
    c.send_message();
    assert_eq!(c.render().state_color, ThemeColor::Green);
    c.handle_event(r#"{"type":"turn_done"}"#);
    assert_eq!(c.render().state_color, ThemeColor::Cyan);
    c.handle_event(r#"{"type":"session.ended"}"#);
    assert_eq!(c.render().state_color, ThemeColor::Red);
}

#[test]
fn chat_panel_facts() {
    let c = HaakChat::new();
    assert_eq!(HaakChat::persistent_name(), "Haak Chat");
    assert_eq!(HaakChat::panel_key(), "HaakChat");
    assert_eq!(c.position(), DockPosition::Right);
    assert!(c.position_is_valid(DockPosition::Left));
    assert!(c.position_is_valid(DockPosition::Right));
    assert!(!c.position_is_valid(DockPosition::Bottom));
    assert_eq!(c.default_size(), 420);
    assert_eq!(c.icon(), Icon::Chat);
    assert_eq!(c.icon_tooltip(), "HaaK Chat");
    assert_eq!(c.activation_priority(), 11);
}
