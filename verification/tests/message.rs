use haak::message::{error_event, session_create, user_message, Field, Message};

fn decoded(raw: &str) -> Message {
    Message::decode(raw).unwrap()
}

#[test]
fn decode_reads_strings_and_booleans() {
    let m = decoded(r#"{"type":"tool_result","is_error":true,"n":1,"list":[1],"o":{"a":"b"},"z":null}"#);
    assert_eq!(m.kind(), "tool_result");
    assert_eq!(m.text("type"), Some("tool_result"));
    assert!(m.flag("is_error"));
    assert!(matches!(m.get("n"), Some(Field::Other)));
    assert!(matches!(m.get("list"), Some(Field::Other)));
    assert!(matches!(m.get("o"), Some(Field::Other)));
    assert!(matches!(m.get("z"), Some(Field::Other)));
    assert!(m.get("a").is_none());
    assert_eq!(m.text("is_error"), None);
    assert!(!m.flag("type"));
    assert_eq!(m.text_or("missing", "default"), "default");
    assert_eq!(m.text_or("n", "default"), "default");
}

#[test]
fn decode_unescapes() {
    let m = decoded(r#"{"t":"a\n\"b\" é"}"#);
    assert_eq!(m.text("t"), Some("a\n\"b\" é"));
}

#[test]
fn decode_keeps_the_last_of_two_fields() {
    let m = decoded(r#"{"t":"first","t":"second"}"#);
    assert_eq!(m.text("t"), Some("second"));
}

#[test]
fn decode_refuses_what_is_no_json() {
    assert!(Message::decode("").is_none());
    assert!(Message::decode("{").is_none());
    assert!(Message::decode("hello").is_none());
    assert!(Message::decode("{} trailing").is_none());
}

#[test]
fn a_document_that_is_no_object_has_no_fields() {
    for raw in ["1", "\"type\"", "[\"type\"]", "null", "true", "{}"] {
        let m = decoded(raw);
        assert_eq!(m.kind(), "");
        assert!(m.fields.is_empty());
    }
}

#[test]
fn session_create_reads_back() {
    let m = decoded(&session_create());
    assert_eq!(m.kind(), "session.create");
    assert_eq!(m.text("agent"), Some("bala"));
    assert_eq!(m.text("model"), Some(""));
    assert_eq!(m.fields.len(), 3);
}

#[test]
fn user_message_reads_back() {
    let text = "say \"hi\"\n\\ \u{1} 日本";
    let raw = user_message("s-1", text);
    let m = decoded(&raw);
    assert_eq!(m.kind(), "user.message");
    assert_eq!(m.text("sessionId"), Some("s-1"));
    assert_eq!(m.text("text"), Some(text));
    assert_eq!(m.fields.len(), 3);
    let value: serde_json::Value = serde_json::from_str(&raw).unwrap();
    assert_eq!(value["text"], serde_json::Value::String(text.to_string()));
}

#[test]
fn error_event_reads_back() {
    let m = decoded(&error_event("refused"));
    assert_eq!(m.kind(), "error");
    assert_eq!(m.text("message"), Some("refused"));
    assert_eq!(m.fields.len(), 2);
}
