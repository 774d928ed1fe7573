use amibussy::event::interpret;
use amibussy::event::InterpretedEvent;
use amibussy::json::JsonValue;

fn obj(fields: Vec<(&str, JsonValue)>) -> JsonValue {
    JsonValue::Obj(fields.into_iter().map(|(k, v)| (k.to_string(), v)).collect())
}

fn text(x: &str) -> JsonValue {
    JsonValue::Str(x.to_string())
}

#[test]
fn missing_both_fields_is_malformed() {
    let v = obj(vec![]);
    assert_eq!(interpret(&v), InterpretedEvent::MalformedEvent);
}

#[test]
fn missing_payload_is_malformed() {
    let v = obj(vec![("event_id", JsonValue::Number)]);
    assert_eq!(interpret(&v), InterpretedEvent::MalformedEvent);
}

#[test]
fn missing_event_id_is_malformed() {
    let v = obj(vec![("payload", text("ping"))]);
    assert_eq!(interpret(&v), InterpretedEvent::MalformedEvent);
}

#[test]
fn non_object_document_is_malformed() {
    assert_eq!(interpret(&text("ping")), InterpretedEvent::MalformedEvent);
    assert_eq!(interpret(&JsonValue::Null), InterpretedEvent::MalformedEvent);
    assert_eq!(interpret(&JsonValue::Array(vec![])), InterpretedEvent::MalformedEvent);
}

#[test]
fn ping_with_code_is_validation() {
    let v = obj(vec![
        ("event_id", JsonValue::Number),
        ("payload", text("ping")),
        ("validation_code", text("abc123")),
    ]);
    assert_eq!(
        interpret(&v),
        InterpretedEvent::Validation { code: "abc123".to_string() }
    );
}

#[test]
fn ping_without_code_is_missing_code() {
    let v = obj(vec![("event_id", JsonValue::Number), ("payload", text("ping"))]);
    assert_eq!(interpret(&v), InterpretedEvent::ValidationMissingCode);
}

#[test]
fn ping_with_non_string_code_is_missing_code() {
    let v = obj(vec![
        ("event_id", JsonValue::Number),
        ("payload", text("ping")),
        ("validation_code", JsonValue::Number),
    ]);
    assert_eq!(interpret(&v), InterpretedEvent::ValidationMissingCode);
}

#[test]
fn other_string_payload_is_ignored() {
    let v = obj(vec![("event_id", JsonValue::Number), ("payload", text("pong"))]);
    assert_eq!(interpret(&v), InterpretedEvent::Ignored);
}

#[test]
fn start_and_stop_is_session_stopped() {
    let payload = obj(vec![("start", text("t1")), ("stop", text("t2"))]);
    let v = obj(vec![("event_id", JsonValue::Number), ("payload", payload)]);
    assert_eq!(
        interpret(&v),
        InterpretedEvent::SessionStopped { start: "t1".to_string(), stop: "t2".to_string() }
    );
}

#[test]
fn only_start_is_session_started() {
    let payload = obj(vec![("start", text("t1"))]);
    let v = obj(vec![("event_id", JsonValue::Number), ("payload", payload)]);
    assert_eq!(
        interpret(&v),
        InterpretedEvent::SessionStarted { start: "t1".to_string() }
    );
}

#[test]
fn only_stop_is_ignored() {
    let payload = obj(vec![("stop", text("t2"))]);
    let v = obj(vec![("event_id", JsonValue::Number), ("payload", payload)]);
    assert_eq!(interpret(&v), InterpretedEvent::Ignored);
}

#[test]
fn non_string_start_is_ignored() {
    let payload = obj(vec![("start", JsonValue::Number)]);
    let v = obj(vec![("event_id", JsonValue::Number), ("payload", payload)]);
    assert_eq!(interpret(&v), InterpretedEvent::Ignored);
}

#[test]
fn empty_object_payload_is_ignored() {
    let v = obj(vec![("event_id", JsonValue::Number), ("payload", obj(vec![]))]);
    assert_eq!(interpret(&v), InterpretedEvent::Ignored);
}

#[test]
fn other_shape_payload_is_ignored() {
    for payload in [JsonValue::Number, JsonValue::Null, JsonValue::Bool(true), JsonValue::Array(
        vec![],
    )] {
        let v = obj(vec![("event_id", JsonValue::Number), ("payload", payload)]);
        assert_eq!(interpret(&v), InterpretedEvent::Ignored);
    }
}
