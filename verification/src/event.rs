//! Classification of an inbound webhook document into an interpreted event.
//!
//! Pure: an arbitrary JSON value classifies deterministically, and malformed
//! input classifies to a rejection outcome distinct from `Ignored`.
//!
//! The upstream field naming is inverted relative to its meaning: an event
//! whose payload carries both `start` and `stop` signals that a break has
//! begun (a running timer was stopped), while a payload with only `start`
//! signals that work has resumed. The names are kept as the source sends them.

use vstd::prelude::*;

use crate::json::JsonValue;
use crate::json::spec_get;
use crate::json::spec_str_field;
use crate::json::get_field;
use crate::json::get_string_field;

verus! {

/// The outcome of classifying one inbound document.
#[derive(Debug, Clone, PartialEq, Eq)]
pub enum InterpretedEvent {
    /// The document lacks an `event_id` field or a `payload` field.
    MalformedEvent,
    /// A `"ping"` payload with its sibling `validation_code`.
    Validation { code: String },
    /// A `"ping"` payload whose `validation_code` is absent or not a string.
    ValidationMissingCode,
    /// A payload object with string fields `start` and `stop`: a break began.
    SessionStopped { start: String, stop: String },
    /// A payload object with a string field `start` and no string `stop`:
    /// work resumed.
    SessionStarted { start: String },
    /// Any other shape.
    Ignored,
}

/// The classification of a JSON document, as `interpret` returns it.
pub open spec fn spec_interpret(v: JsonValue) -> InterpretedEvent {
    if spec_get(v, "event_id"@) is None || spec_get(v, "payload"@) is None {
        InterpretedEvent::MalformedEvent
    } else {
        match spec_get(v, "payload"@) {
            Option::Some(JsonValue::Str(s)) => if s@ == "ping"@ {
                match spec_str_field(v, "validation_code"@) {
                    Option::Some(code) => InterpretedEvent::Validation { code },
                    Option::None => InterpretedEvent::ValidationMissingCode,
                }
            } else {
                InterpretedEvent::Ignored
            },
            Option::Some(JsonValue::Obj(fields)) => {
                let payload = JsonValue::Obj(fields);
                match (spec_str_field(payload, "start"@), spec_str_field(payload, "stop"@)) {
                    (Option::Some(start), Option::Some(stop)) => InterpretedEvent::SessionStopped {
                        start,
                        stop,
                    },
                    (Option::Some(start), Option::None) => InterpretedEvent::SessionStarted {
                        start,
                    },
                    _ => InterpretedEvent::Ignored,
                }
            },
            _ => InterpretedEvent::Ignored,
        }
    }
}

/// Classify one parsed document. Never fails: every shape maps to an outcome.
pub fn interpret(v: &JsonValue) -> (r: InterpretedEvent)
    ensures
        r == spec_interpret(*v),
{
    let event_id_key: String = "event_id".to_owned();
    let payload_key: String = "payload".to_owned();
    let has_event_id = get_field(v, &event_id_key).is_some();
    let payload = get_field(v, &payload_key);
    match payload {
        Option::None => InterpretedEvent::MalformedEvent,
        Option::Some(payload) => {
            if !has_event_id {
                return InterpretedEvent::MalformedEvent;
            }
            match payload {
                JsonValue::Str(s) => {
                    let ping: String = "ping".to_owned();
                    if *s == ping {
                        let code_key: String = "validation_code".to_owned();
                        match get_string_field(v, &code_key) {
                            Option::Some(code) => InterpretedEvent::Validation {
                                code: code.clone(),
                            },
                            Option::None => InterpretedEvent::ValidationMissingCode,
                        }
                    } else {
                        InterpretedEvent::Ignored
                    }
                },
                JsonValue::Obj(_) => {
                    let start_key: String = "start".to_owned();
                    let stop_key: String = "stop".to_owned();
                    let start = get_string_field(payload, &start_key);
                    let stop = get_string_field(payload, &stop_key);
                    match (start, stop) {
                        (Option::Some(start), Option::Some(stop)) => {
                            InterpretedEvent::SessionStopped {
                                start: start.clone(),
                                stop: stop.clone(),
                            }
                        },
                        (Option::Some(start), Option::None) => InterpretedEvent::SessionStarted {
                            start: start.clone(),
                        },
                        _ => InterpretedEvent::Ignored,
                    }
                },
                _ => InterpretedEvent::Ignored,
            }
        },
    }
}

} // verus!
