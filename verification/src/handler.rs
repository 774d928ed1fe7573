//! The webhook handler core: from raw request bytes (or an already classified
//! event) to the HTTP reply, the new presence value, and the status publish
//! to attempt. The surrounding server performs the reply and the publish; the
//! decisions are made here.

use vstd::prelude::*;

use crate::event::InterpretedEvent;
use crate::event::spec_interpret;
use crate::event::interpret;
use crate::json::JsonValue;
use crate::json::parsed_json;
use crate::json::parse_json;
use crate::json::spec_get;
use crate::json::spec_str_field;
use crate::presence::PresenceState;
use crate::publisher::StatusKind;

verus! {

/// The reply the webhook endpoint sends for one request.
#[derive(Debug, Clone, PartialEq, Eq)]
pub enum WebhookReply {
    /// 200 with an empty body: the event was accepted or ignored.
    Accepted,
    /// 200 with a JSON body echoing the validation code.
    ValidationReply { code: String },
    /// 400: unparsable body, or a ping without a validation code.
    BadRequest,
    /// 422: an event lacking `event_id` or `payload`.
    UnprocessableEntity,
}

impl WebhookReply {
    /// The HTTP status code of this reply.
    pub open spec fn spec_status_code(self) -> u16 {
        match self {
            WebhookReply::Accepted => 200,
            WebhookReply::ValidationReply { .. } => 200,
            WebhookReply::BadRequest => 400,
            WebhookReply::UnprocessableEntity => 422,
        }
    }

    /// The HTTP status code of this reply.
    pub fn status_code(&self) -> (r: u16)
        ensures
            r == self.spec_status_code(),
    {
        match self {
            WebhookReply::Accepted => 200,
            WebhookReply::ValidationReply { .. } => 200,
            WebhookReply::BadRequest => 400,
            WebhookReply::UnprocessableEntity => 422,
        }
    }
}

/// The reply owed to each interpreted event.
pub open spec fn spec_reply_for(ev: InterpretedEvent) -> WebhookReply {
    match ev {
        InterpretedEvent::MalformedEvent => WebhookReply::UnprocessableEntity,
        InterpretedEvent::Validation { code } => WebhookReply::ValidationReply { code },
        InterpretedEvent::ValidationMissingCode => WebhookReply::BadRequest,
        InterpretedEvent::SessionStopped { .. } => WebhookReply::Accepted,
        InterpretedEvent::SessionStarted { .. } => WebhookReply::Accepted,
        InterpretedEvent::Ignored => WebhookReply::Accepted,
    }
}

/// The status publish each interpreted event calls for: `break` when a break
/// began, `busy` when work resumed, none otherwise.
pub open spec fn spec_publish_for(ev: InterpretedEvent) -> Option<StatusKind> {
    match ev {
        InterpretedEvent::SessionStopped { .. } => Option::Some(StatusKind::OnBreak),
        InterpretedEvent::SessionStarted { .. } => Option::Some(StatusKind::Busy),
        _ => Option::None,
    }
}

/// The presence value after an event: the current time when a break began,
/// 0 when work resumed, otherwise whatever it was.
pub open spec fn spec_next_presence(ev: InterpretedEvent, now: u64, prev: u64) -> u64 {
    match ev {
        InterpretedEvent::SessionStopped { .. } => now,
        InterpretedEvent::SessionStarted { .. } => 0,
        _ => prev,
    }
}

/// Apply one interpreted event: mutate the presence record and decide the
/// reply and the publish. The presence transition is committed whether or not
/// the publish later succeeds.
pub fn apply_event(ev: InterpretedEvent, now: u64, state: &mut PresenceState) -> (r: (
    WebhookReply,
    Option<StatusKind>,
))
    ensures
        r.0 == spec_reply_for(ev),
        r.1 == spec_publish_for(ev),
        final(state).last_break_epoch_seconds == spec_next_presence(
            ev,
            now,
            old(state).last_break_epoch_seconds,
        ),
{
    match ev {
        InterpretedEvent::MalformedEvent => (WebhookReply::UnprocessableEntity, Option::None),
        InterpretedEvent::Validation { code } => (
            WebhookReply::ValidationReply { code },
            Option::None,
        ),
        InterpretedEvent::ValidationMissingCode => (WebhookReply::BadRequest, Option::None),
        InterpretedEvent::SessionStopped { .. } => {
            state.record_break(now);
            (WebhookReply::Accepted, Option::Some(StatusKind::OnBreak))
        },
        InterpretedEvent::SessionStarted { .. } => {
            state.clear();
            (WebhookReply::Accepted, Option::Some(StatusKind::Busy))
        },
        InterpretedEvent::Ignored => (WebhookReply::Accepted, Option::None),
    }
}

/// Handle one inbound POST body: parse, classify, apply. An unparsable body
/// is answered with 400 and mutates nothing.
pub fn webhook_post(body: &[u8], now: u64, state: &mut PresenceState) -> (r: (
    WebhookReply,
    Option<StatusKind>,
))
    ensures
        match parsed_json(body@) {
            Option::Some(v) => {
                &&& r.0 == spec_reply_for(spec_interpret(v))
                &&& r.1 == spec_publish_for(spec_interpret(v))
                &&& final(state).last_break_epoch_seconds == spec_next_presence(
                    spec_interpret(v),
                    now,
                    old(state).last_break_epoch_seconds,
                )
            },
            Option::None => {
                &&& r.0 == WebhookReply::BadRequest
                &&& r.1 is None
                &&& *final(state) == *old(state)
            },
        },
{
    match parse_json(body) {
        Option::Some(v) => {
            let ev = interpret(&v);
            apply_event(ev, now, state)
        },
        Option::None => (WebhookReply::BadRequest, Option::None),
    }
}

/// The static acknowledgement of the unauthenticated GET path. It never
/// touches the presence record.
pub fn webhook_get() -> (r: String)
    ensures
        r@ == "<h4>Ok</h4>"@,
{
    "<h4>Ok</h4>".to_owned()
}

/// Every JSON document lacking an `event_id` field or a `payload` field
/// interprets to `MalformedEvent`, is answered 422, changes the presence
/// record nothing, and publishes nothing.
pub proof fn lemma_malformed_rejected(v: JsonValue, now: u64, prev: u64)
    requires
        spec_get(v, "event_id"@) is None || spec_get(v, "payload"@) is None,
    ensures
        spec_interpret(v) == InterpretedEvent::MalformedEvent,
        spec_reply_for(spec_interpret(v)).spec_status_code() == 422,
        spec_next_presence(spec_interpret(v), now, prev) == prev,
        spec_publish_for(spec_interpret(v)) is None,
{
}

/// Every document whose payload is exactly the string `"ping"` beside a
/// string `validation_code` valued `code` is answered 200 with that code
/// echoed, changes the presence record nothing, and publishes nothing.
pub proof fn lemma_ping_validation(v: JsonValue, ping: String, code: String, now: u64, prev: u64)
    requires
        spec_get(v, "event_id"@) is Some,
        spec_get(v, "payload"@) == Option::Some(JsonValue::Str(ping)),
        ping@ == "ping"@,
        spec_str_field(v, "validation_code"@) == Option::Some(code),
    ensures
        spec_interpret(v) == (InterpretedEvent::Validation { code }),
        spec_reply_for(spec_interpret(v)) == (WebhookReply::ValidationReply { code }),
        spec_reply_for(spec_interpret(v)).spec_status_code() == 200,
        spec_next_presence(spec_interpret(v), now, prev) == prev,
        spec_publish_for(spec_interpret(v)) is None,
{
}

/// Every document whose object payload carries string fields `start` and
/// `stop` sets the presence record to the current time — non-zero when the
/// clock is — and asks for a `break` status publish.
pub proof fn lemma_session_stopped(
    v: JsonValue,
    payload: JsonValue,
    start: String,
    stop: String,
    now: u64,
    prev: u64,
)
    requires
        spec_get(v, "event_id"@) is Some,
        spec_get(v, "payload"@) == Option::Some(payload),
        payload is Obj,
        spec_str_field(payload, "start"@) == Option::Some(start),
        spec_str_field(payload, "stop"@) == Option::Some(stop),
    ensures
        spec_interpret(v) == (InterpretedEvent::SessionStopped { start, stop }),
        spec_next_presence(spec_interpret(v), now, prev) == now,
        now != 0 ==> spec_next_presence(spec_interpret(v), now, prev) != 0,
        spec_publish_for(spec_interpret(v)) == Option::Some(StatusKind::OnBreak),
        spec_reply_for(spec_interpret(v)) == WebhookReply::Accepted,
{
}

/// Every document whose object payload carries a string field `start` and no
/// string field `stop` resets the presence record to 0 and asks for a `busy`
/// status publish.
pub proof fn lemma_session_started(
    v: JsonValue,
    payload: JsonValue,
    start: String,
    now: u64,
    prev: u64,
)
    requires
        spec_get(v, "event_id"@) is Some,
        spec_get(v, "payload"@) == Option::Some(payload),
        payload is Obj,
        spec_str_field(payload, "start"@) == Option::Some(start),
        spec_str_field(payload, "stop"@) is None,
    ensures
        spec_interpret(v) == (InterpretedEvent::SessionStarted { start }),
        spec_next_presence(spec_interpret(v), now, prev) == 0,
        spec_publish_for(spec_interpret(v)) == Option::Some(StatusKind::Busy),
        spec_reply_for(spec_interpret(v)) == WebhookReply::Accepted,
{
}

/// Applying a `SessionStarted` event twice in a row leaves the presence
/// record at 0 both times and asks for a `busy` publish both times, whatever
/// the clock read at either application.
pub proof fn lemma_session_started_idempotent(
    first: InterpretedEvent,
    second: InterpretedEvent,
    now1: u64,
    now2: u64,
    prev: u64,
)
    requires
        first is SessionStarted,
        second is SessionStarted,
    ensures
        spec_next_presence(first, now1, prev) == 0,
        spec_next_presence(second, now2, spec_next_presence(first, now1, prev)) == 0,
        spec_publish_for(first) == Option::Some(StatusKind::Busy),
        spec_publish_for(second) == Option::Some(StatusKind::Busy),
{
}

} // verus!
