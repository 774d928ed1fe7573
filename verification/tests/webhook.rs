use amibussy::handler::webhook_get;
use amibussy::handler::webhook_post;
use amibussy::handler::WebhookReply;
use amibussy::publisher::StatusKind;
use amibussy::sweeper::afk_threshold_seconds;
use amibussy::sweeper::sweep_tick;
use amibussy::PresenceState;

#[test]
fn post_unparsable_body_is_bad_request() {
    let mut state = PresenceState { last_break_epoch_seconds: 7 };
    let (reply, publish) = webhook_post(b"this is not json", 100, &mut state);
    assert_eq!(reply, WebhookReply::BadRequest);
    assert_eq!(reply.status_code(), 400);
    assert_eq!(publish, None);
    assert_eq!(state.last_break_epoch_seconds, 7);
}

#[test]
fn post_missing_fields_is_unprocessable() {
    let mut state = PresenceState::new();
    let (reply, publish) = webhook_post(b"{\"other\": 3}", 100, &mut state);
    assert_eq!(reply, WebhookReply::UnprocessableEntity);
    assert_eq!(reply.status_code(), 422);
    assert_eq!(publish, None);
    assert_eq!(state.last_break_epoch_seconds, 0);
}

#[test]
fn post_non_object_body_is_unprocessable() {
    let mut state = PresenceState::new();
    let (reply, _) = webhook_post(b"[1, 2, 3]", 100, &mut state);
    assert_eq!(reply.status_code(), 422);
}

#[test]
fn post_ping_echoes_validation_code() {
    let mut state = PresenceState { last_break_epoch_seconds: 42 };
    let body = b"{\"event_id\": 9, \"payload\": \"ping\", \"validation_code\": \"V123\"}";
    let (reply, publish) = webhook_post(body, 100, &mut state);
    assert_eq!(reply, WebhookReply::ValidationReply { code: "V123".to_string() });
    assert_eq!(reply.status_code(), 200);
    assert_eq!(publish, None);
    assert_eq!(state.last_break_epoch_seconds, 42);
}

#[test]
fn post_ping_without_code_is_bad_request() {
    let mut state = PresenceState::new();
    let body = b"{\"event_id\": 9, \"payload\": \"ping\"}";
    let (reply, publish) = webhook_post(body, 100, &mut state);
    assert_eq!(reply, WebhookReply::BadRequest);
    assert_eq!(reply.status_code(), 400);
    assert_eq!(publish, None);
}

#[test]
fn post_stop_event_records_break() {
    let mut state = PresenceState::new();
    let body =
        b"{\"event_id\": 9, \"payload\": {\"start\": \"t1\", \"stop\": \"t2\", \"id\": 4}}";
    let (reply, publish) = webhook_post(body, 1234, &mut state);
    assert_eq!(reply, WebhookReply::Accepted);
    assert_eq!(reply.status_code(), 200);
    assert_eq!(publish, Some(StatusKind::OnBreak));
    assert_eq!(state.last_break_epoch_seconds, 1234);
    assert_ne!(state.last_break_epoch_seconds, 0);
}

#[test]
fn post_start_event_clears_break() {
    let mut state = PresenceState { last_break_epoch_seconds: 555 };
    let body = b"{\"event_id\": 9, \"payload\": {\"start\": \"t1\"}}";
    let (reply, publish) = webhook_post(body, 999, &mut state);
    assert_eq!(reply, WebhookReply::Accepted);
    assert_eq!(publish, Some(StatusKind::Busy));
    assert_eq!(state.last_break_epoch_seconds, 0);
}

#[test]
fn post_ignored_event_is_accepted_silently() {
    let mut state = PresenceState { last_break_epoch_seconds: 5 };
    let body = b"{\"event_id\": 9, \"payload\": {\"id\": 4}}";
    let (reply, publish) = webhook_post(body, 100, &mut state);
    assert_eq!(reply, WebhookReply::Accepted);
    assert_eq!(publish, None);
    assert_eq!(state.last_break_epoch_seconds, 5);
}

#[test]
fn start_event_twice_is_idempotent() {
    let mut state = PresenceState { last_break_epoch_seconds: 321 };
    let body = b"{\"event_id\": 9, \"payload\": {\"start\": \"t1\"}}";
    let (_, publish1) = webhook_post(body, 50, &mut state);
    assert_eq!(state.last_break_epoch_seconds, 0);
    assert_eq!(publish1, Some(StatusKind::Busy));
    let (_, publish2) = webhook_post(body, 60, &mut state);
    assert_eq!(state.last_break_epoch_seconds, 0);
    assert_eq!(publish2, Some(StatusKind::Busy));
}

#[test]
fn webhook_get_is_static_ack() {
    assert_eq!(webhook_get(), "<h4>Ok</h4>");
}

#[test]
fn break_degrades_to_away_then_busy_resumes() {
    let threshold = afk_threshold_seconds(30);
    assert_eq!(threshold, 1800);

    let mut state = PresenceState::new();

    let stop_body = b"{\"event_id\": 9, \"payload\": {\"start\": \"t1\", \"stop\": \"t2\"}}";
    let (reply, publish) = webhook_post(stop_body, 1000, &mut state);
    assert_eq!(reply.status_code(), 200);
    assert_eq!(publish, Some(StatusKind::OnBreak));
    assert_eq!(state.last_break_epoch_seconds, 1000);

    let publish = sweep_tick(&mut state, 1000 + 1801, threshold);
    assert_eq!(publish, Some(StatusKind::Away));
    assert_eq!(state.last_break_epoch_seconds, 0);

    let start_body = b"{\"event_id\": 9, \"payload\": {\"start\": \"t3\"}}";
    let (reply, publish) = webhook_post(start_body, 1000 + 1900, &mut state);
    assert_eq!(reply.status_code(), 200);
    assert_eq!(publish, Some(StatusKind::Busy));
    assert_eq!(state.last_break_epoch_seconds, 0);
}
