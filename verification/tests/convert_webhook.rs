use serde_json::Value;
use tween_accounts::convert::webhook::delivery_status;
use tween_accounts::convert::webhook::find_message_id;
use tween_accounts::convert::webhook::handle_payload;
use tween_accounts::convert::webhook::moves_forward;
use tween_accounts::convert::webhook::read_event_name;
use tween_accounts::convert::webhook::status_rank;
use tween_accounts::convert::webhook::webhook;
use tween_accounts::convert::webhook::WebhookAnswers;
use tween_accounts::convert::webhook::WebhookAsk;
use tween_accounts::convert::webhook::WebhookNext;
use tween_accounts::convert::webhook::SIGNATURE_HEADER;
use tween_accounts::json::JsonValue;

fn json(text: &str) -> JsonValue {
    let value: Value = serde_json::from_str(text).unwrap();
    JsonValue::from_value(&value)
}

fn unanswered() -> WebhookAnswers {
    WebhookAnswers { signature_valid: None, recorded: None, delivery_updated: false }
}

#[test]
fn delivery_events_map_to_a_status() {
    assert_eq!(delivery_status("message.delivered"), Some("delivered"));
    assert_eq!(delivery_status("message.bounced"), Some("bounced"));
    assert_eq!(delivery_status("message.unsubscribed"), Some("unsubscribed"));
    assert_eq!(delivery_status("campaign.completed"), None);
    assert_eq!(delivery_status("contact.created"), None);
    assert_eq!(delivery_status("something.new"), None);
}

#[test]
fn message_id_is_found_wherever_convert_puts_it() {
    assert_eq!(find_message_id(&json(r#"{"message_id": "msg_1"}"#)), Some("msg_1"));
    assert_eq!(
        find_message_id(&json(r#"{"data": {"message": {"message_id": "msg_2"}}}"#)),
        Some("msg_2")
    );
    assert_eq!(
        find_message_id(&json(r#"{"data": {"events": [{"message_id": "msg_3"}]}}"#)),
        Some("msg_3")
    );
    assert_eq!(find_message_id(&json(r#"{"data": {"status": "delivered"}}"#)), None);
}

#[test]
fn delivery_status_only_moves_forwards() {
    assert!(status_rank("sent") < status_rank("delivered"));
    assert!(status_rank("delivered") < status_rank("opened"));
    // A terminal failure outranks a healthy-looking later event.
    assert!(status_rank("clicked") < status_rank("failed"));
    assert!(status_rank("bounced") < status_rank("unsubscribed"));
    assert!(status_rank("nonsense") < status_rank("accepted"));
}

#[test]
fn every_message_event_has_a_status_and_every_status_a_rank() {
    let events = [
        ("message.sent", "sent", 1),
        ("message.delivered", "delivered", 2),
        ("message.opened", "opened", 3),
        ("message.clicked", "clicked", 4),
        ("message.failed", "failed", 5),
        ("message.bounced", "bounced", 6),
        ("message.unsubscribed", "unsubscribed", 7),
    ];
    for (event, status, rank) in events {
        assert_eq!(delivery_status(event), Some(status));
        assert_eq!(status_rank(status), rank);
    }
    assert_eq!(status_rank("accepted"), 0);
    assert_eq!(status_rank(""), -1);
}

#[test]
fn outer_message_ids_come_first() {
    assert_eq!(
        find_message_id(&json(r#"{"a": {"message_id": "inner"}, "message_id": "outer"}"#)),
        Some("outer")
    );
    // A message_id that is no text is looked into like any other value.
    assert_eq!(
        find_message_id(&json(r#"{"message_id": {"message_id": "deep"}}"#)),
        Some("deep")
    );
    assert_eq!(
        find_message_id(&json(r#"[1, true, null, [{"message_id": "first"}], {"message_id": "second"}]"#)),
        Some("first")
    );
    assert_eq!(find_message_id(&json("\"message_id\"")), None);
}

#[test]
fn event_names_are_read_from_event_or_type() {
    assert_eq!(read_event_name(&json(r#"{"event": "message.sent", "type": "x"}"#)), "message.sent");
    assert_eq!(read_event_name(&json(r#"{"type": "message.sent"}"#)), "message.sent");
    // An `event` that is no text hides the `type`.
    assert_eq!(read_event_name(&json(r#"{"event": 1, "type": "message.sent"}"#)), "unknown");
    assert_eq!(read_event_name(&json("[]")), "unknown");
}

#[test]
fn late_events_do_not_take_a_message_back() {
    assert!(moves_forward(None, "sent"));
    assert!(moves_forward(Some("accepted"), "sent"));
    assert!(moves_forward(Some("sent"), "sent"));
    assert!(!moves_forward(Some("delivered"), "sent"));
    assert!(!moves_forward(Some("failed"), "opened"));
    assert!(moves_forward(Some("failed"), "bounced"));
    assert!(!moves_forward(Some("unsubscribed"), "unsubscribed"));
    assert!(moves_forward(Some("nonsense"), "accepted"));
}

#[test]
fn events_in_any_order_leave_the_same_status() {
    let settle = |statuses: &[&'static str]| {
        let mut stored: Option<&str> = None;
        for status in statuses {
            if moves_forward(stored, status) {
                stored = Some(status);
            }
        }
        stored
    };
    assert_eq!(settle(&["sent", "delivered", "failed"]), Some("failed"));
    assert_eq!(settle(&["failed", "sent", "delivered"]), Some("failed"));
    assert_eq!(settle(&["delivered", "failed", "sent"]), Some("failed"));
}

#[test]
fn disabled_webhooks_are_unavailable() {
    assert_eq!(
        webhook(false, b"{}", &unanswered()),
        WebhookNext::Reply { code: 503, text: "Convert webhooks are not configured" }
    );
}

#[test]
fn unsigned_deliveries_are_refused() {
    let mut known = unanswered();
    assert_eq!(
        webhook(true, b"{}", &known),
        WebhookNext::Ask(WebhookAsk::VerifySignature)
    );
    known.signature_valid = Some(false);
    assert_eq!(
        webhook(true, b"{}", &known),
        WebhookNext::Reply { code: 401, text: "Invalid signature" }
    );
    assert_eq!(SIGNATURE_HEADER, "x-convert-signature");
}

#[test]
fn malformed_payloads_are_refused() {
    let mut known = unanswered();
    known.signature_valid = Some(true);
    assert_eq!(
        webhook(true, b"{\"event\":", &known),
        WebhookNext::Reply { code: 400, text: "Malformed payload" }
    );
    assert_eq!(
        handle_payload(None, &known),
        WebhookNext::Reply { code: 400, text: "Malformed payload" }
    );
}

#[test]
fn deliveries_are_recorded_and_then_applied() {
    let body = br#"{"event": "message.delivered", "data": {"message_id": "msg_7"}}"#;
    let mut known = unanswered();
    known.signature_valid = Some(true);
    assert_eq!(
        webhook(true, body, &known),
        WebhookNext::Ask(WebhookAsk::RecordEvent {
            event: "message.delivered".to_owned(),
            message_id: Some("msg_7".to_owned()),
            payload: serde_json::from_slice(body).unwrap(),
        })
    );
    known.recorded = Some(false);
    assert_eq!(
        webhook(true, body, &known),
        WebhookNext::Reply { code: 500, text: "Could not record event" }
    );
    known.recorded = Some(true);
    assert_eq!(
        webhook(true, body, &known),
        WebhookNext::Ask(WebhookAsk::UpdateDelivery {
            message: "msg_7".to_owned(),
            status: "delivered",
        })
    );
    known.delivery_updated = true;
    assert_eq!(
        webhook(true, body, &known),
        WebhookNext::Reply { code: 200, text: "ok" }
    );
}

#[test]
fn the_delivered_document_is_recorded_whole() {
    let mut known = unanswered();
    known.signature_valid = Some(true);
    let body = br#"{"type": "contact.created", "data": [1, -2.5, null, {"deep": "x"}]}"#;
    let WebhookNext::Ask(WebhookAsk::RecordEvent { event, message_id, payload }) =
        webhook(true, body, &known)
    else {
        panic!("nothing is recorded");
    };
    assert_eq!(event, "contact.created");
    assert_eq!(message_id, None);
    assert_eq!(payload, serde_json::from_slice::<Value>(body).unwrap());
    assert_eq!(payload["data"][1], Value::from(-2.5));
    // The same document, handed in as a value.
    assert_eq!(
        handle_payload(Some(payload.clone()), &known),
        WebhookNext::Ask(WebhookAsk::RecordEvent { event, message_id, payload })
    );
}

#[test]
fn ignored_events_are_acknowledged() {
    let mut known = unanswered();
    known.signature_valid = Some(true);
    known.recorded = Some(true);
    let ok = WebhookNext::Reply { code: 200, text: "ok" };
    assert_eq!(webhook(true, br#"{"event": "campaign.completed", "message_id": "m"}"#, &known), ok);
    assert_eq!(webhook(true, br#"{"event": "message.sent"}"#, &known), ok);
    assert_eq!(webhook(true, b"17", &known), ok);
}
