//! What Convert reports about the messages it delivers.

use crate::json::read_document;
use crate::json::JsonValue;
use crate::text::same_text;
use vstd::prelude::*;

verus! {

/// The header that carries the signature of a webhook delivery.
pub const SIGNATURE_HEADER: &'static str = "x-convert-signature";

/// The delivery status that an event stands for.
pub open spec fn status_of_event(event: Seq<char>) -> Option<Seq<char>> {
    if event == "message.sent"@ {
        Some("sent"@)
    } else if event == "message.delivered"@ {
        Some("delivered"@)
    } else if event == "message.failed"@ {
        Some("failed"@)
    } else if event == "message.bounced"@ {
        Some("bounced"@)
    } else if event == "message.unsubscribed"@ {
        Some("unsubscribed"@)
    } else if event == "message.opened"@ {
        Some("opened"@)
    } else if event == "message.clicked"@ {
        Some("clicked"@)
    } else {
        None
    }
}

/// Delivery state for a Convert event, as stored against a validation session.
///
/// Convert retries a delivery up to five times, so an earlier event can land
/// after a later one; the update is guarded by [`status_rank`] rather than
/// trusting arrival order.
pub fn delivery_status(event: &str) -> (r: Option<&'static str>)
    ensures
        match r {
            Some(status) => status_of_event(event@) == Some(status@),
            None => status_of_event(event@) is None,
        },
{
    if same_text(event, "message.sent") {
        Some("sent")
    } else if same_text(event, "message.delivered") {
        Some("delivered")
    } else if same_text(event, "message.failed") {
        Some("failed")
    } else if same_text(event, "message.bounced") {
        Some("bounced")
    } else if same_text(event, "message.unsubscribed") {
        Some("unsubscribed")
    } else if same_text(event, "message.opened") {
        Some("opened")
    } else if same_text(event, "message.clicked") {
        Some("clicked")
    } else {
        // Campaign and contact events carry no message of ours.
        None
    }
}

/// How far along a delivery status is; a text that is no status comes before all.
pub open spec fn rank_of_status(status: Seq<char>) -> int {
    if status == "accepted"@ {
        0
    } else if status == "sent"@ {
        1
    } else if status == "delivered"@ {
        2
    } else if status == "opened"@ {
        3
    } else if status == "clicked"@ {
        4
    } else if status == "failed"@ {
        5
    } else if status == "bounced"@ {
        6
    } else if status == "unsubscribed"@ {
        7
    } else {
        -1
    }
}

/// How far along a delivery status is.
///
/// `failed`, `bounced` and `unsubscribed` outrank everything: once a message
/// has terminally failed, a late `opened` (or a retried `sent`) must not make
/// it look healthy again.
pub fn status_rank(status: &str) -> (r: i32)
    ensures
        r == rank_of_status(status@),
{
    if same_text(status, "accepted") {
        0
    } else if same_text(status, "sent") {
        1
    } else if same_text(status, "delivered") {
        2
    } else if same_text(status, "opened") {
        3
    } else if same_text(status, "clicked") {
        4
    } else if same_text(status, "failed") {
        5
    } else if same_text(status, "bounced") {
        6
    } else if same_text(status, "unsubscribed") {
        7
    } else {
        -1
    }
}

/// The first text under the key `message_id` in a value, outer levels first and then
/// the members or items in their order.
pub open spec fn first_message_id(value: crate::json::Json) -> Option<Seq<char>>
    decreases value, 0int,
{
    match value {
        crate::json::Json::Object(members) => match value.text_member("message_id"@) {
            Some(id) => Some(id),
            None => first_message_id_in_members(members, 0),
        },
        crate::json::Json::Array(items) => first_message_id_in_items(items, 0),
        _ => None,
    }
}

/// The first `message_id` in the members from `from` on.
pub open spec fn first_message_id_in_members(
    members: Seq<(Seq<char>, crate::json::Json)>,
    from: int,
) -> Option<Seq<char>>
    decreases members, members.len() - from,
{
    if 0 <= from < members.len() {
        match first_message_id(members[from].1) {
            Some(id) => Some(id),
            None => first_message_id_in_members(members, from + 1),
        }
    } else {
        None
    }
}

/// The first `message_id` in the items from `from` on.
pub open spec fn first_message_id_in_items(items: Seq<crate::json::Json>, from: int) -> Option<
    Seq<char>,
>
    decreases items, items.len() - from,
{
    if 0 <= from < items.len() {
        match first_message_id(items[from]) {
            Some(id) => Some(id),
            None => first_message_id_in_items(items, from + 1),
        }
    } else {
        None
    }
}

/// Find the first `message_id` anywhere in the payload.
///
/// Defensive on purpose: the event names are known but not the payload shape, so
/// no nesting is relied on.
pub fn find_message_id(value: &JsonValue) -> (r: Option<&str>)
    ensures
        match r {
            Some(id) => first_message_id(value@) == Some(id@),
            None => first_message_id(value@) is None,
        },
    decreases value,
{
    match value {
        JsonValue::Object(members) => {
            if let Some(id) = value.text_member("message_id") {
                return Some(id);
            }
            let ghost all = value@->Object_0;
            let mut i: usize = 0;
            proof {
                crate::json::object_contents(*value);
            }
            while i < members.len()
                invariant
                    0 <= i <= members@.len(),
                    value == JsonValue::Object(*members),
                    all == value@->Object_0,
                    all.len() == members@.len(),
                    forall|j: int|
                        0 <= j < members@.len() ==> (#[trigger] all[j]).1 == members@[j].1@,
                    first_message_id(value@) == first_message_id_in_members(all, i as int),
                decreases members@.len() - i,
            {
                proof {
                    assert(decreases_to!(value => members));
                    assert(decreases_to!(members => members@));
                    assert(decreases_to!(members@ => members@[i as int]));
                    assert(decreases_to!(members@[i as int] => members@[i as int].1));
                    assert(all[i as int].1 == members@[i as int].1@);
                }
                if let Some(id) = find_message_id(&members[i].1) {
                    return Some(id);
                }
                i = i + 1;
            }
            None
        },
        JsonValue::Array(items) => {
            let ghost all = value@->Array_0;
            let mut i: usize = 0;
            while i < items.len()
                invariant
                    0 <= i <= items@.len(),
                    value == JsonValue::Array(*items),
                    all == value@->Array_0,
                    all.len() == items@.len(),
                    forall|j: int| 0 <= j < items@.len() ==> #[trigger] all[j] == items@[j]@,
                    first_message_id(value@) == first_message_id_in_items(all, i as int),
                decreases items@.len() - i,
            {
                proof {
                    assert(decreases_to!(value => items));
                    assert(decreases_to!(items => items@));
                    assert(decreases_to!(items@ => items@[i as int]));
                    assert(all[i as int] == items@[i as int]@);
                }
                if let Some(id) = find_message_id(&items[i]) {
                    return Some(id);
                }
                i = i + 1;
            }
            None
        },
        _ => None,
    }
}

/// Whether a message whose stored delivery status is `stored` takes the new status:
/// an `unsubscribed` one takes none, and others never fall back.
pub open spec fn takes_status(stored: Option<Seq<char>>, status: Seq<char>) -> bool {
    let current = match stored {
        Some(text) => text,
        None => ""@,
    };
    current != "unsubscribed"@ && rank_of_status(status) >= rank_of_status(current)
}

/// Whether a message whose stored delivery status is `stored` takes the new status.
///
/// Only ever forwards.
pub fn moves_forward(stored: Option<&str>, status: &str) -> (r: bool)
    ensures
        r == takes_status(
            match stored {
                Some(text) => Some(text@),
                None => None,
            },
            status@,
        ),
{
    let current: &str = match stored {
        Some(text) => text,
        None => "",
    };
    !same_text(current, "unsubscribed") && status_rank(status) >= status_rank(current)
}

/// The name of the event that a payload reports.
pub open spec fn event_name(payload: crate::json::Json) -> Seq<char> {
    let named = match payload.member("event"@) {
        Some(name) => Some(name),
        None => payload.member("type"@),
    };
    match named {
        Some(crate::json::Json::Text(name)) => name,
        _ => "unknown"@,
    }
}

/// The name of the event that a payload reports.
pub fn read_event_name(payload: &JsonValue) -> (r: &str)
    ensures
        r@ == event_name(payload@),
{
    let named = match payload.member("event") {
        Some(name) => Some(name),
        None => payload.member("type"),
    };
    match named {
        Some(name) => match name.as_text() {
            Some(text) => text,
            None => "unknown",
        },
        None => "unknown",
    }
}

/// What the handling of a webhook delivery asks for, or has done.
#[derive(Debug, PartialEq, Eq)]
pub enum WebhookAsk {
    /// Check the signature of the body.
    VerifySignature,
    /// Keep the event and the document that reported it: it is the only record of what
    /// Convert reported.
    RecordEvent { event: String, message_id: Option<String>, payload: serde_json::Value },
    /// Give every validation session of the message the status, where it
    /// [moves forward](moves_forward).
    UpdateDelivery { message: String, status: &'static str },
}

/// What the handling of a webhook delivery needs next, or the answer to it.
#[derive(Debug, PartialEq, Eq)]
pub enum WebhookNext {
    Ask(WebhookAsk),
    Reply { code: u16, text: &'static str },
}

/// The contents of a [`WebhookNext`].
pub enum WebhookView {
    VerifySignature,
    RecordEvent { event: Seq<char>, message_id: Option<Seq<char>>, payload: crate::json::Json },
    UpdateDelivery { message: Seq<char>, status: Seq<char> },
    Reply { code: u16, text: Seq<char> },
}

impl View for WebhookNext {
    type V = WebhookView;

    open spec fn view(&self) -> WebhookView {
        match self {
            WebhookNext::Ask(WebhookAsk::VerifySignature) => WebhookView::VerifySignature,
            WebhookNext::Ask(WebhookAsk::RecordEvent { event, message_id, payload }) =>
            WebhookView::RecordEvent {
                event: event@,
                message_id: match message_id {
                    Some(id) => Some(id@),
                    None => None,
                },
                payload: crate::json::json_contents(*payload),
            },
            WebhookNext::Ask(WebhookAsk::UpdateDelivery { message, status }) =>
            WebhookView::UpdateDelivery { message: message@, status: status@ },
            WebhookNext::Reply { code, text } => WebhookView::Reply {
                code: *code,
                text: text@,
            },
        }
    }
}

/// The answers that the handling of a webhook delivery has had so far.
#[derive(Debug, Clone, Copy)]
pub struct WebhookAnswers {
    pub signature_valid: Option<bool>,
    /// Whether the event could be recorded.
    pub recorded: Option<bool>,
    /// Whether the update was made, or tried.
    pub delivery_updated: bool,
}

/// What is done about a signed payload.
pub open spec fn payload_next(payload: Option<crate::json::Json>, known: WebhookAnswers)
    -> WebhookView {
    match payload {
        None => WebhookView::Reply { code: 400, text: "Malformed payload"@ },
        Some(payload) => {
            let event = event_name(payload);
            let message_id = first_message_id(payload);
            match known.recorded {
                None => WebhookView::RecordEvent { event, message_id, payload },
                Some(false) => WebhookView::Reply { code: 500, text: "Could not record event"@ },
                Some(true) => match (status_of_event(event), message_id) {
                    (Some(status), Some(message_id)) => if known.delivery_updated {
                        WebhookView::Reply { code: 200, text: "ok"@ }
                    } else {
                        WebhookView::UpdateDelivery { message: message_id, status }
                    },
                    _ => WebhookView::Reply { code: 200, text: "ok"@ },
                },
            }
        },
    }
}

/// The next thing that the handling of a webhook delivery asks for, or the answer.
pub open spec fn webhook_next(enabled: bool, body: Seq<u8>, known: WebhookAnswers) -> WebhookView {
    if !enabled {
        WebhookView::Reply { code: 503, text: "Convert webhooks are not configured"@ }
    } else {
        match known.signature_valid {
            None => WebhookView::VerifySignature,
            Some(false) => WebhookView::Reply { code: 401, text: "Invalid signature"@ },
            Some(true) => payload_next(crate::json::json_document(body), known),
        }
    }
}

/// Handle a signed payload; `None` where the body is no JSON document.
pub fn handle_payload(payload: Option<serde_json::Value>, known: &WebhookAnswers) -> (r:
    WebhookNext)
    ensures
        r@ == payload_next(
            match payload {
                Some(value) => Some(crate::json::json_contents(value)),
                None => None,
            },
            *known,
        ),
{
    let document = match payload {
        None => {
            return WebhookNext::Reply { code: 400, text: "Malformed payload" };
        },
        Some(document) => document,
    };
    let payload = JsonValue::from_value(&document);
    let event = read_event_name(&payload);
    let message_id = find_message_id(&payload);
    match known.recorded {
        None => {
            return WebhookNext::Ask(
                WebhookAsk::RecordEvent {
                    event: event.to_owned(),
                    message_id: match message_id {
                        Some(id) => Some(id.to_owned()),
                        None => None,
                    },
                    payload: document,
                },
            );
        },
        Some(false) => {
            // Have Convert try again rather than silently drop the event.
            return WebhookNext::Reply { code: 500, text: "Could not record event" };
        },
        Some(true) => {},
    }
    if let Some(status) = delivery_status(event) {
        if let Some(id) = message_id {
            if !known.delivery_updated {
                return WebhookNext::Ask(
                    WebhookAsk::UpdateDelivery { message: id.to_owned(), status },
                );
            }
        }
    }
    WebhookNext::Reply { code: 200, text: "ok" }
}

/// Verify and record a Convert webhook delivery.
///
/// Convert retries anything that is not a 2xx up to five times, so the answer is
/// 2xx once the signature checks out even if the event is one that is ignored.
pub fn webhook(enabled: bool, body: &[u8], known: &WebhookAnswers) -> (r: WebhookNext)
    ensures
        r@ == webhook_next(enabled, body@, *known),
{
    if !enabled {
        return WebhookNext::Reply { code: 503, text: "Convert webhooks are not configured" };
    }
    match known.signature_valid {
        None => WebhookNext::Ask(WebhookAsk::VerifySignature),
        Some(false) => WebhookNext::Reply { code: 401, text: "Invalid signature" },
        Some(true) => match read_document(body) {
            Ok(document) => handle_payload(Some(document), known),
            Err(_) => handle_payload(None, known),
        },
    }
}

/// Nothing is recorded or changed for a delivery whose signature did not check out.
pub proof fn law_unsigned_deliveries_change_nothing(
    enabled: bool,
    body: Seq<u8>,
    known: WebhookAnswers,
)
    ensures
        webhook_next(enabled, body, known) is RecordEvent || webhook_next(
            enabled,
            body,
            known,
        ) is UpdateDelivery ==> enabled && known.signature_valid == Some(true),
{
}

/// What is recorded is the document that was delivered, with the event that it reports
/// and the message that it names.
pub proof fn law_what_is_recorded_was_delivered(
    enabled: bool,
    body: Seq<u8>,
    known: WebhookAnswers,
)
    ensures
        webhook_next(enabled, body, known) matches WebhookView::RecordEvent {
            event,
            message_id,
            payload,
        } ==> {
            &&& crate::json::json_document(body) == Some(payload)
            &&& event == event_name(payload)
            &&& message_id == first_message_id(payload)
        },
{
}

/// Once the signature checks out and the document is recorded, the answer is 200,
/// also for an event that is ignored.
pub proof fn law_recorded_deliveries_are_acknowledged(body: Seq<u8>, known: WebhookAnswers)
    requires
        known.signature_valid == Some(true),
        known.recorded == Some(true),
        known.delivery_updated,
        crate::json::json_document(body) is Some,
    ensures
        webhook_next(true, body, known) == (WebhookView::Reply { code: 200, text: "ok"@ }),
{
}

/// An event that is no message event changes no delivery status.
pub proof fn law_ignored_events_update_nothing(payload: crate::json::Json, known: WebhookAnswers)
    requires
        status_of_event(event_name(payload)) is None || first_message_id(payload) is None,
    ensures
        !(payload_next(Some(payload), known) is UpdateDelivery),
{
}

/// The stored delivery status of a message after it was given a new one.
pub open spec fn delivery_after(stored: Option<Seq<char>>, status: Seq<char>) -> Option<
    Seq<char>,
> {
    if takes_status(stored, status) {
        Some(status)
    } else {
        stored
    }
}

/// The stored delivery status of a message after it was given new ones in turn.
pub open spec fn delivery_after_all(
    stored: Option<Seq<char>>,
    statuses: Seq<Seq<char>>,
) -> Option<Seq<char>>
    decreases statuses.len(),
{
    if statuses.len() == 0 {
        stored
    } else {
        delivery_after(delivery_after_all(stored, statuses.drop_last()), statuses.last())
    }
}

/// How far along a stored status is.
pub open spec fn stored_rank(stored: Option<Seq<char>>) -> int {
    match stored {
        Some(status) => rank_of_status(status),
        None => -1,
    }
}

/// A new status never takes a message back.
pub proof fn law_delivery_only_moves_forwards(stored: Option<Seq<char>>, status: Seq<char>)
    ensures
        stored_rank(delivery_after(stored, status)) >= stored_rank(stored),
{
    no_status_is_empty();
}

/// Once a message has terminally failed, no healthy status replaces that.
pub proof fn law_terminal_failures_stay(stored: Seq<char>, status: Seq<char>)
    requires
        stored == "failed"@ || stored == "bounced"@ || stored == "unsubscribed"@,
        status == "accepted"@ || status == "sent"@ || status == "delivered"@ || status
            == "opened"@ || status == "clicked"@,
    ensures
        delivery_after(Some(stored), status) == Some(stored),
{
    statuses_differ();
}

/// Every status that an event stands for has a rank of its own.
pub proof fn law_event_statuses_are_ranked(event: Seq<char>, other: Seq<char>)
    ensures
        status_of_event(event) matches Some(status) ==> rank_of_status(status) > 0,
        status_of_event(event) is Some && status_of_event(other) is Some && rank_of_status(
            status_of_event(event)->0,
        ) == rank_of_status(status_of_event(other)->0) ==> status_of_event(event)
            == status_of_event(other),
{
    statuses_differ();
}

proof fn no_status_is_empty()
    ensures
        rank_of_status(""@) == -1,
{
    reveal_strlit("");
    reveal_strlit("accepted");
    reveal_strlit("sent");
    reveal_strlit("delivered");
    reveal_strlit("opened");
    reveal_strlit("clicked");
    reveal_strlit("failed");
    reveal_strlit("bounced");
    reveal_strlit("unsubscribed");
    assert(""@.len() == 0);
    assert("accepted"@.len() > 0);
    assert("sent"@.len() > 0);
    assert("delivered"@.len() > 0);
    assert("opened"@.len() > 0);
    assert("clicked"@.len() > 0);
    assert("failed"@.len() > 0);
    assert("bounced"@.len() > 0);
    assert("unsubscribed"@.len() > 0);
}

proof fn statuses_differ()
    ensures
        rank_of_status("accepted"@) == 0,
        rank_of_status("sent"@) == 1,
        rank_of_status("delivered"@) == 2,
        rank_of_status("opened"@) == 3,
        rank_of_status("clicked"@) == 4,
        rank_of_status("failed"@) == 5,
        rank_of_status("bounced"@) == 6,
        rank_of_status("unsubscribed"@) == 7,
{
    reveal_strlit("accepted");
    reveal_strlit("sent");
    reveal_strlit("delivered");
    reveal_strlit("opened");
    reveal_strlit("clicked");
    reveal_strlit("failed");
    reveal_strlit("bounced");
    reveal_strlit("unsubscribed");
    assert("sent"@[0] == 's');
    assert("accepted"@[0] == 'a');
    assert("delivered"@[0] == 'd');
    assert("opened"@[0] == 'o');
    assert("clicked"@[0] == 'c');
    assert("failed"@[0] == 'f');
    assert("bounced"@[0] == 'b');
    assert("unsubscribed"@[0] == 'u');
}

proof fn delivery_after_all_is_the_highest(stored: Option<Seq<char>>, statuses: Seq<Seq<char>>)
    ensures
        stored_rank(delivery_after_all(stored, statuses)) >= stored_rank(stored),
        forall|i: int|
            0 <= i < statuses.len() ==> stored_rank(delivery_after_all(stored, statuses))
                >= rank_of_status(#[trigger] statuses[i]),
        delivery_after_all(stored, statuses) == stored || exists|i: int|
            0 <= i < statuses.len() && delivery_after_all(stored, statuses) == Some(
                #[trigger] statuses[i],
            ),
    decreases statuses.len(),
{
    no_status_is_empty();
    statuses_differ();
    if statuses.len() > 0 {
        let front = statuses.drop_last();
        delivery_after_all_is_the_highest(stored, front);
        law_delivery_only_moves_forwards(delivery_after_all(stored, front), statuses.last());
        let r = delivery_after_all(stored, statuses);
        assert forall|i: int| 0 <= i < statuses.len() implies stored_rank(r) >= rank_of_status(
            #[trigger] statuses[i],
        ) by {
            if i < front.len() {
                assert(front[i] == statuses[i]);
            }
        }
        if r == delivery_after_all(stored, front) && r != stored {
            let j = choose|j: int| 0 <= j < front.len() && r == Some(#[trigger] front[j]);
            assert(statuses[j] == front[j]);
        } else if r != stored {
            assert(statuses[statuses.len() - 1] == statuses.last());
        }
    }
}

/// The order in which events arrive makes no difference: the same statuses, in any
/// order, leave the same status stored.
pub proof fn law_arrival_order_does_not_matter(
    stored: Option<Seq<char>>,
    statuses: Seq<Seq<char>>,
    reordered: Seq<Seq<char>>,
)
    requires
        statuses.to_multiset() == reordered.to_multiset(),
        forall|i: int| 0 <= i < statuses.len() ==> rank_of_status(#[trigger] statuses[i]) >= 0,
    ensures
        delivery_after_all(stored, statuses) == delivery_after_all(stored, reordered),
{
    broadcast use vstd::seq_lib::group_to_multiset_ensures;

    delivery_after_all_is_the_highest(stored, statuses);
    delivery_after_all_is_the_highest(stored, reordered);
    let a = delivery_after_all(stored, statuses);
    let b = delivery_after_all(stored, reordered);
    assert forall|i: int| 0 <= i < statuses.len() implies stored_rank(b) >= rank_of_status(
        #[trigger] statuses[i],
    ) by {
        assert(statuses.contains(statuses[i]));
        assert(reordered.to_multiset().count(statuses[i]) > 0);
        assert(reordered.contains(statuses[i]));
    }
    assert forall|i: int| 0 <= i < reordered.len() implies rank_of_status(
        #[trigger] reordered[i],
    ) >= 0 && stored_rank(a) >= rank_of_status(reordered[i]) by {
        assert(reordered.contains(reordered[i]));
        assert(statuses.to_multiset().count(reordered[i]) > 0);
        assert(statuses.contains(reordered[i]));
    }
    assert(stored_rank(a) == stored_rank(b));
    statuses_differ();
    if a != b {
        // One of them is not what was stored before, so both have a rank that only
        // one status has.
        assert(stored_rank(a) >= 0);
    }
}

/// Whether a value holds this text under the key `message_id`, at any depth.
pub open spec fn holds_message_id(value: crate::json::Json, id: Seq<char>) -> bool
    decreases value,
{
    match value {
        crate::json::Json::Object(members) => {
            ||| value.text_member("message_id"@) == Some(id)
            ||| exists|i: int|
                0 <= i < members.len() && holds_message_id((#[trigger] members[i]).1, id)
        },
        crate::json::Json::Array(items) => exists|i: int|
            0 <= i < items.len() && holds_message_id(#[trigger] items[i], id),
        _ => false,
    }
}

/// Wherever in the payload a message is named, one is found.
pub proof fn law_message_ids_are_found_at_any_depth(payload: crate::json::Json, id: Seq<char>)
    requires
        holds_message_id(payload, id),
    ensures
        first_message_id(payload) is Some,
    decreases payload, 0int,
{
    match payload {
        crate::json::Json::Object(members) => {
            if payload.text_member("message_id"@) is None {
                let i = choose|i: int|
                    0 <= i < members.len() && holds_message_id((#[trigger] members[i]).1, id);
                found_in_members(members, 0, i, id);
            }
        },
        crate::json::Json::Array(items) => {
            let i = choose|i: int|
                0 <= i < items.len() && holds_message_id(#[trigger] items[i], id);
            found_in_items(items, 0, i, id);
        },
        _ => {},
    }
}

proof fn found_in_members(
    members: Seq<(Seq<char>, crate::json::Json)>,
    from: int,
    at: int,
    id: Seq<char>,
)
    requires
        0 <= from <= at < members.len(),
        holds_message_id(members[at].1, id),
    ensures
        first_message_id_in_members(members, from) is Some,
    decreases members, members.len() - from,
{
    if from == at {
        assert(decreases_to!(members => members[at]));
        assert(decreases_to!(members[at] => members[at].1));
        law_message_ids_are_found_at_any_depth(members[at].1, id);
    } else {
        found_in_members(members, from + 1, at, id);
    }
}

proof fn found_in_items(items: Seq<crate::json::Json>, from: int, at: int, id: Seq<char>)
    requires
        0 <= from <= at < items.len(),
        holds_message_id(items[at], id),
    ensures
        first_message_id_in_items(items, from) is Some,
    decreases items, items.len() - from,
{
    if from == at {
        law_message_ids_are_found_at_any_depth(items[at], id);
    } else {
        found_in_items(items, from + 1, at, id);
    }
}

/// The message that is found is named in the payload.
pub proof fn law_found_message_ids_stand_in_the_payload(payload: crate::json::Json)
    requires
        first_message_id(payload) is Some,
    ensures
        holds_message_id(payload, first_message_id(payload)->0),
    decreases payload, 0int,
{
    match payload {
        crate::json::Json::Object(members) => {
            if payload.text_member("message_id"@) is None {
                let i = member_with_the_first(members, 0);
                assert(holds_message_id(members[i].1, first_message_id(payload)->0));
            }
        },
        crate::json::Json::Array(items) => {
            let i = item_with_the_first(items, 0);
            assert(holds_message_id(items[i], first_message_id(payload)->0));
        },
        _ => {},
    }
}

proof fn member_with_the_first(
    members: Seq<(Seq<char>, crate::json::Json)>,
    from: int,
) -> (i: int)
    requires
        0 <= from,
        first_message_id_in_members(members, from) is Some,
    ensures
        from <= i < members.len(),
        holds_message_id(members[i].1, first_message_id_in_members(members, from)->0),
    decreases members, members.len() - from,
{
    assert(decreases_to!(members => members[from]));
    assert(decreases_to!(members[from] => members[from].1));
    if first_message_id(members[from].1) is Some {
        law_found_message_ids_stand_in_the_payload(members[from].1);
        from
    } else {
        member_with_the_first(members, from + 1)
    }
}

proof fn item_with_the_first(items: Seq<crate::json::Json>, from: int) -> (i: int)
    requires
        0 <= from,
        first_message_id_in_items(items, from) is Some,
    ensures
        from <= i < items.len(),
        holds_message_id(items[i], first_message_id_in_items(items, from)->0),
    decreases items, items.len() - from,
{
    if first_message_id(items[from]) is Some {
        law_found_message_ids_stand_in_the_payload(items[from]);
        from
    } else {
        item_with_the_first(items, from + 1)
    }
}

/// Without a secret to check signatures with, the endpoint stays disabled: nothing is
/// ever recorded.
pub proof fn law_without_a_secret_nothing_is_recorded(
    config: crate::convert::config::ConvertConfig,
    body: Seq<u8>,
    known: WebhookAnswers,
)
    requires
        !crate::convert::config::is_configured(crate::text::contents(config.webhook_secret)),
    ensures
        webhook_next(
            crate::convert::config::is_configured(crate::text::contents(config.webhook_secret)),
            body,
            known,
        ) == (WebhookView::Reply { code: 503, text: "Convert webhooks are not configured"@ }),
{
}

/// These are the events that stand for a delivery status; no other event does.
pub proof fn law_events_stand_for_these_statuses(event: Seq<char>)
    ensures
        event == "message.sent"@ ==> status_of_event(event) == Some("sent"@),
        event == "message.delivered"@ ==> status_of_event(event) == Some("delivered"@),
        event == "message.failed"@ ==> status_of_event(event) == Some("failed"@),
        event == "message.bounced"@ ==> status_of_event(event) == Some("bounced"@),
        event == "message.unsubscribed"@ ==> status_of_event(event) == Some("unsubscribed"@),
        event == "message.opened"@ ==> status_of_event(event) == Some("opened"@),
        event == "message.clicked"@ ==> status_of_event(event) == Some("clicked"@),
        status_of_event(event) is Some ==> {
            ||| event == "message.sent"@
            ||| event == "message.delivered"@
            ||| event == "message.failed"@
            ||| event == "message.bounced"@
            ||| event == "message.unsubscribed"@
            ||| event == "message.opened"@
            ||| event == "message.clicked"@
        },
{
    reveal_strlit("message.sent");
    reveal_strlit("message.delivered");
    reveal_strlit("message.failed");
    reveal_strlit("message.bounced");
    reveal_strlit("message.unsubscribed");
    reveal_strlit("message.opened");
    reveal_strlit("message.clicked");
    assert("message.sent"@[8] == 's');
    assert("message.delivered"@[8] == 'd');
    assert("message.failed"@[8] == 'f');
    assert("message.bounced"@[8] == 'b');
    assert("message.unsubscribed"@[8] == 'u');
    assert("message.opened"@[8] == 'o');
    assert("message.clicked"@[8] == 'c');
}

/// This is how far along each status is. A text that is none of these comes before them
/// all.
pub proof fn law_statuses_have_these_ranks(status: Seq<char>)
    ensures
        status == "accepted"@ <==> rank_of_status(status) == 0,
        status == "sent"@ <==> rank_of_status(status) == 1,
        status == "delivered"@ <==> rank_of_status(status) == 2,
        status == "opened"@ <==> rank_of_status(status) == 3,
        status == "clicked"@ <==> rank_of_status(status) == 4,
        status == "failed"@ <==> rank_of_status(status) == 5,
        status == "bounced"@ <==> rank_of_status(status) == 6,
        status == "unsubscribed"@ <==> rank_of_status(status) == 7,
        -1 <= rank_of_status(status) <= 7,
{
    statuses_differ();
}

/// A message without a stored status takes every status. One with a stored status takes any
/// that is no less far along, the same one too, unless the stored one is `unsubscribed`,
/// which nothing replaces.
pub proof fn law_statuses_are_taken_by_rank(stored: Seq<char>, status: Seq<char>)
    ensures
        takes_status(None, status),
        takes_status(Some(stored), status) <==> stored != "unsubscribed"@ && rank_of_status(status)
            >= rank_of_status(stored),
        delivery_after(None, status) == Some(status),
        delivery_after(Some(stored), status) == if takes_status(Some(stored), status) {
            Some(status)
        } else {
            Some(stored)
        },
{
    no_status_is_empty();
    statuses_differ();
}

/// The event is the text under `event`. Only where there is nothing under that key does the
/// text under `type` count, and where neither tells it, it is unknown.
pub proof fn law_events_are_named_by_the_payload(payload: crate::json::Json)
    ensures
        payload.member("event"@) matches Some(value) ==> event_name(payload) == match value {
            crate::json::Json::Text(name) => name,
            _ => "unknown"@,
        },
        payload.member("event"@) is None ==> event_name(payload) == match payload.member(
            "type"@,
        ) {
            Some(crate::json::Json::Text(name)) => name,
            _ => "unknown"@,
        },
{
}

/// A message that an object names itself is the one, whatever its members name.
pub proof fn law_outer_message_ids_come_first(payload: crate::json::Json)
    ensures
        payload.text_member("message_id"@) matches Some(id) ==> first_message_id(payload) == Some(
            id,
        ),
        !(payload is Object) && !(payload is Array) ==> first_message_id(payload) is None,
{
}

/// Where an object names no message itself, the message is the first of its members' in
/// their order; of an array it is the first of the items'.
pub proof fn law_earlier_message_ids_come_first(payload: crate::json::Json, at: int)
    ensures
        payload matches crate::json::Json::Object(members) ==> (payload.text_member(
            "message_id"@,
        ) is None && 0 <= at < members.len() && first_message_id(members[at].1) is Some && (forall|
            i: int,
        |
            0 <= i < at ==> first_message_id((#[trigger] members[i]).1) is None)
            ==> first_message_id(payload) == first_message_id(members[at].1)),
        payload matches crate::json::Json::Array(items) ==> (0 <= at < items.len()
            && first_message_id(items[at]) is Some && (forall|i: int|
            0 <= i < at ==> first_message_id(#[trigger] items[i]) is None) ==> first_message_id(
            payload,
        ) == first_message_id(items[at])),
{
    match payload {
        crate::json::Json::Object(members) => {
            if 0 <= at < members.len() && first_message_id(members[at].1) is Some && (forall|
                i: int,
            |
                0 <= i < at ==> first_message_id((#[trigger] members[i]).1) is None) {
                first_in_members(members, 0, at);
            }
        },
        crate::json::Json::Array(items) => {
            if 0 <= at < items.len() && first_message_id(items[at]) is Some && (forall|i: int|
                0 <= i < at ==> first_message_id(#[trigger] items[i]) is None) {
                first_in_items(items, 0, at);
            }
        },
        _ => {},
    }
}

proof fn first_in_members(members: Seq<(Seq<char>, crate::json::Json)>, from: int, at: int)
    requires
        0 <= from <= at < members.len(),
        first_message_id(members[at].1) is Some,
        forall|i: int| 0 <= i < at ==> first_message_id((#[trigger] members[i]).1) is None,
    ensures
        first_message_id_in_members(members, from) == first_message_id(members[at].1),
    decreases at - from,
{
    if from < at {
        assert(first_message_id(members[from].1) is None);
        first_in_members(members, from + 1, at);
    }
}

proof fn first_in_items(items: Seq<crate::json::Json>, from: int, at: int)
    requires
        0 <= from <= at < items.len(),
        first_message_id(items[at]) is Some,
        forall|i: int| 0 <= i < at ==> first_message_id(#[trigger] items[i]) is None,
    ensures
        first_message_id_in_items(items, from) == first_message_id(items[at]),
    decreases at - from,
{
    if from < at {
        assert(first_message_id(items[from]) is None);
        first_in_items(items, from + 1, at);
    }
}

/// A delivery is handled step by step. Where webhooks are not configured that is the answer.
/// The signature is checked next, and a body that is no JSON document is malformed.
pub proof fn law_deliveries_are_checked_first(enabled: bool, body: Seq<u8>, known: WebhookAnswers)
    ensures
        ({
            let next = webhook_next(enabled, body, known);
            let signed = enabled && (known.signature_valid matches Some(true));
            &&& next == (WebhookView::Reply {
                code: 503,
                text: "Convert webhooks are not configured"@,
            }) <==> !enabled
            &&& enabled && known.signature_valid is None <==> next == WebhookView::VerifySignature
            &&& enabled && (known.signature_valid matches Some(false)) ==> next == (
            WebhookView::Reply { code: 401, text: "Invalid signature"@ })
            &&& signed ==> next == payload_next(crate::json::json_document(body), known)
            &&& signed && crate::json::json_document(body) is None ==> next == (
            WebhookView::Reply { code: 400, text: "Malformed payload"@ })
        }),
{
    reveal_strlit("Convert webhooks are not configured");
    reveal_strlit("Invalid signature");
    reveal_strlit("Malformed payload");
}

/// A signed document is recorded before anything else comes of it, and Convert is to try
/// again where it could not be. Then, where the event stands for a status and a message is
/// named, that message is given that status once; the answer to everything else is 200.
pub proof fn law_documents_are_recorded_before_they_count(
    payload: crate::json::Json,
    known: WebhookAnswers,
)
    ensures
        ({
            let next = payload_next(Some(payload), known);
            let status = status_of_event(event_name(payload));
            let message = first_message_id(payload);
            &&& known.recorded is None ==> next == (WebhookView::RecordEvent {
                event: event_name(payload),
                message_id: message,
                payload,
            })
            &&& (known.recorded matches Some(false)) ==> next == (WebhookView::Reply {
                code: 500,
                text: "Could not record event"@,
            })
            &&& (known.recorded matches Some(true)) ==> if status is Some && message is Some
                && !known.delivery_updated {
                next == (WebhookView::UpdateDelivery { message: message->0, status: status->0 })
            } else {
                next == (WebhookView::Reply { code: 200, text: "ok"@ })
            }
            &&& payload_next(None, known) == (WebhookView::Reply {
                code: 400,
                text: "Malformed payload"@,
            })
        }),
{
}

/// The contents of a step are those of the step itself.
pub proof fn law_webhook_steps_are_viewed_as_they_are(next: WebhookNext)
    ensures
        next matches WebhookNext::Ask(WebhookAsk::VerifySignature) ==> next@
            == WebhookView::VerifySignature,
        next matches WebhookNext::Ask(WebhookAsk::RecordEvent { event, message_id, payload })
            ==> next@ == (WebhookView::RecordEvent {
            event: event@,
            message_id: crate::text::contents(message_id),
            payload: crate::json::json_contents(payload),
        }),
        next matches WebhookNext::Ask(WebhookAsk::UpdateDelivery { message, status }) ==> next@
            == (WebhookView::UpdateDelivery { message: message@, status: status@ }),
        next matches WebhookNext::Reply { code, text } ==> next@ == (WebhookView::Reply {
            code,
            text: text@,
        }),
{
}

} // verus!
