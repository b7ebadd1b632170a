use nostr::JsonUtil;
use notepush::relay_connection::{Effect, IncomingMessage, IterationPlan, LoopControl, RelayConnection, RelayReply};

fn signed_event_json() -> (String, String) {
    let keys = nostr::Keys::parse("6b911fd37cdf5c81d4c0adb1ab7fa822ed253ab0ad9aa18d77257c88b29b718e").unwrap();
    let ev = nostr::EventBuilder::new(nostr::Kind::TextNote, "hi").sign_with_keys(&keys).unwrap();
    (ev.as_json(), ev.id.to_hex())
}

#[test]
fn closes_after_ten_consecutive_failures() {
    let mut c = RelayConnection::new();
    for _ in 0..9 {
        assert_eq!(c.record_iteration(false), LoopControl::Continue);
    }
    assert_eq!(c.consecutive_errors(), 9);
    assert_eq!(c.record_iteration(false), LoopControl::Close);
    assert_eq!(c.consecutive_errors(), 10);
}

#[test]
fn a_success_resets_the_count() {
    let mut c = RelayConnection::new();
    for _ in 0..9 {
        c.record_iteration(false);
    }
    assert_eq!(c.record_iteration(true), LoopControl::Continue);
    assert_eq!(c.consecutive_errors(), 0);
    for _ in 0..9 {
        assert_eq!(c.record_iteration(false), LoopControl::Continue);
    }
}

#[test]
fn events_are_refused_storage() {
    let (json, id) = signed_event_json();
    let c = RelayConnection::new();
    match c.run_loop_iteration(IncomingMessage::Text(format!("[\"EVENT\",{}]", json))) {
        IterationPlan::ProcessEventThenReply(ev, RelayReply::EventOk { event_id, status, message }) => {
            assert_eq!(ev.id(), &id);
            assert_eq!(event_id, id);
            assert!(!status);
            assert_eq!(message, "blocked: This relay does not store events");
        }
        _ => panic!("expected an OK reply to the event"),
    }
}

#[test]
fn other_messages_get_a_notice() {
    let c = RelayConnection::new();
    match c.run_loop_iteration(IncomingMessage::Text("[\"CLOSE\",\"sub\"]".to_string())) {
        IterationPlan::Reply(RelayReply::Notice { message }) => assert_eq!(message, "Unsupported message."),
        _ => panic!("expected a notice"),
    }
}

#[test]
fn text_that_is_not_a_message_fails_and_other_frames_are_ignored() {
    let c = RelayConnection::new();
    assert!(matches!(c.run_loop_iteration(IncomingMessage::Text("hello".to_string())), IterationPlan::Fail));
    assert!(matches!(c.run_loop_iteration(IncomingMessage::Other), IterationPlan::Ignore));
    assert!(matches!(c.run_loop_iteration_if_raw_message_is_ok(None), IterationPlan::Fail));
    assert!(matches!(c.run_loop_iteration_if_raw_message_is_ok(Some(IncomingMessage::Other)), IterationPlan::Ignore));
}

#[test]
fn an_event_is_saved_then_notified_then_answered() {
    let (json, id) = signed_event_json();
    let c = RelayConnection::new();
    let (event, effects) = c.run_loop_iteration(IncomingMessage::Text(format!("[\"EVENT\",{}]", json))).into_effects();
    assert_eq!(event.map(|e| e.id().clone()), Some(id));
    assert_eq!(effects.len(), 3);
    assert!(matches!(effects[0], Effect::SaveEvent));
    assert!(matches!(effects[1], Effect::SendNotifications));
    assert!(matches!(effects[2], Effect::Send(RelayReply::EventOk { .. })));
    let (event, effects) = c.run_loop_iteration(IncomingMessage::Text("hello".into())).into_effects();
    assert!(event.is_none());
    assert!(matches!(effects[..], [Effect::Fail]));
    let (_, effects) = c.run_loop_iteration(IncomingMessage::Other).into_effects();
    assert!(effects.is_empty());
}
