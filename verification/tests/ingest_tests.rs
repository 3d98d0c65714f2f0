use relay_core::errors::AppError;
use relay_core::guard::{CheckOutcome, IdempotencyGuard};
use relay_core::ingest::{handle_event, resolve_agent, EventData, HandleOutcome};

fn sample_data(key: &str, conversation: &str) -> EventData {
    EventData {
        message_id: Some("m1".to_string()),
        idempotency_key: Some(key.to_string()),
        conversation_id: Some(conversation.to_string()),
        sequence_number: Some(3),
        sender_id: Some("alice".to_string()),
        receiver_id: Some("bob".to_string()),
        content: Some("hi".to_string()),
    }
}

#[test]
fn first_seen_event_is_dispatched_to_default_agent() {
    // No conversation record exists: routing falls back to the default.
    let r = handle_event(
        &"messaging.message.received".to_string(),
        Some(sample_data("k1", "c1")),
        false,
        None,
        "http://broker".to_string(),
    );
    match r.unwrap() {
        HandleOutcome::Dispatched(plan) => {
            assert_eq!(plan.agent_id, "agent-bruno".to_string());
            assert_eq!(plan.outbound.event_type, "agent.message".to_string());
            assert_eq!(plan.outbound.source, "http://broker".to_string());
            assert_eq!(plan.outbound.id.len(), 36);
            let d = &plan.outbound.data;
            assert_eq!(d.idempotency_key, Some("k1".to_string()));
            assert_eq!(d.conversation_id, Some("c1".to_string()));
            assert_eq!(d.sender_id, Some("alice".to_string()));
            assert_eq!(d.receiver_id, Some("bob".to_string()));
            assert_eq!(d.content, Some("hi".to_string()));
            assert_eq!(d.sequence_number, Some(3));
        },
        other => panic!("expected a dispatch, got {:?}", discriminant_name(&other)),
    }
}

fn discriminant_name(o: &HandleOutcome) -> &'static str {
    match o {
        HandleOutcome::Ignored => "Ignored",
        HandleOutcome::Duplicate => "Duplicate",
        HandleOutcome::Dispatched(_) => "Dispatched",
    }
}

#[test]
fn second_event_with_same_key_is_acknowledged_without_dispatch() {
    let mut guard = IdempotencyGuard::new();
    let key = "k1".to_string();
    // First event: fresh, dispatched, and the key goes on record.
    assert!(!guard.check(&key));
    let first = handle_event(
        &"messaging.message.received".to_string(),
        Some(sample_data("k1", "c1")),
        false,
        None,
        "http://broker".to_string(),
    );
    assert!(matches!(first.unwrap(), HandleOutcome::Dispatched(_)));
    guard.record(&key);
    // Second event with the same key: acknowledged, nothing dispatched.
    let exists = guard.check(&key);
    assert!(exists);
    let second = handle_event(
        &"messaging.message.received".to_string(),
        Some(sample_data("k1", "c1")),
        exists,
        None,
        "http://broker".to_string(),
    );
    assert!(matches!(second.unwrap(), HandleOutcome::Duplicate));
}

#[test]
fn check_and_mark_reports_fresh_then_duplicate() {
    let mut guard = IdempotencyGuard::new();
    assert_eq!(guard.check_and_mark(&"k1".to_string()), CheckOutcome::Fresh);
    assert_eq!(guard.check_and_mark(&"k1".to_string()), CheckOutcome::Duplicate);
    assert_eq!(guard.check_and_mark(&"k1".to_string()), CheckOutcome::Duplicate);
    assert_eq!(guard.check_and_mark(&"k2".to_string()), CheckOutcome::Fresh);
}

#[test]
fn unrecognized_event_type_is_a_no_op_success() {
    let r = handle_event(
        &"messaging.message.deleted".to_string(),
        Some(sample_data("k1", "c1")),
        false,
        None,
        "http://broker".to_string(),
    );
    assert!(matches!(r.unwrap(), HandleOutcome::Ignored));
}

#[test]
fn missing_payload_is_a_validation_error() {
    let r = handle_event(
        &"messaging.message.received".to_string(),
        None,
        false,
        None,
        "http://broker".to_string(),
    );
    match r {
        Err(AppError::Validation(m)) => {
            assert_eq!(m, "Missing event data".to_string());
            assert_eq!(AppError::Validation(m).status_code(), 400);
        },
        _ => panic!("expected a validation error"),
    }
}

#[test]
fn missing_idempotency_key_is_a_validation_error() {
    let mut data = sample_data("k1", "c1");
    data.idempotency_key = None;
    let r = handle_event(
        &"messaging.message.received".to_string(),
        Some(data),
        false,
        None,
        "http://broker".to_string(),
    );
    match r {
        Err(AppError::Validation(m)) => assert_eq!(m, "Missing idempotency_key".to_string()),
        _ => panic!("expected a validation error"),
    }
}

#[test]
fn missing_conversation_id_is_a_validation_error() {
    let mut data = sample_data("k1", "c1");
    data.conversation_id = None;
    let r = handle_event(
        &"messaging.message.received".to_string(),
        Some(data),
        false,
        None,
        "http://broker".to_string(),
    );
    match r {
        Err(AppError::Validation(m)) => assert_eq!(m, "Missing conversation_id".to_string()),
        _ => panic!("expected a validation error"),
    }
}

#[test]
fn stored_agent_wins_over_default() {
    assert_eq!(resolve_agent(Some("agent-zoe".to_string())), "agent-zoe".to_string());
    assert_eq!(resolve_agent(None), "agent-bruno".to_string());
    let r = handle_event(
        &"messaging.message.received".to_string(),
        Some(sample_data("k9", "c9")),
        false,
        Some("agent-zoe".to_string()),
        "http://broker".to_string(),
    );
    match r.unwrap() {
        HandleOutcome::Dispatched(plan) => assert_eq!(plan.agent_id, "agent-zoe".to_string()),
        _ => panic!("expected a dispatch"),
    }
}
