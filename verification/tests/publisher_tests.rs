use relay_core::dlq::DeadLetterQueue;
use relay_core::ingest::EventData;
use relay_core::models::{DLQErrorType, DLQStatus, MessageStatus, MessageType};
use relay_core::publisher::{
    build_dlq_message, initial_publisher_state, is_success_status, publish_step, AttemptOutcome,
    PublishAction,
};

fn sample_data() -> EventData {
    EventData {
        message_id: None,
        idempotency_key: Some("k1".to_string()),
        conversation_id: Some("c1".to_string()),
        sequence_number: Some(9),
        sender_id: Some("alice".to_string()),
        receiver_id: Some("bob".to_string()),
        content: Some("hi".to_string()),
    }
}

#[test]
fn success_finishes_immediately() {
    let state = initial_publisher_state();
    let (next, action) = publish_step(state, AttemptOutcome::Success);
    assert!(matches!(action, PublishAction::Done));
    assert_eq!(next.retry_count, 0);
    assert_eq!(next.backoff_ms, 100);
}

#[test]
fn five_straight_failures_produce_one_dead_letter_hand_off() {
    // Simulated broker 500s: five consecutive failures for one event.
    let mut state = initial_publisher_state();
    let expected_backoffs: [u64; 4] = [100, 200, 400, 800];
    for failure in 0..4usize {
        let (next, action) = publish_step(
            state,
            AttemptOutcome::Failure("Broker returned error status: 500".to_string()),
        );
        match action {
            PublishAction::RetryAfter(delay) => {
                let base = expected_backoffs[failure];
                assert!(base <= delay && delay < base + 50);
            },
            _ => panic!("expected a retry before the budget is spent"),
        }
        state = next;
    }
    let (exhausted, action) = publish_step(
        state,
        AttemptOutcome::Failure("Broker returned error status: 500".to_string()),
    );
    assert_eq!(exhausted.retry_count, 5);
    let (retry_count, error) = match action {
        PublishAction::GiveUp { retry_count, error } => (retry_count, error),
        _ => panic!("the fifth failure must give up"),
    };
    assert_eq!(retry_count, 5);
    // The hand-off records exactly one entry, failed, with the budget spent.
    let mut q = DeadLetterQueue::new();
    let message = build_dlq_message(&sample_data(), &"c1".to_string(), 50_000);
    q.add_at(
        message,
        error,
        DLQErrorType::BrokerPublishFailed,
        retry_count,
        50_000,
        "dl-1".to_string(),
    )
    .unwrap();
    let stats = q.get_statistics().unwrap();
    assert_eq!(stats.total, 1);
    assert_eq!(stats.failed, 1);
    let failed = q.get_entries_by_status(DLQStatus::Failed, None).unwrap();
    assert_eq!(failed[0].retry_count, 5);
    assert_eq!(failed[0].status, DLQStatus::Failed);
    assert_eq!(failed[0].error_type, DLQErrorType::BrokerPublishFailed);
    assert_eq!(failed[0].error, "Broker returned error status: 500".to_string());
    assert_eq!(failed[0].next_retry_at, None);
}

#[test]
fn backoff_ceiling_holds_under_repeated_failures() {
    // The in-process backoff doubles from 100 ms and never passes 30 s.
    let mut state = initial_publisher_state();
    for _ in 0..4 {
        let (next, _) = publish_step(state, AttemptOutcome::Failure("e".to_string()));
        assert!(next.backoff_ms <= 30_000);
        assert_eq!(next.backoff_ms, 100 * (1u64 << next.retry_count).min(300));
        state = next;
    }
}

#[test]
fn any_2xx_status_is_success() {
    assert!(is_success_status(200));
    assert!(is_success_status(204));
    assert!(is_success_status(299));
    assert!(!is_success_status(199));
    assert!(!is_success_status(300));
    assert!(!is_success_status(500));
}

#[test]
fn dlq_message_degrades_absent_fields_to_defaults() {
    let data = EventData {
        message_id: None,
        idempotency_key: None,
        conversation_id: None,
        sequence_number: None,
        sender_id: None,
        receiver_id: None,
        content: None,
    };
    let m = build_dlq_message(&data, &"c7".to_string(), 123);
    assert_eq!(m.message_id, None);
    assert_eq!(m.idempotency_key, "".to_string());
    assert_eq!(m.conversation_id, "c7".to_string());
    assert_eq!(m.sequence_number, 0);
    assert_eq!(m.sender_id, "".to_string());
    assert_eq!(m.receiver_id, "".to_string());
    assert_eq!(m.content, "".to_string());
    assert_eq!(m.message_type, MessageType::Text);
    assert_eq!(m.status, MessageStatus::Sent);
    assert_eq!(m.timestamp, 123);
    assert_eq!(m.created_at, 123);
    assert_eq!(m.media_url, None);
    assert_eq!(m.reply_to_message_id, None);
}

#[test]
fn dlq_message_keeps_present_fields() {
    let m = build_dlq_message(&sample_data(), &"c1".to_string(), 9_999);
    assert_eq!(m.idempotency_key, "k1".to_string());
    assert_eq!(m.sequence_number, 9);
    assert_eq!(m.sender_id, "alice".to_string());
    assert_eq!(m.receiver_id, "bob".to_string());
    assert_eq!(m.content, "hi".to_string());
}
