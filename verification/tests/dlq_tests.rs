use relay_core::dlq::{DeadLetterQueue, DLQ_TTL_MS};
use relay_core::models::{DLQErrorType, DLQStatus, MessageStatus, MessageType, StoredMessage};

fn sample_message(key: &str) -> StoredMessage {
    StoredMessage {
        message_id: Some("msg-1".to_string()),
        idempotency_key: key.to_string(),
        conversation_id: "c1".to_string(),
        sequence_number: 7,
        sender_id: "alice".to_string(),
        receiver_id: "bob".to_string(),
        message_type: MessageType::Text,
        content: "hello".to_string(),
        media_url: None,
        reply_to_message_id: None,
        timestamp: 1_000,
        status: MessageStatus::Sent,
        created_at: 1_000,
    }
}

#[test]
fn add_with_retries_remaining_is_pending_with_backoff() {
    let mut q = DeadLetterQueue::new();
    let r = q.add_at(
        sample_message("k1"),
        "broker 500".to_string(),
        DLQErrorType::BrokerPublishFailed,
        0,
        1_000_000,
        "id-1".to_string(),
    );
    assert_eq!(r.unwrap(), "id-1".to_string());
    let listed = q.get_entries_by_status(DLQStatus::Pending, None).unwrap();
    assert_eq!(listed.len(), 1);
    let e = listed[0];
    assert_eq!(e.id, Some("id-1".to_string()));
    assert_eq!(e.status, DLQStatus::Pending);
    assert_eq!(e.retry_count, 0);
    assert_eq!(e.max_retries, 5);
    assert_eq!(e.created_at, 1_000_000);
    assert_eq!(e.next_retry_at, Some(1_000_100));
    assert_eq!(e.last_retry_at, None);
    assert_eq!(e.expires_at, 1_000_000 + DLQ_TTL_MS);
    assert_eq!(e.error, "broker 500".to_string());
    assert_eq!(e.error_type, DLQErrorType::BrokerPublishFailed);
}

#[test]
fn backoff_doubles_from_base_per_retry_count() {
    // backoff(r) = min(100 * 2^r, 300000): 100, 200, 400, 800, 1600 ms.
    let expected: [u64; 5] = [100, 200, 400, 800, 1600];
    for r in 0u32..5 {
        let mut q = DeadLetterQueue::new();
        q.add_at(
            sample_message("k"),
            "e".to_string(),
            DLQErrorType::Timeout,
            r,
            0,
            "id".to_string(),
        )
        .unwrap();
        let listed = q.get_entries_by_status(DLQStatus::Pending, None).unwrap();
        assert_eq!(listed[0].next_retry_at, Some(expected[r as usize]));
    }
}

#[test]
fn add_with_budget_exhausted_is_failed_and_unscheduled() {
    let mut q = DeadLetterQueue::new();
    q.add_at(
        sample_message("k1"),
        "gone".to_string(),
        DLQErrorType::BrokerPublishFailed,
        5,
        2_000,
        "id-f".to_string(),
    )
    .unwrap();
    let failed = q.get_entries_by_status(DLQStatus::Failed, None).unwrap();
    assert_eq!(failed.len(), 1);
    assert_eq!(failed[0].status, DLQStatus::Failed);
    assert_eq!(failed[0].next_retry_at, None);
    assert_eq!(failed[0].retry_count, 5);
    let pending = q.get_entries_by_status(DLQStatus::Pending, None).unwrap();
    assert_eq!(pending.len(), 0);
}

#[test]
fn sweeper_claims_only_the_due_entry() {
    let mut q = DeadLetterQueue::new();
    // Due: created at 0, next retry at 100.
    q.add_at(
        sample_message("due"),
        "e1".to_string(),
        DLQErrorType::NetworkError,
        0,
        0,
        "id-due".to_string(),
    )
    .unwrap();
    // Not due: created at 10_000, next retry at 10_100 > 5_000.
    q.add_at(
        sample_message("later"),
        "e2".to_string(),
        DLQErrorType::NetworkError,
        0,
        10_000,
        "id-later".to_string(),
    )
    .unwrap();
    let n = q.retry_pending_at(5_000).unwrap();
    assert_eq!(n, 1);
    let retrying = q.get_entries_by_status(DLQStatus::Retrying, None).unwrap();
    assert_eq!(retrying.len(), 1);
    assert_eq!(retrying[0].id, Some("id-due".to_string()));
    assert_eq!(retrying[0].last_retry_at, Some(5_000));
    assert_eq!(retrying[0].next_retry_at, None);
    let pending = q.get_entries_by_status(DLQStatus::Pending, None).unwrap();
    assert_eq!(pending.len(), 1);
    assert_eq!(pending[0].id, Some("id-later".to_string()));
    // A second sweep at the same time claims nothing further.
    let n2 = q.retry_pending_at(5_000).unwrap();
    assert_eq!(n2, 0);
}

#[test]
fn cleanup_deletes_expired_entries_of_every_status() {
    let mut q = DeadLetterQueue::new();
    // Expires at DLQ_TTL_MS.
    q.add_at(
        sample_message("old"),
        "e1".to_string(),
        DLQErrorType::StorageFailed,
        5,
        0,
        "id-old".to_string(),
    )
    .unwrap();
    // Expires at DLQ_TTL_MS + 1_000.
    q.add_at(
        sample_message("new"),
        "e2".to_string(),
        DLQErrorType::StorageFailed,
        0,
        1_000,
        "id-new".to_string(),
    )
    .unwrap();
    // expires_at <= now deletes the first entry only.
    let n = q.cleanup_expired_at(DLQ_TTL_MS).unwrap();
    assert_eq!(n, 1);
    let stats = q.get_statistics().unwrap();
    assert_eq!(stats.total, 1);
    // The expired entry is never returned by any later status query.
    for status in [
        DLQStatus::Pending,
        DLQStatus::Retrying,
        DLQStatus::Failed,
        DLQStatus::Resolved,
    ] {
        let listed = q.get_entries_by_status(status, None).unwrap();
        for e in listed {
            assert_ne!(e.id, Some("id-old".to_string()));
        }
    }
}

#[test]
fn mark_resolved_updates_first_match_and_tolerates_absence() {
    let mut q = DeadLetterQueue::new();
    q.add_at(
        sample_message("k"),
        "e".to_string(),
        DLQErrorType::Unknown,
        0,
        0,
        "id-x".to_string(),
    )
    .unwrap();
    q.mark_resolved_at("id-x", Some("fixed by hand".to_string()), 42).unwrap();
    let resolved = q.get_entries_by_status(DLQStatus::Resolved, None).unwrap();
    assert_eq!(resolved.len(), 1);
    assert_eq!(resolved[0].status, DLQStatus::Resolved);
    assert_eq!(resolved[0].resolved_at, Some(42));
    assert_eq!(resolved[0].resolved_reason, Some("fixed by hand".to_string()));
    assert_eq!(resolved[0].next_retry_at, None);
    // Resolving an unknown id succeeds and changes nothing.
    q.mark_resolved_at("no-such-id", None, 43).unwrap();
    let stats = q.get_statistics().unwrap();
    assert_eq!(stats.total, 1);
    assert_eq!(q.get_entries_by_status(DLQStatus::Resolved, None).unwrap().len(), 1);
}

#[test]
fn statistics_count_by_status() {
    let mut q = DeadLetterQueue::new();
    q.add_at(sample_message("a"), "e".to_string(), DLQErrorType::Timeout, 0, 0, "a".to_string())
        .unwrap();
    q.add_at(sample_message("b"), "e".to_string(), DLQErrorType::Timeout, 0, 0, "b".to_string())
        .unwrap();
    q.add_at(sample_message("c"), "e".to_string(), DLQErrorType::Timeout, 5, 0, "c".to_string())
        .unwrap();
    // Claim the two due pending entries.
    q.retry_pending_at(1_000).unwrap();
    let stats = q.get_statistics().unwrap();
    assert_eq!(stats.total, 3);
    assert_eq!(stats.pending, 0);
    assert_eq!(stats.retrying, 2);
    assert_eq!(stats.failed, 1);
}

#[test]
fn listing_is_newest_first_and_limited() {
    let mut q = DeadLetterQueue::new();
    for (id, created) in [("first", 10u64), ("third", 30), ("second", 20)] {
        q.add_at(
            sample_message(id),
            "e".to_string(),
            DLQErrorType::Timeout,
            0,
            created,
            id.to_string(),
        )
        .unwrap();
    }
    let all = q.get_entries_by_status(DLQStatus::Pending, None).unwrap();
    let ids: Vec<&str> = all.iter().map(|e| e.id.as_deref().unwrap()).collect();
    assert_eq!(ids, vec!["third", "second", "first"]);
    let capped = q.get_entries_by_status(DLQStatus::Pending, Some(2)).unwrap();
    let ids: Vec<&str> = capped.iter().map(|e| e.id.as_deref().unwrap()).collect();
    assert_eq!(ids, vec!["third", "second"]);
    // Zero means no limit, matching the datastore convention.
    assert_eq!(q.get_entries_by_status(DLQStatus::Pending, Some(0)).unwrap().len(), 3);
    assert_eq!(q.get_entries_by_status(DLQStatus::Pending, Some(-1)).unwrap().len(), 3);
    assert_eq!(q.get_entries_by_status(DLQStatus::Pending, Some(100)).unwrap().len(), 3);
}

#[test]
fn observed_states_stay_inside_the_lifecycle() {
    // Across add, sweep, and resolution, every observed entry keeps its
    // retry count inside the budget and one of the four lifecycle states.
    let mut q = DeadLetterQueue::new();
    q.add_at(sample_message("a"), "e".to_string(), DLQErrorType::Timeout, 2, 0, "a".to_string())
        .unwrap();
    q.add_at(sample_message("b"), "e".to_string(), DLQErrorType::Timeout, 5, 0, "b".to_string())
        .unwrap();
    q.retry_pending_at(1_000).unwrap();
    q.mark_resolved_at("b", None, 2_000).unwrap();
    let mut seen = 0;
    for status in [
        DLQStatus::Pending,
        DLQStatus::Retrying,
        DLQStatus::Failed,
        DLQStatus::Resolved,
    ] {
        for e in q.get_entries_by_status(status, None).unwrap() {
            assert!(e.retry_count <= e.max_retries);
            assert_eq!(e.status, status);
            seen += 1;
        }
    }
    assert_eq!(seen, q.get_statistics().unwrap().total);
}

#[test]
fn add_with_real_clock_and_id() {
    let mut q = DeadLetterQueue::new();
    let id = q
        .add(
            sample_message("k"),
            "e".to_string(),
            DLQErrorType::ServiceUnavailable,
            3,
            )
        .unwrap();
    // The generated entry id is a 36-character UUID rendering.
    assert_eq!(id.len(), 36);
    let listed = q.get_entries_by_status(DLQStatus::Pending, None).unwrap();
    assert_eq!(listed.len(), 1);
    let e = listed[0];
    assert_eq!(e.id, Some(id));
    assert!(e.created_at > 0);
    assert_eq!(e.expires_at, e.created_at + DLQ_TTL_MS);
    assert_eq!(e.next_retry_at, Some(e.created_at + 800));
}
