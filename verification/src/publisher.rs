//! The retrying publisher: bounded in-process retry with jittered
//! exponential backoff, ending in success or a dead-letter hand-off.
//!
//! The network attempt itself is the caller's: it performs one delivery,
//! classifies the result as an [`AttemptOutcome`], and asks
//! [`publish_step`] what to do next — finish, sleep and retry, or give up
//! and record the failure. Every decision is verified; only the jitter
//! draw is an outside call.

use vstd::prelude::*;
use vstd::arithmetic::power2::pow2;
use vstd::arithmetic::power2::lemma_pow2_unfold;
use vstd::arithmetic::power2::lemma_pow2_strictly_increases;
use vstd::arithmetic::power2::lemma2_to64;
use crate::ingest::EventData;
use crate::models::MessageStatus;
use crate::models::MessageType;
use crate::models::StoredMessage;

verus! {

/// How many failures the publisher tolerates before it gives up.
pub const PUBLISH_MAX_RETRIES: u32 = 5;

/// Ceiling of the in-process retry backoff, in milliseconds (30 seconds).
pub const PUBLISH_BACKOFF_CAP_MS: u64 = 30_000;

/// Fixed bound of one delivery attempt, in milliseconds (10 seconds); the
/// caller applies it to each network call.
pub const PUBLISH_ATTEMPT_TIMEOUT_MS: u64 = 10_000;

/// Upper bound (exclusive) of the random jitter added to each retry delay.
pub const PUBLISH_JITTER_MS: u64 = 50;

/// The in-process retry backoff after `failures` failed attempts:
/// `min(100 * 2^failures, 30000)` milliseconds, before jitter. This
/// schedule is deliberately distinct from the dead-letter store's recovery
/// backoff.
pub open spec fn spec_publish_backoff_ms(failures: nat) -> int {
    if 100 * pow2(failures) < 30_000 {
        100 * pow2(failures) as int
    } else {
        30_000
    }
}

/// Relies on rand's `random`: a value drawn from the standard
/// distribution. Nothing is assumed of the value.
pub assume_specification<T>[ rand::random::<T> ]() -> (r: T)
    where
        rand::distributions::Standard: rand::distributions::Distribution<T>,
;

/// What one delivery attempt came to: delivered, or failed with a
/// description of the failure.
pub enum AttemptOutcome {
    Success,
    Failure(String),
}

/// What the publisher does after an attempt: finish, sleep for the given
/// delay and try again, or give up and hand the failure to the
/// dead-letter store.
pub enum PublishAction {
    Done,
    RetryAfter(u64),
    GiveUp { retry_count: u32, error: String },
}

/// The publisher's in-process state between attempts: how many attempts
/// have failed, and the backoff before the next one.
pub struct PublisherState {
    pub retry_count: u32,
    pub backoff_ms: u64,
}

impl PublisherState {
    /// The backoff always matches the schedule at the current count.
    pub open spec fn wf(self) -> bool {
        &&& self.retry_count <= PUBLISH_MAX_RETRIES
        &&& self.backoff_ms == spec_publish_backoff_ms(self.retry_count as nat)
    }
}

/// The state before the first attempt: no failures, base backoff.
pub fn initial_publisher_state() -> (state: PublisherState)
    ensures
        state.wf(),
        state.retry_count == 0,
        state.backoff_ms == 100,
{
    proof {
        lemma2_to64();
    }
    PublisherState { retry_count: 0, backoff_ms: 100 }
}

/// Whether a response status code counts as delivery success: any 2xx.
pub fn is_success_status(code: u16) -> (success: bool)
    ensures
        success == (200 <= code < 300),
{
    200 <= code && code < 300
}

/// Decides what follows one delivery attempt.
///
/// Success finishes immediately. A failure raises the count; the fifth
/// failure gives up, carrying the count and the failure description for
/// the dead-letter hand-off — so a run of five straight failures produces
/// exactly one give-up, with a retry count of five. An earlier failure
/// asks for a retry after the current backoff plus a random jitter of
/// under 50 ms, and doubles the backoff up to its 30-second ceiling.
pub fn publish_step(state: PublisherState, outcome: AttemptOutcome) -> (step: (
    PublisherState,
    PublishAction,
))
    requires
        state.wf(),
        state.retry_count < PUBLISH_MAX_RETRIES,
    ensures
        step.0.wf(),
        outcome is Success ==> (step.0 == state && step.1 is Done),
        outcome matches AttemptOutcome::Failure(e) ==> {
            &&& step.0.retry_count == state.retry_count + 1
            &&& (state.retry_count + 1 == PUBLISH_MAX_RETRIES) ==> (
            step.1 matches PublishAction::GiveUp { retry_count: rc, error: err } && rc
                == PUBLISH_MAX_RETRIES && err == e)
            &&& (state.retry_count + 1 < PUBLISH_MAX_RETRIES) ==> (
            step.1 matches PublishAction::RetryAfter(delay) && state.backoff_ms <= delay
                < state.backoff_ms + PUBLISH_JITTER_MS)
        },
{
    match outcome {
        AttemptOutcome::Success => (state, PublishAction::Done),
        AttemptOutcome::Failure(e) => {
            proof {
                lemma_pow2_unfold((state.retry_count + 1) as nat);
                lemma_pow2_strictly_increases(
                    state.retry_count as nat,
                    (state.retry_count + 1) as nat,
                );
            }
            let retry_count = state.retry_count + 1;
            let mut backoff_ms = state.backoff_ms * 2;
            if backoff_ms > PUBLISH_BACKOFF_CAP_MS {
                backoff_ms = PUBLISH_BACKOFF_CAP_MS;
            }
            let next = PublisherState { retry_count, backoff_ms };
            if retry_count >= PUBLISH_MAX_RETRIES {
                (next, PublishAction::GiveUp { retry_count, error: e })
            } else {
                let jitter = rand::random::<u64>() % PUBLISH_JITTER_MS;
                (next, PublishAction::RetryAfter(state.backoff_ms + jitter))
            }
        },
    }
}

/// Builds the message the dead-letter store records for a failed event:
/// the inbound payload's fields, each absent one degraded to its empty
/// default, stamped with the given time and marked as sent.
pub fn build_dlq_message(data: &EventData, conversation_id: &String, now_ms: u64) -> (m:
    StoredMessage)
    ensures
        (data.message_id matches Some(s) ==> m.message_id matches Some(t) && t@ == s@),
        (data.message_id is None ==> m.message_id is None),
        (data.idempotency_key matches Some(s) ==> m.idempotency_key@ == s@),
        (data.idempotency_key is None ==> m.idempotency_key@ == Seq::<char>::empty()),
        m.conversation_id@ == conversation_id@,
        m.sequence_number == (match data.sequence_number {
            Some(n) => n,
            None => 0,
        }),
        (data.sender_id matches Some(s) ==> m.sender_id@ == s@),
        (data.sender_id is None ==> m.sender_id@ == Seq::<char>::empty()),
        (data.receiver_id matches Some(s) ==> m.receiver_id@ == s@),
        (data.receiver_id is None ==> m.receiver_id@ == Seq::<char>::empty()),
        m.message_type == MessageType::Text,
        (data.content matches Some(s) ==> m.content@ == s@),
        (data.content is None ==> m.content@ == Seq::<char>::empty()),
        m.media_url is None,
        m.reply_to_message_id is None,
        m.timestamp == now_ms,
        m.status == MessageStatus::Sent,
        m.created_at == now_ms,
{
    StoredMessage {
        message_id: match &data.message_id {
            Some(s) => Some(s.clone()),
            None => None,
        },
        idempotency_key: match &data.idempotency_key {
            Some(s) => s.clone(),
            None => String::new(),
        },
        conversation_id: conversation_id.clone(),
        sequence_number: match data.sequence_number {
            Some(n) => n,
            None => 0,
        },
        sender_id: match &data.sender_id {
            Some(s) => s.clone(),
            None => String::new(),
        },
        receiver_id: match &data.receiver_id {
            Some(s) => s.clone(),
            None => String::new(),
        },
        message_type: MessageType::Text,
        content: match &data.content {
            Some(s) => s.clone(),
            None => String::new(),
        },
        media_url: None,
        reply_to_message_id: None,
        timestamp: now_ms,
        status: MessageStatus::Sent,
        created_at: now_ms,
    }
}

} // verus!
