//! The dead-letter store: durable bookkeeping of exhausted-retry failures.
//!
//! The store owns the lifecycle of a [`DeadLetterQueueEntry`]: creation with
//! backoff scheduling, claiming due entries for re-delivery, explicit
//! resolution, statistics, and retention-based cleanup, which is the only
//! deletion path. Each operation that reads the wall clock also exists in a
//! form that takes the clock reading as an argument and carries the exact
//! contract; the clock-reading form promises everything that holds whatever
//! the clock returned.

use vstd::prelude::*;
use vstd::arithmetic::power2::pow2;
use vstd::arithmetic::power2::lemma_pow2_unfold;
use vstd::arithmetic::power2::lemma_pow2_strictly_increases;
use vstd::arithmetic::power2::lemma_pow2_pos;
use vstd::arithmetic::power2::lemma2_to64;
use crate::models::DeadLetterQueueEntry;
use crate::models::DLQErrorType;
use crate::models::DLQStatus;
use crate::models::StoredMessage;
use crate::errors::AppResult;
use crate::clock::MAX_CLOCK_MS;
use crate::clock::current_time_millis;
use crate::utils::fresh_uuid;

verus! {

/// Retention period of a dead-letter entry, in milliseconds (seven days).
pub const DLQ_TTL_MS: u64 = 604_800_000;

/// Ceiling of the recovery backoff schedule, in milliseconds (five minutes).
pub const BACKOFF_CAP_MS: u64 = 300_000;

/// The recovery backoff before the next re-delivery of an entry that has
/// already been retried `retry_count` times: `min(100 * 2^retry_count,
/// 300000)` milliseconds. This schedule is deliberately distinct from the
/// publisher's in-process retry backoff.
pub open spec fn spec_backoff_ms(retry_count: nat) -> int {
    if 100 * pow2(retry_count) < 300_000 {
        100 * pow2(retry_count) as int
    } else {
        300_000
    }
}

/// The recovery backoff is at least the base delay and never above the cap.
pub proof fn lemma_backoff_bounds(retry_count: nat)
    ensures
        100 <= spec_backoff_ms(retry_count) <= 300_000,
{
    lemma_pow2_pos(retry_count);
}

/// Backoff monotonicity: the recovery backoff is non-decreasing in the
/// retry count, and capped at five minutes.
pub proof fn lemma_backoff_monotonic(r1: nat, r2: nat)
    requires
        r1 <= r2,
    ensures
        spec_backoff_ms(r1) <= spec_backoff_ms(r2),
        spec_backoff_ms(r2) <= 300_000,
{
    if r1 < r2 {
        lemma_pow2_strictly_increases(r1, r2);
    }
}

/// An entry is due for re-delivery: pending, scheduled at or before the
/// given time, with retries remaining.
pub open spec fn spec_due(e: DeadLetterQueueEntry, now_ms: u64) -> bool {
    &&& e.status is Pending
    &&& (e.next_retry_at matches Some(t) && t <= now_ms)
    &&& e.retry_count < e.max_retries
}

/// The entry as the sweeper claims it: marked retrying with the claim time
/// recorded; the schedule is dropped together with the pending status.
pub open spec fn spec_claimed(e: DeadLetterQueueEntry, now_ms: u64) -> DeadLetterQueueEntry {
    DeadLetterQueueEntry {
        status: DLQStatus::Retrying,
        last_retry_at: Some(now_ms),
        next_retry_at: None,
        ..e
    }
}

/// How many entries of the sequence are due at the given time.
pub open spec fn count_due(s: Seq<DeadLetterQueueEntry>, now_ms: u64) -> int
    decreases s.len(),
{
    if s.len() == 0 {
        0
    } else {
        count_due(s.drop_last(), now_ms) + if spec_due(s.last(), now_ms) {
            1int
        } else {
            0int
        }
    }
}

/// What one sweep at the given time does to the store: every due entry is
/// claimed, every other entry is untouched, and the count of due entries
/// is reported.
pub open spec fn spec_sweep_outcome(
    before: Seq<DeadLetterQueueEntry>,
    after: Seq<DeadLetterQueueEntry>,
    n: int,
    now_ms: u64,
) -> bool {
    &&& after.len() == before.len()
    &&& forall|i: int|
        0 <= i < before.len() ==> #[trigger] after[i] == if spec_due(before[i], now_ms) {
            spec_claimed(before[i], now_ms)
        } else {
            before[i]
        }
    &&& n == count_due(before, now_ms)
}

/// A sequence with no due entry counts none.
proof fn lemma_count_due_zero(s: Seq<DeadLetterQueueEntry>, now_ms: u64)
    requires
        forall|i: int| 0 <= i < s.len() ==> !spec_due(#[trigger] s[i], now_ms),
    ensures
        count_due(s, now_ms) == 0,
    decreases s.len(),
{
    if s.len() > 0 {
        lemma_count_due_zero(s.drop_last(), now_ms);
    }
}

/// Sweeping is idempotent: one sweep claims every due entry, so a second
/// sweep at the same time finds nothing due — the status flip to retrying
/// is what keeps a concurrent or repeated sweep from re-claiming an entry.
pub proof fn lemma_sweep_idempotent(
    before: Seq<DeadLetterQueueEntry>,
    after: Seq<DeadLetterQueueEntry>,
    n: int,
    now_ms: u64,
)
    requires
        spec_sweep_outcome(before, after, n, now_ms),
    ensures
        count_due(after, now_ms) == 0,
{
    assert forall|i: int| 0 <= i < after.len() implies !spec_due(#[trigger] after[i], now_ms) by {
        if spec_due(before[i], now_ms) {
            assert(after[i] == spec_claimed(before[i], now_ms));
        } else {
            assert(after[i] == before[i]);
        }
    }
    lemma_count_due_zero(after, now_ms);
}

/// The entry carries the given identifier.
pub open spec fn spec_has_id(e: DeadLetterQueueEntry, id: Seq<char>) -> bool {
    e.id matches Some(s) && s@ == id
}

/// The entry as explicit resolution leaves it: resolved at the given time
/// for the given reason; the retry schedule is dropped together with the
/// pending status.
pub open spec fn spec_resolved(
    e: DeadLetterQueueEntry,
    reason: Option<String>,
    now_ms: u64,
) -> DeadLetterQueueEntry {
    DeadLetterQueueEntry {
        status: DLQStatus::Resolved,
        resolved_at: Some(now_ms),
        resolved_reason: reason,
        next_retry_at: None,
        ..e
    }
}

/// What marking an entry resolved does to the store: the first entry
/// carrying the identifier is resolved, every other entry is untouched; a
/// store holding no such entry is unchanged.
pub open spec fn spec_resolve_outcome(
    before: Seq<DeadLetterQueueEntry>,
    after: Seq<DeadLetterQueueEntry>,
    id: Seq<char>,
    reason: Option<String>,
    now_ms: u64,
) -> bool {
    &&& (forall|j: int| 0 <= j < before.len() ==> !spec_has_id(#[trigger] before[j], id))
        ==> after == before
    &&& (exists|j: int| 0 <= j < before.len() && spec_has_id(#[trigger] before[j], id))
        ==> (exists|i: int|
        #![auto]
        {
            &&& 0 <= i < before.len()
            &&& spec_has_id(before[i], id)
            &&& forall|j: int| 0 <= j < i ==> !spec_has_id(#[trigger] before[j], id)
            &&& after == before.update(i, spec_resolved(before[i], reason, now_ms))
        })
}

/// The entry outlives the given time.
pub open spec fn spec_live(e: DeadLetterQueueEntry, now_ms: u64) -> bool {
    e.expires_at > now_ms
}

/// The entries that survive a cleanup pass at the given time, in their
/// original order: exactly those not yet expired.
pub open spec fn keep_live(s: Seq<DeadLetterQueueEntry>, now_ms: u64) -> Seq<DeadLetterQueueEntry>
    decreases s.len(),
{
    if s.len() == 0 {
        Seq::empty()
    } else if spec_live(s.last(), now_ms) {
        keep_live(s.drop_last(), now_ms).push(s.last())
    } else {
        keep_live(s.drop_last(), now_ms)
    }
}

/// Expiry: no entry that survives a cleanup pass is expired, so an entry
/// whose retention has lapsed is never seen again once a pass has run.
pub proof fn lemma_cleanup_removes_expired(s: Seq<DeadLetterQueueEntry>, now_ms: u64)
    ensures
        forall|i: int|
            0 <= i < keep_live(s, now_ms).len()
                ==> spec_live(#[trigger] keep_live(s, now_ms)[i], now_ms),
    decreases s.len(),
{
    if s.len() > 0 {
        lemma_cleanup_removes_expired(s.drop_last(), now_ms);
        assert forall|i: int| 0 <= i < keep_live(s, now_ms).len() implies spec_live(
            #[trigger] keep_live(s, now_ms)[i],
            now_ms,
        ) by {
            if i < keep_live(s.drop_last(), now_ms).len() {
                assert(keep_live(s, now_ms)[i] == keep_live(s.drop_last(), now_ms)[i]);
            }
        }
    }
}

/// Every entry that survives a cleanup pass was in the store before it.
pub proof fn lemma_cleanup_keeps_only_existing(s: Seq<DeadLetterQueueEntry>, now_ms: u64)
    ensures
        forall|i: int|
            0 <= i < keep_live(s, now_ms).len() ==> s.contains(
                #[trigger] keep_live(s, now_ms)[i],
            ),
    decreases s.len(),
{
    if s.len() > 0 {
        lemma_cleanup_keeps_only_existing(s.drop_last(), now_ms);
        assert forall|i: int| 0 <= i < keep_live(s, now_ms).len() implies s.contains(
            #[trigger] keep_live(s, now_ms)[i],
        ) by {
            if i < keep_live(s.drop_last(), now_ms).len() {
                let e = keep_live(s.drop_last(), now_ms)[i];
                let j = choose|j: int| 0 <= j < s.drop_last().len() && s.drop_last()[j] == e;
                assert(s[j] == e);
            } else {
                assert(s[s.len() - 1] == keep_live(s, now_ms)[i]);
            }
        }
    }
}

/// The entries of the sequence with the given status, in their original
/// order.
pub open spec fn keep_status(
    s: Seq<DeadLetterQueueEntry>,
    status: DLQStatus,
) -> Seq<DeadLetterQueueEntry>
    decreases s.len(),
{
    if s.len() == 0 {
        Seq::empty()
    } else if s.last().status == status {
        keep_status(s.drop_last(), status).push(s.last())
    } else {
        keep_status(s.drop_last(), status)
    }
}

/// Every entry a status listing selects has that status and was in the
/// store it was selected from.
pub proof fn lemma_keep_status_members(s: Seq<DeadLetterQueueEntry>, status: DLQStatus)
    ensures
        forall|i: int|
            0 <= i < keep_status(s, status).len() ==> {
                &&& (#[trigger] keep_status(s, status)[i]).status == status
                &&& s.contains(keep_status(s, status)[i])
            },
    decreases s.len(),
{
    if s.len() > 0 {
        lemma_keep_status_members(s.drop_last(), status);
        assert forall|i: int| 0 <= i < keep_status(s, status).len() implies {
            &&& (#[trigger] keep_status(s, status)[i]).status == status
            &&& s.contains(keep_status(s, status)[i])
        } by {
            if i < keep_status(s.drop_last(), status).len() {
                let e = keep_status(s.drop_last(), status)[i];
                assert(keep_status(s, status)[i] == e);
                let j = choose|j: int| 0 <= j < s.drop_last().len() && s.drop_last()[j] == e;
                assert(s[j] == e);
            } else {
                assert(s[s.len() - 1] == keep_status(s, status)[i]);
            }
        }
    }
}

/// Expiry, end to end: once a cleanup pass at some time has run, a status
/// listing taken from the surviving store never shows an expired entry.
pub proof fn lemma_expired_never_listed(
    s: Seq<DeadLetterQueueEntry>,
    now_ms: u64,
    status: DLQStatus,
)
    ensures
        forall|i: int|
            0 <= i < keep_status(keep_live(s, now_ms), status).len() ==> spec_live(
                #[trigger] keep_status(keep_live(s, now_ms), status)[i],
                now_ms,
            ),
{
    let survivors = keep_live(s, now_ms);
    lemma_cleanup_removes_expired(s, now_ms);
    lemma_keep_status_members(survivors, status);
    assert forall|i: int| 0 <= i < keep_status(survivors, status).len() implies spec_live(
        #[trigger] keep_status(survivors, status)[i],
        now_ms,
    ) by {
        let e = keep_status(survivors, status)[i];
        let j = choose|j: int| 0 <= j < survivors.len() && survivors[j] == e;
        assert(spec_live(survivors[j], now_ms));
    }
}

/// The entries of the sequence, sorted newest creation first.
pub open spec fn sorted_by_created_desc(s: Seq<DeadLetterQueueEntry>) -> bool {
    forall|a: int, b: int|
        0 <= a < b < s.len() ==> (#[trigger] s[a]).created_at >= (#[trigger] s[b]).created_at
}

/// The entries behind a sequence of borrows.
pub open spec fn deref_seq<'a>(s: Seq<&'a DeadLetterQueueEntry>) -> Seq<DeadLetterQueueEntry> {
    s.map_values(|e: &DeadLetterQueueEntry| *e)
}

/// How long a listing of `total` matching entries is under the given
/// limit: a positive limit caps the count; no limit, and — matching the
/// datastore convention — a limit of zero or less, list everything.
pub open spec fn spec_limited_len(total: int, limit: Option<i64>) -> int {
    match limit {
        Option::None => total,
        Option::Some(l) => if l <= 0 {
            total
        } else if l < total {
            l as int
        } else {
            total
        },
    }
}

/// How many entries of the sequence have the given status.
pub open spec fn count_status(s: Seq<DeadLetterQueueEntry>, status: DLQStatus) -> int
    decreases s.len(),
{
    if s.len() == 0 {
        0
    } else {
        count_status(s.drop_last(), status) + if s.last().status == status {
            1int
        } else {
            0int
        }
    }
}

/// Status machine closure: every status a stored entry can be observed in
/// is one of the four lifecycle states, and a well-formed store never
/// holds an entry whose retry count exceeds its budget.
pub proof fn lemma_status_closure(q: &DeadLetterQueue)
    requires
        q.wf(),
    ensures
        forall|i: int|
            0 <= i < q@.len() ==> {
                let st = (#[trigger] q@[i]).status;
                st is Pending || st is Retrying || st is Failed || st is Resolved
            },
        forall|i: int| 0 <= i < q@.len() ==> (#[trigger] q@[i]).retry_count <= q@[i].max_retries,
{
}

/// Aggregate counts of the store, for observability.
#[derive(Clone, Copy, Debug, PartialEq, Eq, Structural)]
pub struct DLQStatistics {
    pub total: usize,
    pub pending: usize,
    pub failed: usize,
    pub retrying: usize,
}

/// Manager of the dead-letter store.
pub struct DeadLetterQueue {
    entries: Vec<DeadLetterQueueEntry>,
    max_retries: u32,
    retry_backoff_base_ms: u64,
    retry_backoff_multiplier: u64,
    dlq_ttl_days: u64,
}

impl DeadLetterQueue {
    /// The entries the store currently holds, oldest insertion first.
    pub closed spec fn view(&self) -> Seq<DeadLetterQueueEntry> {
        self.entries@
    }

    /// The retry budget fixed for every entry at creation.
    pub closed spec fn spec_max_retries(&self) -> u32 {
        self.max_retries
    }

    /// Well-formedness: the tuning parameters hold their fixed values and
    /// every entry observes the entry invariant.
    pub closed spec fn wf(&self) -> bool {
        &&& self.max_retries == 5
        &&& self.retry_backoff_base_ms == 100
        &&& self.retry_backoff_multiplier == 2
        &&& self.dlq_ttl_days == 7
        &&& forall|i: int|
            0 <= i < self.entries@.len() ==> (#[trigger] self.entries@[i]).wf()
    }

    /// Creates an empty store with the fixed tuning parameters: five
    /// retries, 100 ms backoff base, doubling, seven days of retention.
    pub fn new() -> (q: DeadLetterQueue)
        ensures
            q.wf(),
            q@.len() == 0,
            q.spec_max_retries() == 5,
    {
        DeadLetterQueue {
            entries: Vec::new(),
            max_retries: 5,
            retry_backoff_base_ms: 100,
            retry_backoff_multiplier: 2,
            dlq_ttl_days: 7,
        }
    }

    /// Exponential backoff delay in milliseconds for the given retry count.
    fn calculate_backoff(&self, retry_count: u32) -> (ms: u64)
        requires
            self.wf(),
        ensures
            ms == spec_backoff_ms(retry_count as nat),
            100 <= ms <= 300_000,
    {
        proof {
            lemma2_to64();
        }
        let mut delay: u64 = self.retry_backoff_base_ms;
        let mut i: u32 = 0;
        while i < retry_count
            invariant
                self.wf(),
                i <= retry_count,
                delay == spec_backoff_ms(i as nat),
                100 <= delay <= 300_000,
            decreases retry_count - i,
        {
            proof {
                lemma_pow2_unfold((i + 1) as nat);
                lemma_pow2_strictly_increases(i as nat, (i + 1) as nat);
            }
            let mut next = delay * self.retry_backoff_multiplier;
            if next > BACKOFF_CAP_MS {
                next = BACKOFF_CAP_MS;
            }
            delay = next;
            i = i + 1;
        }
        delay
    }

    /// Records a failed message under the given identifier, with the given
    /// clock reading as its creation time. If retries remain the entry is
    /// pending with its next attempt scheduled one backoff ahead; an entry
    /// whose budget is already exhausted is failed with nothing scheduled.
    /// The entry expires a fixed retention period after creation either way.
    pub fn add_at(
        &mut self,
        message: StoredMessage,
        error: String,
        error_type: DLQErrorType,
        retry_count: u32,
        now_ms: u64,
        dlq_id: String,
    ) -> (r: AppResult<String>)
        requires
            old(self).wf(),
            retry_count <= old(self).spec_max_retries(),
            now_ms <= MAX_CLOCK_MS,
        ensures
            final(self).wf(),
            final(self).spec_max_retries() == old(self).spec_max_retries(),
            final(self)@.len() == old(self)@.len() + 1,
            final(self)@.drop_last() == old(self)@,
            (r matches Ok(v) && v == dlq_id),
            ({
                let e = final(self)@.last();
                &&& (e.id matches Some(s) && s@ == dlq_id@)
                &&& e.message == message
                &&& e.error == error
                &&& e.error_type == error_type
                &&& e.retry_count == retry_count
                &&& e.max_retries == old(self).spec_max_retries()
                &&& e.created_at == now_ms
                &&& e.last_retry_at is None
                &&& e.resolved_at is None
                &&& e.resolved_reason is None
                &&& e.expires_at == now_ms + DLQ_TTL_MS
                &&& retry_count < old(self).spec_max_retries() ==> {
                    &&& e.status is Pending
                    &&& (e.next_retry_at matches Some(t)
                        && t == now_ms + spec_backoff_ms(retry_count as nat)
                        && t > now_ms)
                }
                &&& retry_count == old(self).spec_max_retries() ==> {
                    &&& e.status is Failed
                    &&& e.next_retry_at is None
                }
            }),
    {
        let next_retry_at: Option<u64> = if retry_count < self.max_retries {
            let backoff_ms = self.calculate_backoff(retry_count);
            Some(now_ms + backoff_ms)
        } else {
            None
        };
        let status = if retry_count < self.max_retries {
            DLQStatus::Pending
        } else {
            DLQStatus::Failed
        };
        let stored_id = dlq_id.clone();
        let entry = DeadLetterQueueEntry {
            id: Some(stored_id),
            message,
            error,
            error_type,
            retry_count,
            max_retries: self.max_retries,
            next_retry_at,
            created_at: now_ms,
            last_retry_at: None,
            status,
            resolved_at: None,
            resolved_reason: None,
            expires_at: now_ms + DLQ_TTL_MS,
        };
        self.entries.push(entry);
        proof {
            assert(self.entries@.drop_last() =~= old(self).entries@);
        }
        Ok(dlq_id)
    }

    /// Records a failed message: generates a fresh entry identifier, stamps
    /// the entry with the current wall-clock time, and schedules it as
    /// [`Self::add_at`] does. Everything promised here holds whatever the
    /// clock returned.
    pub fn add(
        &mut self,
        message: StoredMessage,
        error: String,
        error_type: DLQErrorType,
        retry_count: u32,
    ) -> (r: AppResult<String>)
        requires
            old(self).wf(),
            retry_count <= old(self).spec_max_retries(),
        ensures
            final(self).wf(),
            final(self).spec_max_retries() == old(self).spec_max_retries(),
            final(self)@.len() == old(self)@.len() + 1,
            final(self)@.drop_last() == old(self)@,
            (r matches Ok(v) && final(self)@.last().id matches Some(s) && s@ == v@
                && v@.len() == 36),
            ({
                let e = final(self)@.last();
                &&& e.message == message
                &&& e.error == error
                &&& e.error_type == error_type
                &&& e.retry_count == retry_count
                &&& e.max_retries == old(self).spec_max_retries()
                &&& e.last_retry_at is None
                &&& e.resolved_at is None
                &&& e.resolved_reason is None
                &&& e.expires_at == e.created_at + DLQ_TTL_MS
                &&& retry_count < old(self).spec_max_retries() ==> {
                    &&& e.status is Pending
                    &&& (e.next_retry_at matches Some(t)
                        && t == e.created_at + spec_backoff_ms(retry_count as nat)
                        && t > e.created_at)
                }
                &&& retry_count == old(self).spec_max_retries() ==> {
                    &&& e.status is Failed
                    &&& e.next_retry_at is None
                }
            }),
    {
        let now_ms = current_time_millis();
        let dlq_id = fresh_uuid();
        self.add_at(message, error, error_type, retry_count, now_ms, dlq_id)
    }

    /// One recovery sweep at the given time: claims every entry due for
    /// re-delivery by flipping it to retrying and recording the claim time,
    /// leaves every other entry untouched, and returns how many entries it
    /// claimed. Re-delivery itself is the caller's re-dispatch hook.
    pub fn retry_pending_at(&mut self, now_ms: u64) -> (r: AppResult<usize>)
        requires
            old(self).wf(),
        ensures
            final(self).wf(),
            final(self).spec_max_retries() == old(self).spec_max_retries(),
            (r matches Ok(n) && spec_sweep_outcome(old(self)@, final(self)@, n as int, now_ms)),
    {
        let n = self.entries.len();
        let mut count: usize = 0;
        let mut i: usize = 0;
        while i < n
            invariant
                self.wf(),
                self.spec_max_retries() == old(self).spec_max_retries(),
                i <= n,
                n == old(self)@.len(),
                self.entries@.len() == n,
                forall|j: int|
                    0 <= j < i ==> #[trigger] self.entries@[j] == if spec_due(
                        old(self)@[j],
                        now_ms,
                    ) {
                        spec_claimed(old(self)@[j], now_ms)
                    } else {
                        old(self)@[j]
                    },
                forall|j: int| i <= j < n ==> #[trigger] self.entries@[j] == old(self)@[j],
                count as int == count_due(old(self)@.subrange(0, i as int), now_ms),
                count <= i,
            decreases n - i,
        {
            let is_due = self.entries[i].status == DLQStatus::Pending
                && (match self.entries[i].next_retry_at {
                    Some(t) => t <= now_ms,
                    None => false,
                }) && self.entries[i].retry_count < self.entries[i].max_retries;
            if is_due {
                let ghost pre = self.entries@;
                let mut e = self.entries.remove(i);
                e.status = DLQStatus::Retrying;
                e.last_retry_at = Some(now_ms);
                e.next_retry_at = None;
                self.entries.insert(i, e);
                proof {
                    assert(self.entries@ =~= pre.update(i as int, spec_claimed(
                        old(self)@[i as int],
                        now_ms,
                    )));
                }
                count = count + 1;
            }
            proof {
                assert(old(self)@.subrange(0, (i + 1) as int).drop_last() =~= old(
                    self,
                )@.subrange(0, i as int));
            }
            i = i + 1;
        }
        proof {
            assert(old(self)@.subrange(0, n as int) =~= old(self)@);
        }
        Ok(count)
    }

    /// One recovery sweep at the current wall-clock time: what
    /// [`Self::retry_pending_at`] promises holds for whatever time the
    /// clock returned.
    pub fn retry_pending_messages(&mut self) -> (r: AppResult<usize>)
        requires
            old(self).wf(),
        ensures
            final(self).wf(),
            final(self).spec_max_retries() == old(self).spec_max_retries(),
            (r matches Ok(n) && exists|now_ms: u64|
                spec_sweep_outcome(old(self)@, final(self)@, n as int, now_ms)),
    {
        let now_ms = current_time_millis();
        let r = self.retry_pending_at(now_ms);
        proof {
            match &r {
                Ok(n) => {
                    assert(spec_sweep_outcome(old(self)@, self@, *n as int, now_ms));
                },
                Err(_) => {},
            }
        }
        r
    }

    /// Marks the first entry carrying the given identifier as resolved at
    /// the given time, recording the reason; a store holding no such entry
    /// is left unchanged. Succeeds either way, and from any prior status:
    /// resolving an already resolved entry overwrites its resolution.
    pub fn mark_resolved_at(
        &mut self,
        dlq_id: &str,
        reason: Option<String>,
        now_ms: u64,
    ) -> (r: AppResult<()>)
        requires
            old(self).wf(),
        ensures
            final(self).wf(),
            final(self).spec_max_retries() == old(self).spec_max_retries(),
            r is Ok,
            spec_resolve_outcome(old(self)@, final(self)@, dlq_id@, reason, now_ms),
    {
        let key: String = dlq_id.to_owned();
        let n = self.entries.len();
        let mut i: usize = 0;
        while i < n
            invariant
                self == old(self),
                self.wf(),
                n == self.entries@.len(),
                i <= n,
                key@ == dlq_id@,
                forall|j: int| 0 <= j < i ==> !spec_has_id(#[trigger] self.entries@[j], dlq_id@),
            decreases n - i,
        {
            let found = match &self.entries[i].id {
                Some(s) => s.eq(&key),
                None => false,
            };
            if found {
                let ghost pre = self.entries@;
                proof {
                    assert forall|j: int| 0 <= j < pre.len() implies (#[trigger] pre[j]).wf() by {
                        assert(self.entries@[j].wf());
                    }
                }
                let mut e = self.entries.remove(i);
                e.status = DLQStatus::Resolved;
                e.resolved_at = Some(now_ms);
                e.resolved_reason = reason;
                e.next_retry_at = None;
                self.entries.insert(i, e);
                proof {
                    assert(self.entries@ =~= pre.update(
                        i as int,
                        spec_resolved(pre[i as int], reason, now_ms),
                    ));
                    assert(spec_has_id(pre[i as int], dlq_id@));
                    assert forall|j: int| 0 <= j < self.entries@.len() implies (
                    #[trigger] self.entries@[j]).wf() by {
                        assert(pre[j].wf());
                        if j != i {
                            assert(self.entries@[j] == pre[j]);
                        } else {
                            assert(self.entries@[j] == spec_resolved(pre[j], reason, now_ms));
                        }
                    }
                }
                return Ok(());
            }
            i = i + 1;
        }
        Ok(())
    }

    /// Marks the first entry carrying the given identifier as resolved at
    /// the current wall-clock time: what [`Self::mark_resolved_at`]
    /// promises holds for whatever time the clock returned.
    pub fn mark_resolved(&mut self, dlq_id: &str, reason: Option<String>) -> (r: AppResult<()>)
        requires
            old(self).wf(),
        ensures
            final(self).wf(),
            final(self).spec_max_retries() == old(self).spec_max_retries(),
            r is Ok,
            exists|now_ms: u64|
                spec_resolve_outcome(old(self)@, final(self)@, dlq_id@, reason, now_ms),
    {
        let now_ms = current_time_millis();
        let r = self.mark_resolved_at(dlq_id, reason, now_ms);
        proof {
            assert(spec_resolve_outcome(old(self)@, self@, dlq_id@, reason, now_ms));
        }
        r
    }

    /// Deletes every entry whose retention has lapsed at the given time —
    /// the only deletion path of the store — and returns how many entries
    /// it deleted. Entries of every status expire alike.
    pub fn cleanup_expired_at(&mut self, now_ms: u64) -> (r: AppResult<usize>)
        requires
            old(self).wf(),
        ensures
            final(self).wf(),
            final(self).spec_max_retries() == old(self).spec_max_retries(),
            final(self)@ == keep_live(old(self)@, now_ms),
            (r matches Ok(n) && n as int == old(self)@.len() - keep_live(
                old(self)@,
                now_ms,
            ).len()),
    {
        let initial_len = self.entries.len();
        let ghost total: int = initial_len as int;
        let mut i: usize = 0;
        let mut removed: usize = 0;
        let ghost mut k: int = 0;
        while i < self.entries.len()
            invariant
                self.wf(),
                self.spec_max_retries() == old(self).spec_max_retries(),
                total == old(self)@.len(),
                total <= usize::MAX,
                k == i + removed,
                0 <= k <= total,
                self.entries@ == keep_live(old(self)@.subrange(0, k), now_ms) + old(
                    self,
                )@.subrange(k, total),
                i as int == keep_live(old(self)@.subrange(0, k), now_ms).len(),
            decreases total - k,
        {
            proof {
                assert(old(self)@.subrange(0, k + 1).drop_last() =~= old(self)@.subrange(0, k));
                assert(old(self)@.subrange(0, k + 1).last() == old(self)@[k]);
                assert(self.entries@[i as int] == old(self)@[k]);
            }
            let ghost pre = self.entries@;
            if self.entries[i].expires_at <= now_ms {
                self.entries.remove(i);
                removed = removed + 1;
                proof {
                    assert(self.entries@ =~= keep_live(
                        old(self)@.subrange(0, k + 1),
                        now_ms,
                    ) + old(self)@.subrange(k + 1, total));
                }
            } else {
                i = i + 1;
                proof {
                    assert(self.entries@ =~= keep_live(
                        old(self)@.subrange(0, k + 1),
                        now_ms,
                    ) + old(self)@.subrange(k + 1, total));
                }
            }
            proof {
                k = k + 1;
            }
        }
        proof {
            assert(old(self)@.subrange(0, total) =~= old(self)@);
            assert(self.entries@ =~= keep_live(old(self)@, now_ms));
        }
        Ok(removed)
    }

    /// Deletes every entry whose retention has lapsed at the current
    /// wall-clock time: what [`Self::cleanup_expired_at`] promises holds
    /// for whatever time the clock returned.
    pub fn cleanup_expired(&mut self) -> (r: AppResult<usize>)
        requires
            old(self).wf(),
        ensures
            final(self).wf(),
            final(self).spec_max_retries() == old(self).spec_max_retries(),
            (r matches Ok(n) && exists|now_ms: u64|
                {
                    &&& final(self)@ == keep_live(old(self)@, now_ms)
                    &&& n as int == old(self)@.len() - keep_live(old(self)@, now_ms).len()
                }),
    {
        let now_ms = current_time_millis();
        let r = self.cleanup_expired_at(now_ms);
        proof {
            match &r {
                Ok(n) => {
                    assert(self@ == keep_live(old(self)@, now_ms) && *n as int == old(
                        self,
                    )@.len() - keep_live(old(self)@, now_ms).len());
                },
                Err(_) => {},
            }
        }
        r
    }

    /// Read-only listing of the entries with the given status, newest
    /// creation first. A positive limit caps the count, keeping a prefix
    /// of the sorted listing; no limit — or, matching the datastore
    /// convention, a limit of zero or less — lists every match.
    #[verifier::loop_isolation(false)]
    #[verifier::rlimit(100)]
    pub fn get_entries_by_status<'a>(
        &'a self,
        status: DLQStatus,
        limit: Option<i64>,
    ) -> (r: AppResult<Vec<&'a DeadLetterQueueEntry>>)
        ensures
            (r matches Ok(v) && {
                let vs = deref_seq(v@);
                let selected = keep_status(self@, status);
                &&& sorted_by_created_desc(vs)
                &&& vs.len() == spec_limited_len(selected.len() as int, limit)
                &&& forall|a: int|
                    0 <= a < vs.len() ==> (#[trigger] vs[a]).status == status && self@.contains(
                        vs[a],
                    )
                &&& (exists|w: Seq<DeadLetterQueueEntry>|
                    {
                        &&& sorted_by_created_desc(w)
                        &&& w.to_multiset() == selected.to_multiset()
                        &&& vs == w.subrange(0, vs.len() as int)
                    })
            }),
    {
        broadcast use vstd::seq_lib::group_to_multiset_ensures;

        let n = self.entries.len();
        let mut matched: Vec<&DeadLetterQueueEntry> = Vec::new();
        let mut i: usize = 0;
        while i < n
            invariant
                i <= n,
                deref_seq(matched@) == keep_status(self.entries@.subrange(0, i as int), status),
            decreases n - i,
        {
            proof {
                assert(self.entries@.subrange(0, (i + 1) as int).drop_last() =~= self.entries@.subrange(
                    0,
                    i as int,
                ));
                assert(self.entries@.subrange(0, (i + 1) as int).last() == self.entries@[i as int]);
            }
            let ghost pre = matched@;
            if self.entries[i].status == status {
                let e: &DeadLetterQueueEntry = &self.entries[i];
                matched.push(e);
                proof {
                    assert(deref_seq(matched@) =~= deref_seq(pre).push(*e));
                }
            }
            i = i + 1;
        }
        proof {
            assert(self.entries@.subrange(0, n as int) =~= self.entries@);
        }
        let m = matched.len();
        let mut listed: Vec<&DeadLetterQueueEntry> = Vec::new();
        let mut j: usize = 0;
        while j < m
            invariant
                j <= m,
                listed@.len() == j,
                sorted_by_created_desc(deref_seq(listed@)),
                deref_seq(listed@).to_multiset() == deref_seq(
                    matched@.subrange(0, j as int),
                ).to_multiset(),
            decreases m - j,
        {
            let e: &DeadLetterQueueEntry = matched[j];
            let mut pos: usize = 0;
            while pos < listed.len() && listed[pos].created_at >= e.created_at
                invariant
                    pos <= listed@.len(),
                    forall|a: int|
                        0 <= a < pos ==> (#[trigger] deref_seq(listed@)[a]).created_at
                            >= e.created_at,
                decreases listed@.len() - pos,
            {
                pos = pos + 1;
            }
            let ghost pre_sorted = deref_seq(listed@);
            listed.insert(pos, e);
            proof {
                let dnew = deref_seq(listed@);
                assert(dnew =~= pre_sorted.insert(pos as int, *e));
                assert forall|a: int, b: int| 0 <= a < b < dnew.len() implies (
                #[trigger] dnew[a]).created_at >= (#[trigger] dnew[b]).created_at by {
                    if b < pos {
                        assert(dnew[a] == pre_sorted[a] && dnew[b] == pre_sorted[b]);
                    } else if a < pos && b == pos {
                        assert(dnew[a] == pre_sorted[a] && dnew[b] == *e);
                    } else if a < pos && b > pos {
                        assert(dnew[a] == pre_sorted[a] && dnew[b] == pre_sorted[b - 1]);
                        assert(pre_sorted[a].created_at >= pre_sorted[b - 1].created_at);
                    } else if a == pos {
                        assert(dnew[b] == pre_sorted[b - 1]);
                        assert(pre_sorted[pos as int].created_at < e.created_at);
                        assert(pre_sorted[pos as int].created_at >= pre_sorted[b - 1].created_at);
                    } else {
                        assert(dnew[a] == pre_sorted[a - 1] && dnew[b] == pre_sorted[b - 1]);
                    }
                }
                assert(dnew.remove(pos as int) =~= pre_sorted);
                assert(dnew[pos as int] == *e);
                assert(dnew.contains(*e));
                assert(pre_sorted.to_multiset() == dnew.to_multiset().remove(*e));
                assert(dnew.to_multiset() =~= pre_sorted.to_multiset().insert(*e));
                assert(matched@.subrange(0, (j + 1) as int).drop_last() =~= matched@.subrange(
                    0,
                    j as int,
                ));
                assert(deref_seq(matched@.subrange(0, (j + 1) as int)) =~= deref_seq(
                    matched@.subrange(0, j as int),
                ).push(*e));
            }
            j = j + 1;
        }
        proof {
            assert(matched@.subrange(0, m as int) =~= matched@);
        }
        let ghost w = deref_seq(listed@);
        match limit {
            Option::None => {},
            Option::Some(l) => {
                if l > 0 {
                    let cap_u64: u64 = l as u64;
                    let len_u64: u64 = listed.len() as u64;
                    let cap: usize = if cap_u64 < len_u64 {
                        cap_u64 as usize
                    } else {
                        listed.len()
                    };
                    listed.truncate(cap);
                    proof {
                        assert(deref_seq(listed@) =~= w.subrange(0, cap as int));
                    }
                }
            },
        }
        proof {
            let vs = deref_seq(listed@);
            let selected = keep_status(self@, status);
            assert(vs =~= w.subrange(0, vs.len() as int));
            lemma_keep_status_members(self.entries@, status);
            assert forall|a: int| 0 <= a < vs.len() implies (#[trigger] vs[a]).status == status
                && self@.contains(vs[a]) by {
                assert(vs[a] == w[a]);
                assert(w.contains(w[a]));
                assert(w.to_multiset().count(w[a]) > 0);
                assert(selected.to_multiset().count(w[a]) > 0);
                assert(selected.contains(w[a]));
                let k = choose|k: int| 0 <= k < selected.len() && selected[k] == w[a];
                assert(selected[k].status == status);
            }
        }
        Ok(listed)
    }

    /// Aggregate counts by status: the total together with how many
    /// entries are pending, failed, and retrying.
    pub fn get_statistics(&self) -> (r: AppResult<DLQStatistics>)
        ensures
            (r matches Ok(st) && {
                &&& st.total == self@.len()
                &&& st.pending as int == count_status(self@, DLQStatus::Pending)
                &&& st.failed as int == count_status(self@, DLQStatus::Failed)
                &&& st.retrying as int == count_status(self@, DLQStatus::Retrying)
            }),
    {
        let n = self.entries.len();
        let mut pending: usize = 0;
        let mut failed: usize = 0;
        let mut retrying: usize = 0;
        let mut i: usize = 0;
        while i < n
            invariant
                n == self.entries@.len(),
                i <= n,
                pending as int == count_status(self.entries@.subrange(0, i as int), DLQStatus::Pending),
                failed as int == count_status(self.entries@.subrange(0, i as int), DLQStatus::Failed),
                retrying as int == count_status(
                    self.entries@.subrange(0, i as int),
                    DLQStatus::Retrying,
                ),
                pending <= i,
                failed <= i,
                retrying <= i,
            decreases n - i,
        {
            proof {
                assert(self.entries@.subrange(0, (i + 1) as int).drop_last() =~= self.entries@.subrange(
                    0,
                    i as int,
                ));
                assert(self.entries@.subrange(0, (i + 1) as int).last() == self.entries@[i as int]);
            }
            let status = self.entries[i].status;
            if status == DLQStatus::Pending {
                pending = pending + 1;
            } else if status == DLQStatus::Failed {
                failed = failed + 1;
            } else if status == DLQStatus::Retrying {
                retrying = retrying + 1;
            }
            i = i + 1;
        }
        proof {
            assert(self.entries@.subrange(0, n as int) =~= self.entries@);
        }
        Ok(DLQStatistics { total: n, pending, failed, retrying })
    }
}

} // verus!
