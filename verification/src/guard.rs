//! The idempotency guard: a record of the keys already processed, used to
//! suppress duplicate ingestion.
//!
//! The guard is defense in depth, not an exactly-once mechanism: the
//! check-then-record path is deliberately not atomic, so two
//! concurrent duplicates may both pass the check. [`IdempotencyGuard::check`]
//! and [`IdempotencyGuard::record`] expose exactly that split;
//! [`IdempotencyGuard::check_and_mark`] is the combined variant that checks
//! and records in one step.

use vstd::prelude::*;

verus! {

/// Outcome of the idempotency check: the event is first-seen, or a
/// duplicate to be acknowledged without further processing.
#[derive(Clone, Copy, Debug, PartialEq, Eq, Structural)]
pub enum CheckOutcome {
    Fresh,
    Duplicate,
}

/// What checking and marking a key does: a key already on record is a
/// duplicate, a first-seen key is fresh; the key is on record afterward
/// either way.
pub open spec fn spec_check_and_mark(keys: Set<Seq<char>>, key: Seq<char>) -> (CheckOutcome, Set<
    Seq<char>,
>) {
    (
        if keys.contains(key) {
            CheckOutcome::Duplicate
        } else {
            CheckOutcome::Fresh
        },
        keys.insert(key),
    )
}

/// Idempotency: after a key has passed `check_and_mark` once, every later
/// `check_and_mark` of the same key reports a duplicate and leaves the
/// record set unchanged, so no second processing sequence is initiated.
pub proof fn lemma_idempotency(keys: Set<Seq<char>>, key: Seq<char>)
    ensures
        spec_check_and_mark(spec_check_and_mark(keys, key).1, key).0 == CheckOutcome::Duplicate,
        spec_check_and_mark(spec_check_and_mark(keys, key).1, key).1 == spec_check_and_mark(
            keys,
            key,
        ).1,
{
    assert(spec_check_and_mark(keys, key).1.insert(key) =~= keys.insert(key));
}

/// The record of idempotency keys already processed.
pub struct IdempotencyGuard {
    keys: Vec<String>,
}

impl IdempotencyGuard {
    /// The set of keys on record.
    pub closed spec fn view(&self) -> Set<Seq<char>> {
        Set::new(
            |k: Seq<char>|
                exists|i: int| 0 <= i < self.keys@.len() && (#[trigger] self.keys@[i])@ == k,
        )
    }

    /// An empty record.
    pub fn new() -> (g: IdempotencyGuard)
        ensures
            g@ == Set::<Seq<char>>::empty(),
    {
        let g = IdempotencyGuard { keys: Vec::new() };
        proof {
            assert(g@ =~= Set::<Seq<char>>::empty());
        }
        g
    }

    /// Whether a record exists for the key. This is the lookup half of the
    /// non-atomic check-then-record path.
    pub fn check(&self, key: &String) -> (exists_already: bool)
        ensures
            exists_already == self@.contains(key@),
    {
        let n = self.keys.len();
        let mut i: usize = 0;
        while i < n
            invariant
                i <= n,
                n == self.keys@.len(),
                forall|j: int| 0 <= j < i ==> (#[trigger] self.keys@[j])@ != key@,
            decreases n - i,
        {
            if self.keys[i].eq(key) {
                proof {
                    assert((self.keys@[i as int])@ == key@);
                }
                return true;
            }
            i = i + 1;
        }
        proof {
            assert(!self@.contains(key@));
        }
        false
    }

    /// Puts the key on record. This is the write half of the non-atomic
    /// check-then-record path; in the full pipeline it rides along the
    /// event's persistence.
    pub fn record(&mut self, key: &String)
        ensures
            final(self)@ == old(self)@.insert(key@),
    {
        self.keys.push(key.clone());
        proof {
            assert forall|k: Seq<char>| final(self)@.contains(k) <==> old(self)@.insert(
                key@,
            ).contains(k) by {
                let m = old(self).keys@.len() as int;
                if self@.contains(k) {
                    let i = choose|i: int|
                        0 <= i < self.keys@.len() && (#[trigger] self.keys@[i])@ == k;
                    if i < m {
                        assert((old(self).keys@[i])@ == k);
                    }
                } else {
                    if old(self)@.contains(k) {
                        let i = choose|i: int|
                            0 <= i < old(self).keys@.len() && (#[trigger] old(self).keys@[i])@
                                == k;
                        assert((self.keys@[i])@ == k);
                    } else if k == key@ {
                        assert((self.keys@[m])@ == k);
                    }
                }
            }
            assert(self@ =~= old(self)@.insert(key@));
        }
    }

    /// Checks the key and puts it on record in one step: a key already on
    /// record is reported as a duplicate, a first-seen key as fresh, and
    /// the key is on record afterward either way.
    pub fn check_and_mark(&mut self, key: &String) -> (outcome: CheckOutcome)
        ensures
            outcome == spec_check_and_mark(old(self)@, key@).0,
            final(self)@ == spec_check_and_mark(old(self)@, key@).1,
    {
        let duplicate = self.check(key);
        if duplicate {
            proof {
                assert(self@ =~= old(self)@.insert(key@));
            }
            CheckOutcome::Duplicate
        } else {
            self.record(key);
            CheckOutcome::Fresh
        }
    }
}

} // verus!
