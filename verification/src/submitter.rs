//! The scheduled fan-out submitter and the two driver decision steps.
//!
//! A [`Submitter`] walks one drained batch strictly in order: the caller
//! takes the next transaction, enqueues it into every sink's mailbox, waits
//! until all sinks have accepted it, and only then takes the following one.
//! [`block_step`] and [`timestamp_step`] are the per-event decisions of the
//! two scheduling drivers; the loops around them — consuming the block
//! stream, reading the clock, sleeping — live with the caller.

use vstd::prelude::*;

use crate::store::{due_entries, kept_entries, spec_has, ScheduleStore};
use crate::types::Transaction;

verus! {

/// Submits the transactions of one batch, in batch order.
pub struct Submitter {
    /// The transactions still to fan out, oldest first.
    pub pending: Vec<Transaction>,
}

impl Submitter {
    /// A fan-out pass over one drained batch.
    pub fn new(transactions: Vec<Transaction>) -> (r: Submitter)
        ensures
            r.pending == transactions,
    {
        Submitter { pending: transactions }
    }

    /// The next transaction of the batch, to be enqueued into every sink
    /// before the one after it is taken; `None` when the batch is done.
    pub fn take_next(&mut self) -> (r: Option<Transaction>)
        ensures
            match r {
                Some(tx) => old(self).pending@.len() > 0 && tx == old(self).pending@[0]
                    && final(self).pending@ == old(self).pending@.skip(1),
                None => old(self).pending@.len() == 0
                    && final(self).pending@ == old(self).pending@,
            },
    {
        if self.pending.len() == 0 {
            return None;
        }
        let tx = self.pending.remove(0);
        proof {
            assert(old(self).pending@.remove(0) =~= old(self).pending@.skip(1));
        }
        Some(tx)
    }
}

/// The enqueues of round `i` of a fan-out: transaction `i` into each of the
/// `n` sinks, as (transaction index, sink index) pairs.
pub open spec fn sink_round(i: nat, n: nat) -> Seq<(nat, nat)> {
    Seq::new(n, |j: int| (i, j as nat))
}

/// The enqueue plan of one batch of `k` transactions over `n` sinks: all
/// enqueues of round 0, then all of round 1, and so on.
pub open spec fn enqueue_plan(k: nat, n: nat) -> Seq<(nat, nat)>
    decreases k,
{
    if k == 0 {
        Seq::empty()
    } else {
        enqueue_plan((k - 1) as nat, n) + sink_round((k - 1) as nat, n)
    }
}

/// Law: a batch of `k` transactions fanned out to `n` sinks performs
/// exactly `k * n` enqueue operations.
pub proof fn lemma_enqueue_count(k: nat, n: nat)
    ensures
        enqueue_plan(k, n).len() == k * n,
    decreases k,
{
    if k > 0 {
        lemma_enqueue_count((k - 1) as nat, n);
        assert(((k - 1) as nat) * n + n == k * n) by (nonlinear_arith)
            requires
                k >= 1,
        ;
    } else {
        assert(k * n == 0) by (nonlinear_arith)
            requires
                k == 0,
        ;
    }
}

/// Every enqueue of the plan belongs to one of the `k` rounds and one of
/// the `n` sinks.
pub proof fn lemma_enqueue_plan_element(k: nat, n: nat, p: int)
    requires
        0 <= p < enqueue_plan(k, n).len(),
    ensures
        enqueue_plan(k, n)[p].0 < k,
        enqueue_plan(k, n)[p].1 < n,
    decreases k,
{
    if k > 0 {
        if p < enqueue_plan((k - 1) as nat, n).len() {
            lemma_enqueue_plan_element((k - 1) as nat, n, p);
        }
    }
}

/// Law: the plan is pinned completely: the enqueue at position
/// `i * n + j` is transaction `i` into sink `j`, so all `n` enqueues of
/// round `i` stand together, in sink order, before round `i + 1`.
pub proof fn lemma_enqueue_plan_position(k: nat, n: nat, i: nat, j: nat)
    requires
        i < k,
        j < n,
    ensures
        0 <= i * n + j < enqueue_plan(k, n).len(),
        enqueue_plan(k, n)[(i * n + j) as int] == (i, j),
    decreases k,
{
    lemma_enqueue_count(k, n);
    assert(i * n + j < k * n) by (nonlinear_arith)
        requires
            i < k,
            j < n,
    ;
    let prefix = enqueue_plan((k - 1) as nat, n);
    lemma_enqueue_count((k - 1) as nat, n);
    if i < (k - 1) as nat {
        lemma_enqueue_plan_position((k - 1) as nat, n, i, j);
        assert(i * n + j < ((k - 1) as nat) * n) by (nonlinear_arith)
            requires
                i < (k - 1) as nat,
                j < n,
        ;
    } else {
        assert(i * n == prefix.len());
        assert(enqueue_plan(k, n)[(i * n + j) as int] == sink_round(i, n)[j as int]);
    }
}

/// Law: the fan-out never runs ahead: an enqueue later in the plan belongs
/// to the same or a later transaction, so every enqueue of transaction `i`
/// precedes every enqueue of transaction `i + 1`.
pub proof fn lemma_enqueue_order(k: nat, n: nat, p: int, q: int)
    requires
        0 <= p <= q < enqueue_plan(k, n).len(),
    ensures
        enqueue_plan(k, n)[p].0 <= enqueue_plan(k, n)[q].0,
    decreases k,
{
    if k > 0 {
        let prefix = enqueue_plan((k - 1) as nat, n);
        if q < prefix.len() {
            lemma_enqueue_order((k - 1) as nat, n, p, q);
        } else if p < prefix.len() {
            lemma_enqueue_plan_element((k - 1) as nat, n, p);
        }
    }
}

/// One round of the block-driven driver. A freshly observed block `block`
/// makes the key `block + submit_earlier` due: when the store holds
/// anything at exactly that key, everything due at or below it is drained
/// and returned for submission; otherwise the block is skipped and the
/// store is untouched.
pub fn block_step(store: &mut ScheduleStore, block: u64, submit_earlier: u64) -> (r: Option<
    Vec<Transaction>,
>)
    requires
        block + submit_earlier <= u64::MAX,
    ensures
        ({
            let key = (block + submit_earlier) as u64;
            if spec_has(old(store)@, key) {
                &&& final(store)@ == kept_entries(old(store)@, key)
                &&& match r {
                    Some(batch) => batch@ == due_entries(old(store)@, key) && batch@.len() > 0,
                    None => due_entries(old(store)@, key).len() == 0,
                }
            } else {
                r is None && final(store)@ == old(store)@
            }
        }),
{
    let key = block + submit_earlier;
    if !store.has(key) {
        return None;
    }
    store.drain(key)
}

/// One tick of the timestamp-driven driver: drain everything due at or
/// below the current unix time `now`; `None` when nothing was due.
pub fn timestamp_step(store: &mut ScheduleStore, now: u64) -> (r: Option<Vec<Transaction>>)
    ensures
        final(store)@ == kept_entries(old(store)@, now),
        match r {
            Some(batch) => batch@ == due_entries(old(store)@, now) && batch@.len() > 0,
            None => due_entries(old(store)@, now).len() == 0,
        },
{
    store.drain(now)
}

} // verus!
