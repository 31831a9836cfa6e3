//! The schedule store: keyed storage of pending transactions.
//!
//! Entries are kept in insertion order under a schedule key (a block number
//! or a unix timestamp). The store answers whether anything is scheduled at
//! an exact key, whether a sender already has a pending entry, and drains —
//! removes and returns in one step — everything due at or below a key.

use vstd::prelude::*;

use crate::types::{Address, Transaction};

verus! {

/// Does any entry of `s` stand under exactly the key `key`?
pub open spec fn spec_has(s: Seq<(u64, Transaction)>, key: u64) -> bool {
    exists|i: int| 0 <= i < s.len() && (#[trigger] s[i]).0 == key
}

/// Does any entry of `s` come from `sender`?
pub open spec fn spec_has_sender(s: Seq<(u64, Transaction)>, sender: Address) -> bool {
    exists|i: int| 0 <= i < s.len() && (#[trigger] s[i]).1.sender == sender
}

/// Well-formedness of a store's contents: no two entries from one sender.
pub open spec fn unique_senders(s: Seq<(u64, Transaction)>) -> bool {
    forall|i: int, j: int|
        #![trigger s[i], s[j]]
        0 <= i < j < s.len() ==> s[i].1.sender != s[j].1.sender
}

/// The transactions of `s` whose key is at or below `key`, oldest first.
pub open spec fn due_entries(s: Seq<(u64, Transaction)>, key: u64) -> Seq<Transaction>
    decreases s.len(),
{
    if s.len() == 0 {
        Seq::empty()
    } else if s.last().0 <= key {
        due_entries(s.drop_last(), key).push(s.last().1)
    } else {
        due_entries(s.drop_last(), key)
    }
}

/// The entries of `s` whose key is above `key`, oldest first: what a drain
/// at `key` leaves behind.
pub open spec fn kept_entries(s: Seq<(u64, Transaction)>, key: u64) -> Seq<(u64, Transaction)>
    decreases s.len(),
{
    if s.len() == 0 {
        Seq::empty()
    } else if s.last().0 <= key {
        kept_entries(s.drop_last(), key)
    } else {
        kept_entries(s.drop_last(), key).push(s.last())
    }
}

/// Keyed storage of pending transactions, in insertion order.
///
/// Holds at most one pending transaction per sender: `insert` refuses a
/// sender that is already present.
pub struct ScheduleStore {
    entries: Vec<(u64, Transaction)>,
}

impl View for ScheduleStore {
    type V = Seq<(u64, Transaction)>;

    closed spec fn view(&self) -> Seq<(u64, Transaction)> {
        self.entries@
    }
}

impl ScheduleStore {
    /// An empty store.
    pub fn new() -> (r: ScheduleStore)
        ensures
            r@ == Seq::<(u64, Transaction)>::empty(),
            unique_senders(r@),
    {
        ScheduleStore { entries: Vec::new() }
    }

    /// Is any entry scheduled at exactly `key`?
    pub fn has(&self, key: u64) -> (r: bool)
        ensures
            r == spec_has(self@, key),
    {
        let mut i: usize = 0;
        while i < self.entries.len()
            invariant
                i <= self.entries@.len(),
                forall|j: int| 0 <= j < i ==> (#[trigger] self.entries@[j]).0 != key,
            decreases self.entries@.len() - i,
        {
            if self.entries[i].0 == key {
                return true;
            }
            i += 1;
        }
        false
    }

    /// Does `sender` already have a pending entry?
    pub fn has_sender(&self, sender: Address) -> (r: bool)
        ensures
            r == spec_has_sender(self@, sender),
    {
        let mut i: usize = 0;
        while i < self.entries.len()
            invariant
                i <= self.entries@.len(),
                forall|j: int| 0 <= j < i ==> (#[trigger] self.entries@[j]).1.sender != sender,
            decreases self.entries@.len() - i,
        {
            if self.entries[i].1.sender == sender {
                return true;
            }
            i += 1;
        }
        false
    }

    /// Schedule a verified transaction under `key`. Refuses a sender that
    /// already has a pending entry, so that at most one pending transaction
    /// per sender ever exists.
    pub fn insert(&mut self, key: u64, tx: Transaction) -> (r: bool)
        ensures
            r == !spec_has_sender(old(self)@, tx.sender),
            r ==> final(self)@ == old(self)@.push((key, tx)),
            !r ==> final(self)@ == old(self)@,
            unique_senders(old(self)@) ==> unique_senders(final(self)@),
    {
        if self.has_sender(tx.sender) {
            return false;
        }
        proof {
            if unique_senders(self@) {
                lemma_insert_preserves_unique_senders(self@, key, tx);
            }
        }
        self.entries.push((key, tx));
        true
    }

    /// Atomically remove and return every transaction scheduled at or below
    /// `key`, oldest first; `None` when nothing is due.
    pub fn drain(&mut self, key: u64) -> (r: Option<Vec<Transaction>>)
        ensures
            final(self)@ == kept_entries(old(self)@, key),
            match r {
                Some(batch) => batch@ == due_entries(old(self)@, key) && batch@.len() > 0,
                None => due_entries(old(self)@, key).len() == 0,
            },
            unique_senders(old(self)@) ==> unique_senders(final(self)@),
    {
        proof {
            if unique_senders(self@) {
                lemma_drain_preserves_unique_senders(self@, key);
            }
        }
        let mut taken: Vec<(u64, Transaction)> = Vec::new();
        core::mem::swap(&mut taken, &mut self.entries);
        let ghost orig = taken@;

        let mut drained: Vec<Transaction> = Vec::new();
        let mut kept: Vec<(u64, Transaction)> = Vec::new();
        let total = taken.len();
        let mut done: usize = 0;
        while done < total
            invariant
                done <= total,
                total == orig.len(),
                taken@ == orig.skip(done as int),
                drained@ == due_entries(orig.take(done as int), key),
                kept@ == kept_entries(orig.take(done as int), key),
            decreases total - done,
        {
            let entry = taken.remove(0);
            proof {
                assert(orig.skip(done as int).remove(0) =~= orig.skip(done + 1));
                assert(orig.take(done + 1).drop_last() =~= orig.take(done as int));
                assert(orig.take(done + 1).last() == orig[done as int]);
            }
            if entry.0 <= key {
                drained.push(entry.1);
            } else {
                kept.push(entry);
            }
            done += 1;
        }
        proof {
            assert(orig.take(total as int) =~= orig);
        }
        self.entries = kept;
        if drained.len() == 0 {
            None
        } else {
            Some(drained)
        }
    }
}

proof fn lemma_has_sender_extends(s: Seq<(u64, Transaction)>, sender: Address)
    requires
        s.len() > 0,
        spec_has_sender(s.drop_last(), sender),
    ensures
        spec_has_sender(s, sender),
{
    let dl = s.drop_last();
    let j = choose|j: int| 0 <= j < dl.len() && (#[trigger] dl[j]).1.sender == sender;
    assert(s[j].1.sender == sender);
}

proof fn lemma_kept_senders_present(s: Seq<(u64, Transaction)>, key: u64, i: int)
    requires
        0 <= i < kept_entries(s, key).len(),
    ensures
        spec_has_sender(s, kept_entries(s, key)[i].1.sender),
    decreases s.len(),
{
    let dl = s.drop_last();
    if s.last().0 <= key {
        lemma_kept_senders_present(dl, key, i);
        lemma_has_sender_extends(s, kept_entries(s, key)[i].1.sender);
    } else if i < kept_entries(dl, key).len() {
        lemma_kept_senders_present(dl, key, i);
        lemma_has_sender_extends(s, kept_entries(s, key)[i].1.sender);
    } else {
        assert(kept_entries(s, key)[i] == s.last());
        assert(s[s.len() - 1].1.sender == s.last().1.sender);
    }
}

/// Law: inserting a sender that is not yet pending keeps the store's
/// senders unique, so the store never holds two entries from one sender.
pub proof fn lemma_insert_preserves_unique_senders(
    s: Seq<(u64, Transaction)>,
    key: u64,
    tx: Transaction,
)
    requires
        unique_senders(s),
        !spec_has_sender(s, tx.sender),
    ensures
        unique_senders(s.push((key, tx))),
{
    let t = s.push((key, tx));
    assert forall|i: int, j: int| 0 <= i < j < t.len() implies (#[trigger] t[i]).1.sender != (
    #[trigger] t[j]).1.sender by {
        if j == s.len() {
            assert(t[i] == s[i]);
            assert(t[j].1.sender == tx.sender);
        } else {
            assert(t[i] == s[i]);
            assert(t[j] == s[j]);
        }
    }
}

/// Law: a drain keeps the store's senders unique: what remains after a
/// drain never holds two entries from one sender either.
pub proof fn lemma_drain_preserves_unique_senders(s: Seq<(u64, Transaction)>, key: u64)
    requires
        unique_senders(s),
    ensures
        unique_senders(kept_entries(s, key)),
    decreases s.len(),
{
    if s.len() > 0 {
        let dl = s.drop_last();
        assert forall|i: int, j: int| 0 <= i < j < dl.len() implies (#[trigger] dl[i]).1.sender != (
        #[trigger] dl[j]).1.sender by {
            assert(dl[i] == s[i]);
            assert(dl[j] == s[j]);
        }
        lemma_drain_preserves_unique_senders(dl, key);
        if s.last().0 > key {
            let k = kept_entries(dl, key);
            let t = kept_entries(s, key);
            assert forall|i: int, j: int| 0 <= i < j < t.len() implies (#[trigger] t[i]).1.sender
                != (#[trigger] t[j]).1.sender by {
                if j == k.len() {
                    lemma_kept_senders_present(dl, key, i);
                    let m = choose|m: int|
                        0 <= m < dl.len() && (#[trigger] dl[m]).1.sender == k[i].1.sender;
                    assert(s[m].1.sender == k[i].1.sender);
                    assert(t[j] == s.last());
                    assert(s[m].1.sender != s[s.len() - 1].1.sender);
                } else {
                    assert(t[i] == k[i]);
                    assert(t[j] == k[j]);
                }
            }
        }
    }
}

/// Law: one drain takes every due entry exactly once. Each entry lands
/// either in the drained batch or in the remaining store, and what remains
/// holds nothing due at that key — so an immediate second drain at the same
/// key returns nothing.
pub proof fn lemma_drain_exactly_once(s: Seq<(u64, Transaction)>, key: u64)
    ensures
        due_entries(kept_entries(s, key), key) == Seq::<Transaction>::empty(),
        due_entries(s, key).len() + kept_entries(s, key).len() == s.len(),
    decreases s.len(),
{
    if s.len() > 0 {
        lemma_drain_exactly_once(s.drop_last(), key);
        if s.last().0 > key {
            assert(kept_entries(s, key) == kept_entries(s.drop_last(), key).push(s.last()));
            assert(kept_entries(s, key).drop_last() =~= kept_entries(s.drop_last(), key));
        }
    }
}

} // verus!
