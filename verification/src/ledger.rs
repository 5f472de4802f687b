//! The ledger: one bounded history of rate records for every denom.
//!
//! The model of a ledger is the function [`RateLedger::history`], which gives
//! for each denom its records in ascending order of sequence; a denom that was
//! never written to has the empty history. A write touches the history of its
//! own denom and no other.

use vstd::prelude::*;

use crate::history::ascending;
use crate::history::inserted;
use crate::history::is_latest;
use crate::history::is_minimum;
use crate::history::latest_record;
use crate::history::newest_first;
use crate::history::pruned;
use crate::history::record_at;
use crate::history::window;
use crate::history::History;
use crate::history::RateEntry;
use crate::state::Rates;
use crate::state::MAX_NUM_HISTORICAL_RATES;

verus! {

/// The history of one denom, kept under its name.
#[derive(Debug)]
struct Partition {
    denom: String,
    history: History,
}

/// The rate records of all denoms.
#[derive(Debug)]
pub struct RateLedger {
    partitions: Vec<Partition>,
}

impl RateLedger {
    /// Some partition is kept under `denom`.
    spec fn holds(&self, denom: Seq<char>) -> bool {
        exists|i: int| 0 <= i < self.partitions@.len() && self.partitions@[i].denom@ == denom
    }

    /// The place of the partition that is kept under `denom`.
    spec fn slot(&self, denom: Seq<char>) -> int {
        choose|i: int| 0 <= i < self.partitions@.len() && self.partitions@[i].denom@ == denom
    }

    /// No denom has two partitions, and every partition is a valid history.
    pub closed spec fn inv(&self) -> bool {
        &&& forall|i: int, j: int|
            0 <= i < j < self.partitions@.len() ==> self.partitions@[i].denom@
                != self.partitions@[j].denom@
        &&& forall|i: int| 0 <= i < self.partitions@.len() ==> self.partitions@[i].history.wf()
    }

    /// The records stored for `denom`, in ascending order of sequence.
    pub closed spec fn history(&self, denom: Seq<char>) -> Seq<RateEntry> {
        if self.holds(denom) {
            self.partitions@[self.slot(denom)].history@
        } else {
            Seq::empty()
        }
    }

    /// The invariant of a ledger: within every denom the sequences strictly
    /// ascend, so a denom holds at most one record under a sequence.
    pub open spec fn wf(&self) -> bool {
        &&& self.inv()
        &&& forall|denom: Seq<char>| ascending(#[trigger] self.history(denom))
    }

    /// No denom holds more records than the bound allows.
    pub open spec fn bounded(&self) -> bool {
        forall|denom: Seq<char>| #[trigger]
            self.history(denom).len() <= MAX_NUM_HISTORICAL_RATES
    }

    /// The history of the denom of the `i`-th partition is that partition's.
    proof fn lemma_history_at(&self, i: int)
        requires
            self.inv(),
            0 <= i < self.partitions@.len(),
        ensures
            self.history(self.partitions@[i].denom@) == self.partitions@[i].history@,
    {
        let denom = self.partitions@[i].denom@;
        assert(self.holds(denom));
        let j = self.slot(denom);
        assert(j == i);
    }

    /// A ledger whose partitions are valid is valid.
    proof fn lemma_inv_wf(&self)
        requires
            self.inv(),
        ensures
            self.wf(),
    {
        assert forall|denom: Seq<char>| ascending(#[trigger] self.history(denom)) by {
            if self.holds(denom) {
                let j = self.slot(denom);
                assert(self.partitions@[j].history.wf());
            }
        }
    }

    /// A ledger without records.
    pub fn new() -> (r: RateLedger)
        ensures
            r.wf(),
            r.bounded(),
            forall|denom: Seq<char>| #[trigger] r.history(denom) == Seq::<RateEntry>::empty(),
    {
        let r = RateLedger { partitions: Vec::new() };
        proof {
            r.lemma_inv_wf();
        }
        r
    }

    /// The place of the partition of `denom`, if it has one.
    fn find(&self, denom: &String) -> (r: Option<usize>)
        requires
            self.inv(),
        ensures
            match r {
                Some(i) => i < self.partitions@.len() && self.partitions@[i as int].denom@
                    == denom@ && self.history(denom@) == self.partitions@[i as int].history@,
                None => !self.holds(denom@) && self.history(denom@) == Seq::<RateEntry>::empty(),
            },
    {
        let n = self.partitions.len();
        let mut i: usize = 0;
        while i < n
            invariant
                self.inv(),
                i <= n,
                n == self.partitions@.len(),
                forall|j: int| 0 <= j < i ==> self.partitions@[j].denom@ != denom@,
            decreases n - i,
        {
            if self.partitions[i].denom == *denom {
                proof {
                    self.lemma_history_at(i as int);
                }
                return Some(i);
            }
            i += 1;
        }
        None
    }

    /// The number of records stored for `denom`.
    pub fn count(&self, denom: &String) -> (n: usize)
        requires
            self.wf(),
        ensures
            n == self.history(denom@).len(),
    {
        match self.find(denom) {
            Some(i) => self.partitions[i].history.len(),
            None => 0,
        }
    }

    /// Writes `rates` under `(denom, sequence)`. A record that was stored under
    /// that key is replaced; the histories of other denoms stay as they are.
    pub fn append(&mut self, denom: String, sequence: u64, rates: Rates)
        requires
            old(self).wf(),
        ensures
            final(self).wf(),
            final(self).history(denom@) == inserted(
                old(self).history(denom@),
                RateEntry { sequence, rates },
            ),
            forall|other: Seq<char>|
                other != denom@ ==> #[trigger] final(self).history(other) == old(self).history(
                    other,
                ),
    {
        let entry = RateEntry { sequence, rates };
        match self.find(&denom) {
            Some(i) => {
                let mut part = self.partitions.remove(i);
                part.history.insert(entry);
                self.partitions.insert(i, part);
                proof {
                    self.lemma_replaced(*old(self), i as int);
                }
            },
            None => {
                let mut history = History::new();
                history.insert(entry);
                proof {
                    assert(inserted(Seq::<RateEntry>::empty(), entry) =~= seq![entry]) by {
                        crate::history::lemma_inserted_at(Seq::<RateEntry>::empty(), entry, 0);
                    }
                }
                self.partitions.push(Partition { denom, history });
                proof {
                    self.lemma_pushed(*old(self));
                }
            },
        }
    }

    /// Where one partition got a new history under its old denom, only the
    /// history of that denom has changed.
    proof fn lemma_replaced(&self, before: RateLedger, i: int)
        requires
            before.inv(),
            0 <= i < before.partitions@.len(),
            self.partitions@.len() == before.partitions@.len(),
            self.partitions@[i].denom@ == before.partitions@[i].denom@,
            self.partitions@[i].history.wf(),
            forall|j: int|
                0 <= j < before.partitions@.len() && j != i ==> self.partitions@[j]
                    == before.partitions@[j],
        ensures
            self.wf(),
            self.history(before.partitions@[i].denom@) == self.partitions@[i].history@,
            forall|other: Seq<char>|
                other != before.partitions@[i].denom@ ==> #[trigger] self.history(other)
                    == before.history(other),
    {
        assert(forall|j: int|
            0 <= j < self.partitions@.len() ==> self.partitions@[j].denom@
                == before.partitions@[j].denom@);
        assert(self.inv());
        self.lemma_inv_wf();
        self.lemma_history_at(i);
        assert forall|other: Seq<char>| other != before.partitions@[i].denom@ implies #[trigger]
            self.history(other) == before.history(other) by {
            if before.holds(other) {
                let j = before.slot(other);
                before.lemma_history_at(j);
                self.lemma_history_at(j);
            } else {
                assert(!self.holds(other));
            }
        }
    }

    /// Where a partition for a denom that had none was added at the end, only
    /// the history of that denom has changed.
    proof fn lemma_pushed(&self, before: RateLedger)
        requires
            before.inv(),
            self.partitions@.len() == before.partitions@.len() + 1,
            !before.holds(self.partitions@.last().denom@),
            self.partitions@.last().history.wf(),
            forall|j: int|
                0 <= j < before.partitions@.len() ==> self.partitions@[j] == before.partitions@[j],
        ensures
            self.wf(),
            self.history(self.partitions@.last().denom@) == self.partitions@.last().history@,
            forall|other: Seq<char>|
                other != self.partitions@.last().denom@ ==> #[trigger] self.history(other)
                    == before.history(other),
    {
        let n = before.partitions@.len() as int;
        assert(self.inv());
        self.lemma_inv_wf();
        self.lemma_history_at(n);
        assert forall|other: Seq<char>| other != self.partitions@.last().denom@ implies #[trigger]
            self.history(other) == before.history(other) by {
            if before.holds(other) {
                let j = before.slot(other);
                before.lemma_history_at(j);
                self.lemma_history_at(j);
            } else {
                assert(!self.holds(other));
            }
        }
    }

    /// Restores the bound on `denom` after a write: where it holds more records
    /// than the bound allows, the record with the smallest sequence is taken
    /// out and its sequence handed back. Otherwise nothing changes.
    pub fn prune(&mut self, denom: &String) -> (evicted: Option<u64>)
        requires
            old(self).wf(),
        ensures
            final(self).wf(),
            final(self).history(denom@) == pruned(old(self).history(denom@)),
            evicted == crate::history::evicted(old(self).history(denom@)),
            evicted matches Some(sequence) ==> is_minimum(old(self).history(denom@), sequence),
            evicted.is_none() ==> *final(self) == *old(self),
            forall|other: Seq<char>|
                other != denom@ ==> #[trigger] final(self).history(other) == old(self).history(
                    other,
                ),
    {
        match self.find(denom) {
            Some(i) => {
                if self.partitions[i].history.len() > MAX_NUM_HISTORICAL_RATES {
                    let mut part = self.partitions.remove(i);
                    let oldest = part.history.evict_oldest();
                    self.partitions.insert(i, part);
                    proof {
                        self.lemma_replaced(*old(self), i as int);
                    }
                    Some(oldest.sequence)
                } else {
                    None
                }
            },
            None => None,
        }
    }

    /// The record that is stored under `(denom, sequence)`, if there is one.
    pub fn get(&self, denom: &String, sequence: u64) -> (r: Option<Rates>)
        requires
            self.wf(),
        ensures
            r == record_at(self.history(denom@), sequence),
    {
        match self.find(denom) {
            Some(i) => self.partitions[i].history.get(sequence),
            None => None,
        }
    }

    /// The record with the largest sequence that is stored for `denom`.
    pub fn latest(&self, denom: &String) -> (r: Option<Rates>)
        requires
            self.wf(),
        ensures
            r == latest_record(self.history(denom@)),
            r matches Some(rates) ==> is_latest(self.history(denom@), rates),
    {
        match self.find(denom) {
            Some(i) => self.partitions[i].history.latest(),
            None => None,
        }
    }

    /// The records stored for `denom`, the latest one first: all of them, or
    /// at most `limit` where a limit is given.
    pub fn range(&self, denom: &String, limit: Option<u64>) -> (r: Vec<Rates>)
        requires
            self.wf(),
        ensures
            r@ == newest_first(
                self.history(denom@),
                window(self.history(denom@).len(), limit),
            ),
    {
        match self.find(denom) {
            Some(i) => self.partitions[i].history.newest(limit),
            None => {
                let r: Vec<Rates> = Vec::new();
                assert(r@ =~= newest_first(Seq::<RateEntry>::empty(), 0));
                r
            },
        }
    }
}

} // verus!
