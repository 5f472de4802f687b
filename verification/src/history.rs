//! The history of one denom: its records in ascending order of sequence.
//!
//! The model of a history is a `Seq<RateEntry>` whose sequences strictly
//! ascend. The oldest record is the first entry, the latest one the last.

use vstd::prelude::*;

use crate::state::Rates;
use crate::state::MAX_NUM_HISTORICAL_RATES;

verus! {

/// A record together with the sequence under which it was posted.
#[derive(Clone, Copy, Debug, PartialEq, Eq, Structural)]
pub struct RateEntry {
    pub sequence: u64,
    pub rates: Rates,
}

/// The sequences of `h` strictly ascend, so no sequence occurs twice.
pub open spec fn ascending(h: Seq<RateEntry>) -> bool {
    forall|i: int, j: int| 0 <= i < j < h.len() ==> h[i].sequence < h[j].sequence
}

/// `h` holds a record under `sequence`.
pub open spec fn stores(h: Seq<RateEntry>, sequence: u64) -> bool {
    exists|i: int| 0 <= i < h.len() && h[i].sequence == sequence
}

/// `h` after `e` was written to it: the entries below `e`, then `e`, then the
/// entries above it. An entry that `h` held under the sequence of `e` is gone.
pub open spec fn inserted(h: Seq<RateEntry>, e: RateEntry) -> Seq<RateEntry> {
    h.filter(|x: RateEntry| x.sequence < e.sequence).push(e) + h.filter(
        |x: RateEntry| x.sequence > e.sequence,
    )
}

/// `h` after the bound was restored on it: where it holds more records than
/// the bound allows, its first entry is gone.
pub open spec fn pruned(h: Seq<RateEntry>) -> Seq<RateEntry> {
    if h.len() > MAX_NUM_HISTORICAL_RATES {
        h.skip(1)
    } else {
        h
    }
}

/// The sequence of the entry that restoring the bound on `h` takes out.
pub open spec fn evicted(h: Seq<RateEntry>) -> Option<u64> {
    if h.len() > MAX_NUM_HISTORICAL_RATES {
        Some(h[0].sequence)
    } else {
        None
    }
}

/// `h` after a complete write of `e`: the entry is written, then the bound is
/// restored.
pub open spec fn written(h: Seq<RateEntry>, e: RateEntry) -> Seq<RateEntry> {
    pruned(inserted(h, e))
}

/// The history that a run of complete writes leaves behind, starting without
/// any record.
pub open spec fn replayed(writes: Seq<RateEntry>) -> Seq<RateEntry>
    decreases writes.len(),
{
    if writes.len() == 0 {
        Seq::empty()
    } else {
        written(replayed(writes.drop_last()), writes.last())
    }
}

/// `h` holds a record under `sequence`, and none under a smaller sequence.
pub open spec fn is_minimum(h: Seq<RateEntry>, sequence: u64) -> bool {
    &&& stores(h, sequence)
    &&& forall|s: u64| stores(h, s) ==> sequence <= s
}

/// `h` holds `rates` under a sequence that no sequence of `h` exceeds.
pub open spec fn is_latest(h: Seq<RateEntry>, rates: Rates) -> bool {
    exists|i: int|
        0 <= i < h.len() && h[i].rates == rates && forall|s: u64|
            stores(h, s) ==> s <= h[i].sequence
}

/// The number of records that a request with the given limit gets out of a
/// history of `len` records.
pub open spec fn window(len: nat, limit: Option<u64>) -> nat {
    match limit {
        Some(l) => if l < len {
            l as nat
        } else {
            len
        },
        None => len,
    }
}

/// The record that `h` holds under `sequence`, if it holds one.
pub open spec fn record_at(h: Seq<RateEntry>, sequence: u64) -> Option<Rates> {
    if stores(h, sequence) {
        Some(h[choose|i: int| 0 <= i < h.len() && h[i].sequence == sequence].rates)
    } else {
        None
    }
}

/// The record with the largest sequence in an ascending history, if there is
/// any record.
pub open spec fn latest_record(h: Seq<RateEntry>) -> Option<Rates> {
    if h.len() == 0 {
        None
    } else {
        Some(h.last().rates)
    }
}

/// The `n` latest records of `h`, the latest one first.
pub open spec fn newest_first(h: Seq<RateEntry>, n: nat) -> Seq<Rates>
    recommends
        n <= h.len(),
{
    Seq::new(n, |i: int| h[h.len() - 1 - i].rates)
}

/// A predicate that holds of the first `k` entries and of no other entry keeps
/// exactly the first `k` entries.
proof fn lemma_filter_head(h: Seq<RateEntry>, p: spec_fn(RateEntry) -> bool, k: int)
    requires
        0 <= k <= h.len(),
        forall|i: int| 0 <= i < k ==> p(#[trigger] h[i]),
        forall|i: int| k <= i < h.len() ==> !p(#[trigger] h[i]),
    ensures
        h.filter(p) == h.take(k),
    decreases h.len(),
{
    reveal(Seq::filter);
    if h.len() == 0 {
        assert(h.filter(p) =~= h.take(k));
    } else {
        let front = h.drop_last();
        assert(forall|i: int| 0 <= i < front.len() ==> front[i] == h[i]);
        if k == h.len() {
            lemma_filter_head(front, p, k - 1);
            assert(front.take(k - 1) =~= front);
            assert(front.push(h.last()) =~= h.take(k));
        } else {
            lemma_filter_head(front, p, k);
            assert(front.take(k) =~= h.take(k));
        }
    }
}

/// A predicate that fails on the first `k` entries and holds of every other
/// entry keeps exactly the entries from the `k`-th on.
proof fn lemma_filter_tail(h: Seq<RateEntry>, p: spec_fn(RateEntry) -> bool, k: int)
    requires
        0 <= k <= h.len(),
        forall|i: int| 0 <= i < k ==> !p(#[trigger] h[i]),
        forall|i: int| k <= i < h.len() ==> p(#[trigger] h[i]),
    ensures
        h.filter(p) == h.skip(k),
    decreases h.len(),
{
    reveal(Seq::filter);
    if h.len() == 0 {
        assert(h.filter(p) =~= h.skip(k));
    } else {
        let front = h.drop_last();
        assert(forall|i: int| 0 <= i < front.len() ==> front[i] == h[i]);
        if k == h.len() {
            lemma_filter_tail(front, p, k - 1);
            assert(front.skip(k - 1) =~= h.skip(k));
        } else {
            lemma_filter_tail(front, p, k);
            assert(front.skip(k).push(h.last()) =~= h.skip(k));
        }
    }
}

/// Where the entries of an ascending history start to reach `sequence`.
pub proof fn lemma_position(h: Seq<RateEntry>, sequence: u64) -> (k: int)
    requires
        ascending(h),
    ensures
        0 <= k <= h.len(),
        forall|i: int| 0 <= i < k ==> (#[trigger] h[i]).sequence < sequence,
        forall|i: int| k <= i < h.len() ==> (#[trigger] h[i]).sequence >= sequence,
    decreases h.len(),
{
    if h.len() == 0 {
        0
    } else if h.last().sequence < sequence {
        h.len() as int
    } else {
        let front = h.drop_last();
        assert(forall|i: int| 0 <= i < front.len() ==> front[i] == h[i]);
        lemma_position(front, sequence)
    }
}

/// Writing `e` to an ascending history replaces the entry at position `k` if
/// that entry has the sequence of `e`, and puts `e` in at `k` otherwise, where
/// `k` is the position at which the entries start to reach the sequence of `e`.
pub proof fn lemma_inserted_at(h: Seq<RateEntry>, e: RateEntry, k: int)
    requires
        ascending(h),
        0 <= k <= h.len(),
        forall|i: int| 0 <= i < k ==> (#[trigger] h[i]).sequence < e.sequence,
        k < h.len() ==> h[k].sequence >= e.sequence,
    ensures
        k < h.len() && h[k].sequence == e.sequence ==> inserted(h, e) == h.update(k, e),
        !(k < h.len() && h[k].sequence == e.sequence) ==> inserted(h, e) == h.insert(k, e),
        ascending(inserted(h, e)),
        stores(h, e.sequence) <==> k < h.len() && h[k].sequence == e.sequence,
{
    let below = |x: RateEntry| x.sequence < e.sequence;
    let above = |x: RateEntry| x.sequence > e.sequence;
    lemma_filter_head(h, below, k);
    if k < h.len() && h[k].sequence == e.sequence {
        lemma_filter_tail(h, above, k + 1);
        assert(inserted(h, e) =~= h.update(k, e));
    } else {
        lemma_filter_tail(h, above, k);
        assert(inserted(h, e) =~= h.insert(k, e));
    }
}

/// Writing to an ascending history keeps it ascending, and makes it longer by
/// one exactly when the sequence is new. The history then holds the written
/// record under its sequence, and under every other sequence what it held
/// before.
pub proof fn lemma_inserted(h: Seq<RateEntry>, e: RateEntry)
    requires
        ascending(h),
    ensures
        ascending(inserted(h, e)),
        inserted(h, e).len() == h.len() + (if stores(h, e.sequence) {
            0int
        } else {
            1int
        }),
        record_at(inserted(h, e), e.sequence) == Some(e.rates),
        forall|s: u64| s != e.sequence ==> record_at(inserted(h, e), s) == record_at(h, s),
{
    let k = lemma_position(h, e.sequence);
    lemma_inserted_at(h, e, k);
    let w = inserted(h, e);
    assert(w[k] == e);
    lemma_record_at(w, k);
    assert forall|s: u64| s != e.sequence implies record_at(w, s) == record_at(h, s) by {
        if stores(h, s) {
            let i = choose|i: int| 0 <= i < h.len() && h[i].sequence == s;
            lemma_record_at(h, i);
            if k < h.len() && h[k].sequence == e.sequence {
                assert(w[i] == h[i]);
                lemma_record_at(w, i);
            } else if i < k {
                assert(w[i] == h[i]);
                lemma_record_at(w, i);
            } else {
                assert(w[i + 1] == h[i]);
                lemma_record_at(w, i + 1);
            }
        } else if stores(w, s) {
            let j = choose|j: int| 0 <= j < w.len() && w[j].sequence == s;
            if k < h.len() && h[k].sequence == e.sequence {
                assert(w[j] == h[j]);
            } else if j < k {
                assert(w[j] == h[j]);
            } else {
                assert(w[j] == h[j - 1]);
            }
        }
    }
}

/// In an ascending history the record under the sequence of the `i`-th entry
/// is that of the `i`-th entry.
pub proof fn lemma_record_at(h: Seq<RateEntry>, i: int)
    requires
        ascending(h),
        0 <= i < h.len(),
    ensures
        record_at(h, h[i].sequence) == Some(h[i].rates),
{
    let j = choose|j: int| 0 <= j < h.len() && h[j].sequence == h[i].sequence;
    assert(j == i) by {
        if j < i {
            assert(h[j].sequence < h[i].sequence);
        } else if i < j {
            assert(h[i].sequence < h[j].sequence);
        }
    }
}

/// The first entry of an ascending history has the smallest sequence.
pub proof fn lemma_oldest_is_minimum(h: Seq<RateEntry>)
    requires
        ascending(h),
        h.len() > 0,
    ensures
        is_minimum(h, h[0].sequence),
{
}

/// The last entry of an ascending history is the latest record: no stored
/// sequence exceeds its sequence.
pub proof fn lemma_latest_is_maximum(h: Seq<RateEntry>)
    requires
        ascending(h),
        h.len() > 0,
    ensures
        latest_record(h) == Some(h.last().rates),
        is_latest(h, h.last().rates),
{
    assert(forall|s: u64| stores(h, s) ==> s <= h[h.len() - 1].sequence);
}

/// Restoring the bound takes out the record with the smallest sequence and no
/// other: every other record stays, under its sequence and in its order.
pub proof fn lemma_prune_removes_minimum(h: Seq<RateEntry>)
    requires
        ascending(h),
        h.len() > MAX_NUM_HISTORICAL_RATES,
    ensures
        evicted(h) == Some(h[0].sequence),
        is_minimum(h, h[0].sequence),
        !stores(pruned(h), h[0].sequence),
        pruned(h).len() == h.len() - 1,
        forall|i: int| 1 <= i < h.len() ==> pruned(h)[i - 1] == h[i],
        ascending(pruned(h)),
{
}

/// A complete write leaves a history that was within the bound within the
/// bound.
pub proof fn lemma_write_keeps_bound(h: Seq<RateEntry>, e: RateEntry)
    requires
        ascending(h),
        h.len() <= MAX_NUM_HISTORICAL_RATES,
    ensures
        ascending(written(h, e)),
        written(h, e).len() <= MAX_NUM_HISTORICAL_RATES,
{
    lemma_inserted(h, e);
}

/// Whatever is written, and in whatever order, the history never holds more
/// records than the bound allows, and never two under one sequence.
pub proof fn lemma_replayed_within_bound(writes: Seq<RateEntry>)
    ensures
        ascending(replayed(writes)),
        replayed(writes).len() <= MAX_NUM_HISTORICAL_RATES,
    decreases writes.len(),
{
    if writes.len() > 0 {
        lemma_replayed_within_bound(writes.drop_last());
        lemma_write_keeps_bound(replayed(writes.drop_last()), writes.last());
    }
}

/// Where a complete write evicts, it evicts the record with the smallest
/// sequence among those that the history holds once the entry is written.
/// Every other record stays.
pub proof fn lemma_write_evicts_minimum(h: Seq<RateEntry>, e: RateEntry)
    requires
        ascending(h),
        evicted(inserted(h, e)).is_some(),
    ensures
        is_minimum(inserted(h, e), evicted(inserted(h, e)).unwrap()),
        !stores(written(h, e), evicted(inserted(h, e)).unwrap()),
        forall|s: u64|
            s != evicted(inserted(h, e)).unwrap() ==> record_at(written(h, e), s) == record_at(
                inserted(h, e),
                s,
            ),
{
    let w = inserted(h, e);
    let rest = written(h, e);
    lemma_inserted(h, e);
    lemma_prune_removes_minimum(w);
    assert forall|s: u64| s != w[0].sequence implies record_at(rest, s) == record_at(w, s) by {
        if stores(w, s) {
            let i = choose|i: int| 0 <= i < w.len() && w[i].sequence == s;
            lemma_record_at(w, i);
            assert(rest[i - 1] == w[i]);
            lemma_record_at(rest, i - 1);
        } else if stores(rest, s) {
            let j = choose|j: int| 0 <= j < rest.len() && rest[j].sequence == s;
            assert(rest[j] == w[j + 1]);
        }
    }
}

/// The records of one denom, kept in ascending order of sequence.
#[derive(Debug)]
pub struct History {
    entries: Vec<RateEntry>,
}

impl View for History {
    type V = Seq<RateEntry>;

    closed spec fn view(&self) -> Seq<RateEntry> {
        self.entries@
    }
}

impl History {
    /// The invariant of a history: its sequences strictly ascend.
    pub open spec fn wf(&self) -> bool {
        ascending(self@)
    }

    /// A history without records.
    pub fn new() -> (r: History)
        ensures
            r.wf(),
            r@ == Seq::<RateEntry>::empty(),
    {
        History { entries: Vec::new() }
    }

    /// The number of records.
    pub fn len(&self) -> (n: usize)
        ensures
            n == self@.len(),
    {
        self.entries.len()
    }

    /// Writes `entry`: a record under the same sequence is replaced, a new
    /// sequence takes its place in the order.
    pub fn insert(&mut self, entry: RateEntry)
        requires
            old(self).wf(),
        ensures
            final(self).wf(),
            final(self)@ == inserted(old(self)@, entry),
    {
        let n = self.entries.len();
        let mut k: usize = 0;
        while k < n && self.entries[k].sequence < entry.sequence
            invariant
                k <= n,
                n == self.entries.len(),
                self.entries@ == old(self).entries@,
                forall|i: int| 0 <= i < k ==> (#[trigger] self.entries[i]).sequence < entry.sequence,
            decreases n - k,
        {
            k += 1;
        }
        proof {
            lemma_inserted_at(old(self)@, entry, k as int);
        }
        if k < n && self.entries[k].sequence == entry.sequence {
            self.entries.set(k, entry);
        } else {
            self.entries.insert(k, entry);
        }
    }

    /// The record that is stored under `sequence`, if there is one.
    pub fn get(&self, sequence: u64) -> (r: Option<Rates>)
        requires
            self.wf(),
        ensures
            r == record_at(self@, sequence),
    {
        let n = self.entries.len();
        let mut i: usize = 0;
        while i < n
            invariant
                self.wf(),
                i <= n,
                n == self.entries.len(),
                forall|j: int| 0 <= j < i ==> (#[trigger] self.entries[j]).sequence != sequence,
            decreases n - i,
        {
            if self.entries[i].sequence == sequence {
                proof {
                    lemma_record_at(self@, i as int);
                }
                return Some(self.entries[i].rates);
            }
            i += 1;
        }
        None
    }

    /// Takes the oldest record out and hands it back.
    pub fn evict_oldest(&mut self) -> (r: RateEntry)
        requires
            old(self).wf(),
            old(self)@.len() > 0,
        ensures
            final(self).wf(),
            final(self)@ == old(self)@.skip(1),
            r == old(self)@[0],
            is_minimum(old(self)@, r.sequence),
    {
        let r = self.entries.remove(0);
        assert(self.entries@ =~= old(self).entries@.skip(1));
        r
    }

    /// The record with the largest sequence, if there is any record.
    pub fn latest(&self) -> (r: Option<Rates>)
        requires
            self.wf(),
        ensures
            r == latest_record(self@),
            r matches Some(rates) ==> is_latest(self@, rates),
    {
        proof {
            if self@.len() > 0 {
                lemma_latest_is_maximum(self@);
            }
        }
        let n = self.entries.len();
        if n == 0 {
            None
        } else {
            Some(self.entries[n - 1].rates)
        }
    }

    /// The latest records, the latest one first: all of them, or at most
    /// `limit` where a limit is given.
    pub fn newest(&self, limit: Option<u64>) -> (r: Vec<Rates>)
        ensures
            r@ == newest_first(self@, window(self@.len(), limit)),
    {
        let n = self.entries.len();
        let count: usize = match limit {
            Some(l) => if l < n as u64 {
                l as usize
            } else {
                n
            },
            None => n,
        };
        let mut out: Vec<Rates> = Vec::new();
        let mut i: usize = 0;
        while i < count
            invariant
                i <= count <= n,
                n == self.entries.len(),
                out@ == newest_first(self@, i as nat),
            decreases count - i,
        {
            out.push(self.entries[n - 1 - i].rates);
            i += 1;
            assert(out@ =~= newest_first(self@, i as nat));
        }
        out
    }
}

} // verus!
