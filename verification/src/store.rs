//! A generic keyed record store: an ordered collection of records, keyed by
//! each record's id, with the load / upsert / delete / replace operations the
//! widget, profile and dependency collections all share.
//!
//! The store holds the collection in memory; persistence around it (reading
//! and rewriting the backing file) is the caller's concern. An absent backing
//! file is represented by an empty store.
use vstd::prelude::*;

use crate::records::Record;

verus! {

/// No two records in `s` share a key.
pub open spec fn unique_keys<T: Record>(s: Seq<T>) -> bool {
    forall|i: int, j: int| 0 <= i < j < s.len() ==> s[i].key() != s[j].key()
}

/// Some record in `s` has key `k`.
pub open spec fn has_key<T: Record>(s: Seq<T>, k: Seq<char>) -> bool {
    exists|i: int| 0 <= i < s.len() && s[i].key() == k
}

/// `i` is the first position in `s` whose record has key `k`.
pub open spec fn first_key_at<T: Record>(s: Seq<T>, k: Seq<char>, i: int) -> bool {
    &&& 0 <= i < s.len()
    &&& s[i].key() == k
    &&& forall|j: int| 0 <= j < i ==> s[j].key() != k
}

/// What `upsert` leaves behind: the first record sharing the new record's key
/// is replaced in place, and if none shares it the record is appended.
pub open spec fn upsert_post<T: Record>(before: Seq<T>, after: Seq<T>, item: T) -> bool {
    &&& has_key(before, item.key()) ==> exists|i: int|
        #[trigger] first_key_at(before, item.key(), i) && after == before.update(i, item)
    &&& !has_key(before, item.key()) ==> after == before.push(item)
}

/// An ordered collection of records keyed by id.
pub struct RecordStore<T: Record> {
    records: Vec<T>,
}

impl<T: Record> RecordStore<T> {
    /// The stored sequence, in order.
    pub closed spec fn view(&self) -> Seq<T> {
        self.records@
    }

    /// A store with no records, as a fresh installation loads.
    pub fn new() -> (r: Self)
        ensures
            r@ == Seq::<T>::empty(),
    {
        RecordStore { records: Vec::new() }
    }

    /// A store over an already-decoded collection.
    pub fn from_records(records: Vec<T>) -> (r: Self)
        ensures
            r@ == records@,
    {
        RecordStore { records }
    }

    /// The stored records, in order; empty for a fresh store.
    pub fn records(&self) -> (r: &Vec<T>)
        ensures
            r@ == self@,
    {
        &self.records
    }

    /// Replaces the first record whose key matches `item`'s, else appends
    /// `item`. Keys stay unique if they were.
    pub fn upsert(&mut self, item: T)
        ensures
            upsert_post(old(self)@, final(self)@, item),
            unique_keys(old(self)@) ==> unique_keys(final(self)@),
            has_key(final(self)@, item.key()),
    {
        let key = item.record_id();
        let n = self.records.len();
        let mut i: usize = 0;
        while i < n
            invariant
                n == self.records.len(),
                i <= n,
                self.records@ == old(self).records@,
                key@ == item.key(),
                forall|j: int| 0 <= j < i ==> self.records@[j].key() != key@,
            decreases n - i,
        {
            if self.records[i].record_id().eq(key) {
                assert(first_key_at(self.records@, item.key(), i as int));
                self.records[i] = item;
                assert(self@ == old(self)@.update(i as int, item));
                return ;
            }
            i += 1;
        }
        assert(!has_key(self.records@, item.key()));
        self.records.push(item);
        assert(self@ == old(self)@.push(item));
        assert(self@[self@.len() - 1].key() == item.key());
    }

    /// Removes every record whose key is `id`; absent keys make this a no-op.
    #[verifier::loop_isolation(false)]
    pub fn delete(&mut self, id: &String)
        ensures
            final(self)@ == old(self)@.filter(|x: T| x.key() != id@),
            unique_keys(old(self)@) ==> unique_keys(final(self)@),
            !has_key(final(self)@, id@),
    {
        let ghost pred = |x: T| x.key() != id@;
        let ghost orig = self.records@;
        let ghost n: int = orig.len() as int;
        let mut kept: Vec<T> = Vec::new();
        proof {
            reveal(Seq::filter);
            assert(orig.subrange(0, n) =~= orig);
            assert(orig.subrange(0, 0) =~= Seq::<T>::empty());
            assert(kept@ == orig.subrange(0, 0).filter(pred));
        }
        while self.records.len() > 0
            invariant
                self.records@.len() <= n,
                self.records@ == orig.subrange(n - self.records@.len(), n),
                kept@ == orig.subrange(0, n - self.records@.len()).filter(pred),
            decreases self.records.len(),
        {
            let ghost i: int = n - self.records@.len();
            let ghost prefix = orig.subrange(0, i);
            proof {
                assert(self.records@[0] == orig.subrange(i, n)[0]);
            }
            let item = self.records.remove(0);
            proof {
                assert(item == orig[i]);
                assert(self.records@ =~= orig.subrange(i + 1, n));
                assert(orig.subrange(0, i + 1) =~= prefix.push(orig[i]));
                reveal(Seq::filter);
                assert(prefix.push(orig[i]).drop_last() == prefix);
            }
            if !item.record_id().eq(id) {
                kept.push(item);
                assert(kept@ == orig.subrange(0, i + 1).filter(pred));
            } else {
                assert(kept@ == orig.subrange(0, i + 1).filter(pred));
            }
        }
        assert(orig.subrange(0, n) == orig);
        self.records = kept;
        proof {
            if unique_keys(old(self)@) {
                lemma_filter_keeps_unique_keys(old(self)@, pred);
            }
            broadcast use vstd::seq_lib::group_filter_ensures;

            assert forall|j: int| 0 <= j < self@.len() implies self@[j].key() != id@ by {
                assert(pred(self@[j]));
            }
        }
    }

    /// Discards the whole collection in favour of `records`: a total
    /// overwrite, as applying a profile demands.
    pub fn replace_all(&mut self, records: Vec<T>)
        ensures
            final(self)@ == records@,
    {
        self.records = records;
    }
}

/// Every element of a filtered sequence occurs in the sequence it was
/// filtered from.
pub(crate) proof fn lemma_filter_elems_from<T>(s: Seq<T>, pred: spec_fn(T) -> bool)
    ensures
        forall|k: int|
            0 <= k < s.filter(pred).len() ==> exists|w: int|
                0 <= w < s.len() && s[w] == #[trigger] s.filter(pred)[k],
    decreases s.len(),
{
    reveal(Seq::filter);
    if s.len() > 0 {
        lemma_filter_elems_from(s.drop_last(), pred);
        let f = s.filter(pred);
        let fd = s.drop_last().filter(pred);
        assert forall|k: int| 0 <= k < f.len() implies exists|w: int|
            0 <= w < s.len() && s[w] == #[trigger] f[k] by {
            if pred(s.last()) && k == f.len() - 1 {
                assert(s[s.len() - 1] == f[k]);
            } else {
                assert(f[k] == fd[k]);
                let w = choose|w: int| 0 <= w < s.drop_last().len() && s.drop_last()[w] == fd[k];
                assert(s[w] == f[k]);
            }
        }
    }
}

/// Filtering keeps keys unique: a subsequence of records with pairwise
/// distinct keys still has pairwise distinct keys.
proof fn lemma_filter_keeps_unique_keys<T: Record>(s: Seq<T>, pred: spec_fn(T) -> bool)
    requires
        unique_keys(s),
    ensures
        unique_keys(s.filter(pred)),
    decreases s.len(),
{
    reveal(Seq::filter);
    if s.len() > 0 {
        lemma_filter_keeps_unique_keys(s.drop_last(), pred);
        let f = s.filter(pred);
        let fd = s.drop_last().filter(pred);
        if pred(s.last()) {
            assert(f == fd.push(s.last()));
            assert forall|i: int, j: int| 0 <= i < j < f.len() implies f[i].key() != f[j].key() by {
                if j < f.len() - 1 {
                    assert(fd[i].key() != fd[j].key());
                } else {
                    lemma_filter_elems_from(s.drop_last(), pred);
                    assert(f[i] == fd[i]);
                    let w = choose|w: int|
                        0 <= w < s.drop_last().len() && s.drop_last()[w] == fd[i];
                    assert(s[w] == f[i]);
                    assert(s[w].key() != s[s.len() - 1].key());
                }
            }
        }
    }
}

/// A filter over a predicate every element satisfies changes nothing.
proof fn lemma_filter_all_kept<T>(s: Seq<T>, pred: spec_fn(T) -> bool)
    requires
        forall|i: int| 0 <= i < s.len() ==> pred(s[i]),
    ensures
        s.filter(pred) == s,
    decreases s.len(),
{
    reveal(Seq::filter);
    if s.len() > 0 {
        lemma_filter_all_kept(s.drop_last(), pred);
        assert(s.filter(pred) == s.drop_last().push(s.last()));
        assert(s.drop_last().push(s.last()) == s);
    }
}

/// Round trip: after `upsert(x)` on a store with unique keys, exactly one
/// record carries `x`'s key, and it is `x` itself — a repeated upsert with
/// the same key replaces rather than duplicates.
pub proof fn lemma_upsert_round_trip<T: Record>(before: Seq<T>, after: Seq<T>, item: T)
    requires
        unique_keys(before),
        upsert_post(before, after, item),
    ensures
        exists|i: int|
            #![trigger after[i]]
            0 <= i < after.len() && after[i] == item && (forall|j: int|
                0 <= j < after.len() && after[j].key() == item.key() ==> j == i),
        has_key(before, item.key()) ==> after.len() == before.len(),
        !has_key(before, item.key()) ==> after.len() == before.len() + 1,
{
    let k = item.key();
    if has_key(before, k) {
        let i = choose|i: int| #[trigger] first_key_at(before, k, i) && after == before.update(
            i,
            item,
        );
        assert(after[i] == item);
        assert forall|j: int| 0 <= j < after.len() && after[j].key() == k implies j == i by {
            if j != i {
                assert(after[j] == before[j]);
                assert(before[j].key() == before[i].key());
            }
        }
    } else {
        let i = after.len() - 1;
        assert(after[i] == item);
        assert forall|j: int| 0 <= j < after.len() && after[j].key() == k implies j == i by {
            if j < i {
                assert(before[j].key() == k);
            }
        }
    }
}

/// Idempotence: deleting a key no record carries leaves the store unchanged
/// (and the operation still succeeds).
pub proof fn lemma_delete_absent_is_noop<T: Record>(before: Seq<T>, id: Seq<char>)
    requires
        !has_key(before, id),
    ensures
        before.filter(|x: T| x.key() != id) == before,
{
    assert forall|i: int| 0 <= i < before.len() implies (|x: T| x.key() != id)(before[i]) by {
        assert(!(before[i].key() == id));
    }
    lemma_filter_all_kept(before, |x: T| x.key() != id);
}

/// Applying a profile is a total overwrite: after `replace_all(loaded)` the
/// store holds exactly `loaded`, so a key absent from the profile is absent
/// from the store, whatever was stored before.
pub proof fn lemma_replace_all_overwrites<T: Record>(
    prior: Seq<T>,
    loaded: Seq<T>,
    after: Seq<T>,
    k: Seq<char>,
)
    requires
        after == loaded,
        !has_key(loaded, k),
    ensures
        !has_key(after, k),
        has_key(prior, k) ==> !has_key(after, k),
{
}

} // verus!
