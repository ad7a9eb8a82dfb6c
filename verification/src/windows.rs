//! The window-tracking table: the mapping from widget id to the handle of its
//! live window.
//!
//! The table enforces at most one live window per widget id, as observed
//! through itself: opening a widget first unregisters any handle already held
//! for that id and hands it back to the caller, who closes the old window
//! before creating the new one. Handles are opaque tokens issued by the host
//! windowing layer; the table never inspects them.
use vstd::prelude::*;

verus! {

/// One tracked window: the owning widget's id and the host layer's handle.
pub struct WindowEntry {
    pub id: String,
    pub handle: u64,
}

/// `i` is the first position in `s` whose entry belongs to widget `id`.
pub open spec fn first_entry_at(s: Seq<WindowEntry>, id: Seq<char>, i: int) -> bool {
    &&& 0 <= i < s.len()
    &&& s[i].id@ == id
    &&& forall|j: int| 0 <= j < i ==> s[j].id@ != id
}

/// Some entry in `s` belongs to widget `id`.
pub open spec fn tracks(s: Seq<WindowEntry>, id: Seq<char>) -> bool {
    exists|i: int| 0 <= i < s.len() && s[i].id@ == id
}

/// The table of live widget windows.
pub struct WindowManager {
    entries: Vec<WindowEntry>,
}

impl WindowManager {
    /// The tracked entries, in registration order.
    pub closed spec fn view(&self) -> Seq<WindowEntry> {
        self.entries@
    }

    /// No two tracked entries belong to the same widget id. Holds of every
    /// table reached from `new` through `open` and `close`.
    pub open spec fn wf(&self) -> bool {
        forall|i: int, j: int| 0 <= i < j < self@.len() ==> self@[i].id@ != self@[j].id@
    }

    /// An empty table: no widget has a live window.
    pub fn new() -> (r: Self)
        ensures
            r@ == Seq::<WindowEntry>::empty(),
            r.wf(),
    {
        WindowManager { entries: Vec::new() }
    }

    /// Registers `handle` as widget `id`'s one live window, dropping any
    /// entry the id had before. Returns the replaced handle, which the
    /// caller must close. After the call exactly one entry carries `id`.
    #[verifier::loop_isolation(false)]
    #[verifier::rlimit(50)]
    pub fn open(&mut self, id: &String, handle: u64) -> (prev: Option<u64>)
        ensures
            final(self)@ == old(self)@.filter(|e: WindowEntry| e.id@ != id@).push(
                final(self)@.last(),
            ),
            final(self)@.last().id@ == id@ && final(self)@.last().handle == handle,
            prev matches Some(h) ==> exists|i: int|
                #[trigger] first_entry_at(old(self)@, id@, i) && old(self)@[i].handle == h,
            prev is None ==> !tracks(old(self)@, id@),
            tracks(final(self)@, id@),
            forall|i: int, j: int|
                0 <= i < j < final(self)@.len() && final(self)@[j].id@ == id@
                    ==> final(self)@[i].id@ != id@,
            old(self).wf() ==> final(self).wf(),
    {
        let ghost pred = |e: WindowEntry| e.id@ != id@;
        let ghost orig = self.entries@;
        let ghost n: int = orig.len() as int;
        let mut kept: Vec<WindowEntry> = Vec::new();
        let mut prev: Option<u64> = None;
        proof {
            reveal(Seq::filter);
            assert(orig.subrange(0, 0) =~= Seq::<WindowEntry>::empty());
        }
        while self.entries.len() > 0
            invariant
                self.entries@.len() <= n,
                self.entries@ == orig.subrange(n - self.entries@.len(), n),
                kept@ == orig.subrange(0, n - self.entries@.len()).filter(pred),
                prev matches Some(h) ==> exists|i: int|
                    #[trigger] first_entry_at(orig, id@, i) && i < n - self.entries@.len()
                        && orig[i].handle == h,
                prev is None ==> forall|j: int|
                    0 <= j < n - self.entries@.len() ==> orig[j].id@ != id@,
            decreases self.entries.len(),
        {
            let ghost i: int = n - self.entries@.len();
            let ghost prefix = orig.subrange(0, i);
            proof {
                assert(self.entries@[0] == orig.subrange(i, n)[0]);
            }
            let entry = self.entries.remove(0);
            proof {
                assert(entry == orig[i]);
                assert(self.entries@ =~= orig.subrange(i + 1, n));
                assert(orig.subrange(0, i + 1) =~= prefix.push(orig[i]));
                reveal(Seq::filter);
                assert(prefix.push(orig[i]).drop_last() == prefix);
            }
            if entry.id.eq(id) {
                if prev.is_none() {
                    proof {
                        assert(first_entry_at(orig, id@, i));
                    }
                    prev = Some(entry.handle);
                }
            } else {
                kept.push(entry);
            }
        }
        assert(orig.subrange(0, n) =~= orig);
        let new_entry = WindowEntry { id: id.clone(), handle };
        kept.push(new_entry);
        self.entries = kept;
        proof {
            broadcast use vstd::seq_lib::group_filter_ensures;

            let f = orig.filter(pred);
            assert(self@.last() == new_entry);
            assert(self@ == f.push(self@.last()));
            assert forall|i: int, j: int|
                0 <= i < j < self@.len() && self@[j].id@ == id@ implies self@[i].id@ != id@ by {
                if j < self@.len() - 1 {
                    assert(pred(f[j]));
                } else {
                    assert(pred(f[i]));
                }
            }
            if old(self).wf() {
                assert forall|i: int, j: int| 0 <= i < j < orig.len() implies orig[i].id@
                    != orig[j].id@ by {
                    assert(old(self)@[i].id@ != old(self)@[j].id@);
                }
                lemma_filter_entries_distinct(orig, pred);
                assert forall|i: int, j: int| 0 <= i < j < self@.len() implies self@[i].id@
                    != self@[j].id@ by {
                    if j < self@.len() - 1 {
                        assert(f[i].id@ != f[j].id@);
                    } else {
                        assert(pred(f[i]));
                    }
                }
            }
        }
        prev
    }

    /// Unregisters widget `id`'s window and returns its handle for the
    /// caller to close; `None`, and no change, when no window is tracked for
    /// `id` — closing an absent window is not an error.
    #[verifier::loop_isolation(false)]
    #[verifier::rlimit(50)]
    pub fn close(&mut self, id: &String) -> (removed: Option<u64>)
        ensures
            final(self)@ == old(self)@.filter(|e: WindowEntry| e.id@ != id@),
            removed matches Some(h) ==> exists|i: int|
                #[trigger] first_entry_at(old(self)@, id@, i) && old(self)@[i].handle == h,
            removed is None ==> !tracks(old(self)@, id@),
            !tracks(final(self)@, id@),
            old(self).wf() ==> final(self).wf(),
    {
        let ghost pred = |e: WindowEntry| e.id@ != id@;
        let ghost orig = self.entries@;
        let ghost n: int = orig.len() as int;
        let mut kept: Vec<WindowEntry> = Vec::new();
        let mut removed: Option<u64> = None;
        proof {
            reveal(Seq::filter);
            assert(orig.subrange(0, 0) =~= Seq::<WindowEntry>::empty());
        }
        while self.entries.len() > 0
            invariant
                self.entries@.len() <= n,
                self.entries@ == orig.subrange(n - self.entries@.len(), n),
                kept@ == orig.subrange(0, n - self.entries@.len()).filter(pred),
                removed matches Some(h) ==> exists|i: int|
                    #[trigger] first_entry_at(orig, id@, i) && i < n - self.entries@.len()
                        && orig[i].handle == h,
                removed is None ==> forall|j: int|
                    0 <= j < n - self.entries@.len() ==> orig[j].id@ != id@,
            decreases self.entries.len(),
        {
            let ghost i: int = n - self.entries@.len();
            let ghost prefix = orig.subrange(0, i);
            proof {
                assert(self.entries@[0] == orig.subrange(i, n)[0]);
            }
            let entry = self.entries.remove(0);
            proof {
                assert(entry == orig[i]);
                assert(self.entries@ =~= orig.subrange(i + 1, n));
                assert(orig.subrange(0, i + 1) =~= prefix.push(orig[i]));
                reveal(Seq::filter);
                assert(prefix.push(orig[i]).drop_last() == prefix);
            }
            if entry.id.eq(id) {
                if removed.is_none() {
                    proof {
                        assert(first_entry_at(orig, id@, i));
                    }
                    removed = Some(entry.handle);
                }
            } else {
                kept.push(entry);
            }
        }
        assert(orig.subrange(0, n) =~= orig);
        self.entries = kept;
        proof {
            broadcast use vstd::seq_lib::group_filter_ensures;

            assert forall|j: int| 0 <= j < self@.len() implies self@[j].id@ != id@ by {
                assert(pred(self@[j]));
            }
            if old(self).wf() {
                assert forall|i: int, j: int| 0 <= i < j < orig.len() implies orig[i].id@
                    != orig[j].id@ by {
                    assert(old(self)@[i].id@ != old(self)@[j].id@);
                }
                lemma_filter_entries_distinct(orig, pred);
                assert forall|i: int, j: int| 0 <= i < j < self@.len() implies self@[i].id@
                    != self@[j].id@ by {
                    assert(self@[i] == orig.filter(pred)[i]);
                }
            }
        }
        removed
    }
}

/// Filtering a table with pairwise distinct widget ids leaves the ids
/// pairwise distinct.
proof fn lemma_filter_entries_distinct(s: Seq<WindowEntry>, pred: spec_fn(WindowEntry) -> bool)
    requires
        forall|i: int, j: int| 0 <= i < j < s.len() ==> s[i].id@ != s[j].id@,
    ensures
        forall|i: int, j: int|
            0 <= i < j < s.filter(pred).len() ==> s.filter(pred)[i].id@ != s.filter(pred)[j].id@,
    decreases s.len(),
{
    reveal(Seq::filter);
    if s.len() > 0 {
        lemma_filter_entries_distinct(s.drop_last(), pred);
        let f = s.filter(pred);
        let fd = s.drop_last().filter(pred);
        if pred(s.last()) {
            assert(f == fd.push(s.last()));
            assert forall|i: int, j: int| 0 <= i < j < f.len() implies f[i].id@ != f[j].id@ by {
                if j < f.len() - 1 {
                    assert(fd[i].id@ != fd[j].id@);
                } else {
                    crate::store::lemma_filter_elems_from(s.drop_last(), pred);
                    assert(f[i] == fd[i]);
                    let w = choose|w: int|
                        0 <= w < s.drop_last().len() && s.drop_last()[w] == fd[i];
                    assert(s[w] == f[i]);
                    assert(s[w].id@ != s[s.len() - 1].id@);
                }
            }
        }
    }
}

/// Opening the same widget twice in succession leaves exactly one tracked
/// window for its id — the handle of the second call — however many entries
/// the table held before: the second `open` drops the first call's entry.
pub proof fn lemma_reopen_keeps_one_window(
    first: Seq<WindowEntry>,
    second: Seq<WindowEntry>,
    id: Seq<char>,
)
    requires
        second.len() > 0,
        second.last().id@ == id,
        second == first.filter(|e: WindowEntry| e.id@ != id).push(second.last()),
    ensures
        exists|i: int|
            #![trigger second[i]]
            0 <= i < second.len() && second[i].id@ == id && (forall|j: int|
                0 <= j < second.len() && second[j].id@ == id ==> j == i),
{
    broadcast use vstd::seq_lib::group_filter_ensures;

    let pred = |e: WindowEntry| e.id@ != id;
    let f = first.filter(pred);
    let i = second.len() - 1;
    assert(second[i].id@ == id);
    assert forall|j: int| 0 <= j < second.len() && second[j].id@ == id implies j == i by {
        if j < i {
            assert(second[j] == f[j]);
            assert(pred(f[j]));
        }
    }
}

} // verus!
