//! The command engine: a linear record of applied actions with an undo/redo
//! cursor, coalescing of adjacent same-target actions, and a saved watermark.
//!
//! The record is generic over the action family. An action describes one
//! reversible mutation of a target document; the record stores each applied
//! action, replays its inverse on undo, and tries to coalesce each new
//! action into the previous entry so that a continuous gesture occupies one
//! entry, or none at all when its net effect is zero.

use vstd::prelude::*;

verus! {

/// The outcome of trying to coalesce a new action into the previous entry.
pub enum Merged<A> {
    /// The previous entry absorbed the new action.
    Yes,
    /// No coalescing applies; the new action is handed back unchanged.
    No(A),
    /// The two actions cancel exactly; the previous entry is to vanish.
    Annul,
}

/// The outcome of coalescing, at the level of action views.
pub enum MergedView<AV> {
    /// Coalesced into the given combined entry.
    Yes(AV),
    /// No coalescing applies.
    No,
    /// The two actions cancel exactly.
    Annul,
}

/// One family of reversible document mutations, the interface the record
/// replays history through.
///
/// An action value passes through two states: ready (as constructed by the
/// editing surface) and applied (after `apply`, holding whatever it needs to
/// invert itself). `apply_view`, `undo_view` and `merge_view` are the
/// mathematical meaning of the three operations; `can_invert` gives the
/// inputs on which an applied action undoes to exactly the document it was
/// applied to.
pub trait Action<T: View>: View + Sized {
    /// The inputs on which applying and then undoing restores the document:
    /// a well-formed action for the given document state.
    spec fn can_invert(a: Self::V, t: T::V) -> bool;

    /// What `apply` does: the stored entry and the new document.
    spec fn apply_view(a: Self::V, t: T::V) -> (Self::V, T::V);

    /// What `undo` does: the restored ready action and the new document.
    spec fn undo_view(a: Self::V, t: T::V) -> (Self::V, T::V);

    /// What `merge` does with an applied entry and a newly applied action.
    spec fn merge_view(a: Self::V, b: Self::V) -> MergedView<Self::V>;

    /// Mutate the target, stashing in `self` whatever undo will need.
    fn apply(&mut self, target: &mut T)
        ensures
            final(self)@ == Self::apply_view(old(self)@, old(target)@).0,
            final(target)@ == Self::apply_view(old(self)@, old(target)@).1,
    ;

    /// Invert a previous `apply` of this action on the target.
    fn undo(&mut self, target: &mut T)
        ensures
            final(self)@ == Self::undo_view(old(self)@, old(target)@).0,
            final(target)@ == Self::undo_view(old(self)@, old(target)@).1,
    ;

    /// Try to coalesce a newly applied action into `self`, a previously
    /// applied entry.
    fn merge(&mut self, other: Self) -> (r: Merged<Self>)
        ensures
            match Self::merge_view(old(self)@, other@) {
                MergedView::Yes(m) => final(self)@ == m && r is Yes,
                MergedView::No => final(self)@ == old(self)@ && match r {
                    Merged::No(o) => o@ == other@,
                    _ => false,
                },
                MergedView::Annul => r is Annul,
            },
    ;

    /// A well-formed action applies to an entry that undoes back exactly,
    /// and whose undone form redoes to the same entry and document.
    proof fn lemma_apply_invert(a: Self::V, t: T::V)
        requires
            Self::can_invert(a, t),
        ensures
            ({
                let (a1, t1) = Self::apply_view(a, t);
                let (a0, t0) = Self::undo_view(a1, t1);
                t0 == t && Self::apply_view(a0, t) == (a1, t1)
            }),
    ;

    /// Coalescing two adjacent applied entries yields one applied entry for
    /// the combined step, or, on annulment, certifies that the second step
    /// returned the document to where the first began.
    proof fn lemma_merge_ok(e: Self::V, s0: T::V, s1: T::V, b: Self::V, s2: T::V)
        requires
            ({
                let (e0, es) = Self::undo_view(e, s1);
                es == s0 && Self::apply_view(e0, s0) == (e, s1)
            }),
            ({
                let (b0, bs) = Self::undo_view(b, s2);
                bs == s1 && Self::apply_view(b0, s1) == (b, s2)
            }),
        ensures
            match Self::merge_view(e, b) {
                MergedView::Yes(m) => ({
                    let (m0, ms) = Self::undo_view(m, s2);
                    ms == s0 && Self::apply_view(m0, s0) == (m, s2)
                }),
                MergedView::Annul => s2 == s0,
                MergedView::No => true,
            },
    ;
}

/// An applied entry `e` carries the transition from document `s0` to `s1`:
/// undoing it restores `s0` exactly, and redoing the restored action leads
/// back to `e` and `s1`.
pub open spec fn applied_ok<T: View, A: Action<T>>(e: A::V, s0: T::V, s1: T::V) -> bool {
    &&& A::undo_view(e, s1).1 == s0
    &&& A::apply_view(A::undo_view(e, s1).0, s0) == (e, s1)
}

/// A ready entry `a` ahead of the cursor redoes the transition from `s0` to
/// `s1`.
pub open spec fn ready_ok<T: View, A: Action<T>>(a: A::V, s0: T::V, s1: T::V) -> bool {
    &&& A::apply_view(a, s0).1 == s1
    &&& applied_ok::<T, A>(A::apply_view(a, s0).0, s0, s1)
}

/// The abstract state of a record: the log entries, the cursor that counts
/// how many of them are applied, the saved watermark, and the ghost
/// snapshots of the document before and after each entry.
#[verifier::ext_equal]
pub struct RecordView<AV, TV> {
    /// The log entries, in order of application.
    pub entries: Seq<AV>,
    /// How many entries are applied; the rest are a pending redo branch.
    pub cursor: int,
    /// The cursor position at which the document was last persisted, if any
    /// such position is still reachable.
    pub saved: Option<int>,
    /// Document snapshots: `snaps[i]` is the document after the first `i`
    /// entries; there is one more snapshot than entries.
    pub snaps: Seq<TV>,
}

/// A record whose entries all carry valid transitions between the adjacent
/// snapshots: applied entries behind the cursor, ready entries ahead of it.
pub open spec fn record_wf<T: View, A: Action<T>>(r: RecordView<A::V, T::V>) -> bool {
    &&& 0 <= r.cursor <= r.entries.len()
    &&& r.snaps.len() == r.entries.len() + 1
    &&& match r.saved {
        Some(s) => 0 <= s <= r.entries.len(),
        None => true,
    }
    &&& forall|i: int|
        0 <= i < r.cursor ==> applied_ok::<T, A>(#[trigger] r.entries[i], r.snaps[i], r.snaps[i + 1])
    &&& forall|i: int|
        r.cursor <= i < r.entries.len() ==> ready_ok::<T, A>(
            #[trigger] r.entries[i],
            r.snaps[i],
            r.snaps[i + 1],
        )
}

/// The record's snapshot at the cursor is the present document.
pub open spec fn record_matches<T: View, A: Action<T>>(
    r: RecordView<A::V, T::V>,
    t: T::V,
) -> bool {
    &&& 0 <= r.cursor < r.snaps.len()
    &&& r.snaps[r.cursor] == t
}

/// What `Record::apply` does. The action first mutates the document. With a
/// pending redo branch, that branch is discarded (invalidating the
/// watermark if it pointed into it) and the action starts a new entry.
/// Otherwise the action tries to coalesce into the previous entry, unless
/// the record stands exactly at the watermark, which a merge would destroy.
pub open spec fn record_apply<T: View, A: Action<T>>(
    r: RecordView<A::V, T::V>,
    t: T::V,
    a: A::V,
) -> (RecordView<A::V, T::V>, T::V) {
    let (a1, t1) = A::apply_view(a, t);
    if r.cursor < r.entries.len() {
        let saved1 = match r.saved {
            Some(s) => if s > r.cursor {
                None
            } else {
                Some(s)
            },
            None => None,
        };
        (
            RecordView {
                entries: r.entries.take(r.cursor).push(a1),
                cursor: r.cursor + 1,
                saved: saved1,
                snaps: r.snaps.take(r.cursor + 1).push(t1),
            },
            t1,
        )
    } else if r.entries.len() > 0 && r.saved != Some(r.cursor) {
        match A::merge_view(r.entries.last(), a1) {
            MergedView::Yes(m) => (
                RecordView {
                    entries: r.entries.update(r.entries.len() - 1, m),
                    cursor: r.cursor,
                    saved: r.saved,
                    snaps: r.snaps.update(r.entries.len() as int, t1),
                },
                t1,
            ),
            MergedView::Annul => (
                RecordView {
                    entries: r.entries.drop_last(),
                    cursor: r.cursor - 1,
                    saved: r.saved,
                    snaps: r.snaps.drop_last(),
                },
                t1,
            ),
            MergedView::No => (
                RecordView {
                    entries: r.entries.push(a1),
                    cursor: r.cursor + 1,
                    saved: r.saved,
                    snaps: r.snaps.push(t1),
                },
                t1,
            ),
        }
    } else {
        (
            RecordView {
                entries: r.entries.push(a1),
                cursor: r.cursor + 1,
                saved: r.saved,
                snaps: r.snaps.push(t1),
            },
            t1,
        )
    }
}

/// What `Record::undo` does: nothing on an empty past; otherwise the entry
/// before the cursor is inverted in place and the cursor steps back.
pub open spec fn record_undo<T: View, A: Action<T>>(
    r: RecordView<A::V, T::V>,
    t: T::V,
) -> (RecordView<A::V, T::V>, T::V) {
    if r.cursor <= 0 || r.cursor > r.entries.len() {
        (r, t)
    } else {
        let (a0, t0) = A::undo_view(r.entries[r.cursor - 1], t);
        (
            RecordView {
                entries: r.entries.update(r.cursor - 1, a0),
                cursor: r.cursor - 1,
                saved: r.saved,
                snaps: r.snaps,
            },
            t0,
        )
    }
}

/// What `Record::redo` does: nothing without a pending redo branch;
/// otherwise the entry at the cursor is reapplied and the cursor advances.
pub open spec fn record_redo<T: View, A: Action<T>>(
    r: RecordView<A::V, T::V>,
    t: T::V,
) -> (RecordView<A::V, T::V>, T::V) {
    if r.cursor < 0 || r.cursor >= r.entries.len() {
        (r, t)
    } else {
        let (a1, t1) = A::apply_view(r.entries[r.cursor], t);
        (
            RecordView {
                entries: r.entries.update(r.cursor, a1),
                cursor: r.cursor + 1,
                saved: r.saved,
                snaps: r.snaps,
            },
            t1,
        )
    }
}

/// A linear record of applied actions over a target document of type `T`.
#[verifier::reject_recursive_types(T)]
#[verifier::reject_recursive_types(A)]
pub struct Record<T: View, A: Action<T>> {
    entries: Vec<A>,
    cursor: usize,
    saved: Option<usize>,
    snaps: Ghost<Seq<T::V>>,
}

impl<T: View, A: Action<T>> View for Record<T, A> {
    type V = RecordView<A::V, T::V>;

    closed spec fn view(&self) -> RecordView<A::V, T::V> {
        RecordView {
            entries: self.entries@.map_values(|a: A| a@),
            cursor: self.cursor as int,
            saved: match self.saved {
                Some(s) => Some(s as int),
                None => None,
            },
            snaps: self.snaps@,
        }
    }
}

impl<T: View, A: Action<T>> Record<T, A> {
    #[verifier::type_invariant]
    spec fn inv(self) -> bool {
        self.cursor <= self.entries@.len()
    }

    /// A fresh record over the given document: empty history, the cursor at
    /// the start, and the document marked saved.
    pub fn new(target: &T) -> (r: Self)
        ensures
            r@.entries == Seq::<A::V>::empty(),
            r@.cursor == 0,
            r@.saved == Some(0int),
            r@.snaps == seq![target@],
            record_wf::<T, A>(r@),
            record_matches::<T, A>(r@, target@),
    {
        let ghost snaps0: Seq<T::V> = seq![target@];
        let r = Record {
            entries: Vec::new(),
            cursor: 0,
            saved: Some(0),
            snaps: Ghost(snaps0),
        };
        proof {
            assert(r@.entries =~= Seq::<A::V>::empty());
        }
        r
    }

    /// How many entries the record holds, past and redo branch together.
    pub fn len(&self) -> (r: usize)
        ensures
            r == self@.entries.len(),
    {
        self.entries.len()
    }

    /// The cursor: how many entries are currently applied.
    pub fn head(&self) -> (r: usize)
        ensures
            r == self@.cursor,
    {
        self.cursor
    }

    /// True when there is an applied entry to undo.
    pub fn can_undo(&self) -> (r: bool)
        ensures
            r == (self@.cursor > 0),
    {
        self.cursor > 0
    }

    /// True when there is a pending redo branch.
    pub fn can_redo(&self) -> (r: bool)
        ensures
            r == (self@.cursor < self@.entries.len()),
    {
        self.cursor < self.entries.len()
    }

    /// True when the cursor stands at the saved watermark: the document as
    /// it stands is the one last persisted.
    pub fn is_saved(&self) -> (r: bool)
        ensures
            r == (self@.saved == Some(self@.cursor)),
    {
        match self.saved {
            Some(s) => s == self.cursor,
            None => false,
        }
    }

    /// When `saved` is true, move the watermark to the cursor; when false,
    /// invalidate it, so that no cursor position reports saved until the
    /// next `set_saved(true)`.
    pub fn set_saved(&mut self, saved: bool)
        ensures
            final(self)@.entries == old(self)@.entries,
            final(self)@.cursor == old(self)@.cursor,
            final(self)@.snaps == old(self)@.snaps,
            final(self)@.saved == if saved {
                Some(old(self)@.cursor)
            } else {
                None::<int>
            },
    {
        proof {
            use_type_invariant(&*self);
        }
        if saved {
            self.saved = Some(self.cursor);
        } else {
            self.saved = None;
        }
    }

    /// Apply an action to the target and log it, coalescing it into the
    /// previous entry where the family allows; any pending redo branch is
    /// discarded first.
    pub fn apply(&mut self, target: &mut T, action: A)
        ensures
            final(self)@ == record_apply::<T, A>(old(self)@, old(target)@, action@).0,
            final(target)@ == record_apply::<T, A>(old(self)@, old(target)@, action@).1,
    {
        proof {
            use_type_invariant(&*self);
        }
        let ghost r0 = self@;
        let ghost t0 = target@;
        let mut a = action;
        a.apply(target);
        let ghost expected = record_apply::<T, A>(r0, t0, action@);
        let cursor = self.cursor;
        self.cursor = 0;
        let mut entries = Vec::new();
        std::mem::swap(&mut entries, &mut self.entries);
        if cursor < entries.len() {
            entries.truncate(cursor);
            match self.saved {
                Some(s) => if s > cursor {
                    self.saved = None;
                },
                None => {},
            }
            entries.push(a);
            proof {
                self.snaps@ = expected.0.snaps;
                assert(entries@.map_values(|x: A| x@) =~= expected.0.entries);
            }
        } else {
            let at_watermark = match self.saved {
                Some(s) => s == cursor,
                None => false,
            };
            let popped = if at_watermark {
                None
            } else {
                entries.pop()
            };
            match popped {
                Some(last) => {
                    let mut last = last;
                    match last.merge(a) {
                        Merged::Yes => {
                            entries.push(last);
                            proof {
                                self.snaps@ = expected.0.snaps;
                                assert(entries@.map_values(|x: A| x@) =~= expected.0.entries);
                            }
                        },
                        Merged::Annul => {
                            proof {
                                self.snaps@ = expected.0.snaps;
                                assert(entries@.map_values(|x: A| x@) =~= expected.0.entries);
                            }
                        },
                        Merged::No(a2) => {
                            entries.push(last);
                            entries.push(a2);
                            proof {
                                self.snaps@ = expected.0.snaps;
                                assert(entries@.map_values(|x: A| x@) =~= expected.0.entries);
                            }
                        },
                    }
                },
                None => {
                    entries.push(a);
                    proof {
                        self.snaps@ = expected.0.snaps;
                        assert(entries@.map_values(|x: A| x@) =~= expected.0.entries);
                    }
                },
            }
        }
        proof {
            assert(entries@.len() == expected.0.cursor);
        }
        let n = entries.len();
        self.entries = entries;
        self.cursor = n;
        proof {
            assert(self@ =~= expected.0);
        }
    }

    /// Undo the entry before the cursor, if any, stepping the cursor back.
    /// Returns whether anything was undone.
    pub fn undo(&mut self, target: &mut T) -> (r: bool)
        ensures
            final(self)@ == record_undo::<T, A>(old(self)@, old(target)@).0,
            final(target)@ == record_undo::<T, A>(old(self)@, old(target)@).1,
            r == (old(self)@.cursor > 0),
    {
        proof {
            use_type_invariant(&*self);
        }
        let ghost r0 = self@;
        if self.cursor == 0 {
            return false;
        }
        let ghost expected = record_undo::<T, A>(r0, old(target)@);
        let i = self.cursor - 1;
        self.cursor = 0;
        let mut entries = Vec::new();
        std::mem::swap(&mut entries, &mut self.entries);
        let mut e = entries.remove(i);
        e.undo(target);
        entries.insert(i, e);
        proof {
            assert(entries@.map_values(|x: A| x@) =~= expected.0.entries);
        }
        self.entries = entries;
        self.cursor = i;
        proof {
            assert(self@ =~= expected.0);
        }
        true
    }

    /// Reapply the entry at the cursor, if any, advancing the cursor.
    /// Returns whether anything was redone.
    pub fn redo(&mut self, target: &mut T) -> (r: bool)
        ensures
            final(self)@ == record_redo::<T, A>(old(self)@, old(target)@).0,
            final(target)@ == record_redo::<T, A>(old(self)@, old(target)@).1,
            r == (old(self)@.cursor < old(self)@.entries.len()),
    {
        proof {
            use_type_invariant(&*self);
        }
        let ghost r0 = self@;
        if self.cursor >= self.entries.len() {
            return false;
        }
        let ghost expected = record_redo::<T, A>(r0, old(target)@);
        let i = self.cursor;
        self.cursor = 0;
        let mut entries = Vec::new();
        std::mem::swap(&mut entries, &mut self.entries);
        let mut e = entries.remove(i);
        e.apply(target);
        entries.insert(i, e);
        proof {
            assert(entries@.map_values(|x: A| x@) =~= expected.0.entries);
        }
        self.entries = entries;
        self.cursor = i + 1;
        proof {
            assert(self@ =~= expected.0);
        }
        true
    }
}


/// A fresh record over a document is sound and matched: empty history, the
/// cursor at the start, and one snapshot, the document itself.
pub proof fn lemma_fresh_record_wf<T: View, A: Action<T>>(r: RecordView<A::V, T::V>, t: T::V)
    requires
        r.entries.len() == 0,
        r.cursor == 0,
        r.snaps == seq![t],
        match r.saved {
            Some(s) => s == 0,
            None => true,
        },
    ensures
        record_wf::<T, A>(r),
        record_matches::<T, A>(r, t),
{
}

/// Applying a well-formed action keeps the record sound and matched with
/// the document, preserves the original snapshot, and leaves no pending
/// redo branch; the cursor advances by at most one.
pub proof fn lemma_record_apply_wf<T: View, A: Action<T>>(
    r: RecordView<A::V, T::V>,
    t: T::V,
    a: A::V,
)
    requires
        record_wf::<T, A>(r),
        record_matches::<T, A>(r, t),
        A::can_invert(a, t),
    ensures
        ({
            let (r1, t1) = record_apply::<T, A>(r, t, a);
            &&& record_wf::<T, A>(r1)
            &&& record_matches::<T, A>(r1, t1)
            &&& r1.snaps[0] == r.snaps[0]
            &&& r1.cursor == r1.entries.len()
            &&& r1.cursor <= r.cursor + 1
        }),
{
    let (a1, t1) = A::apply_view(a, t);
    A::lemma_apply_invert(a, t);
    let (r1, tr1) = record_apply::<T, A>(r, t, a);
    let c = r.cursor;
    let n = r.entries.len() as int;
    if c < n {
        assert forall|i: int| 0 <= i < r1.cursor implies applied_ok::<T, A>(
            #[trigger] r1.entries[i],
            r1.snaps[i],
            r1.snaps[i + 1],
        ) by {
            if i < c {
                assert(applied_ok::<T, A>(r.entries[i], r.snaps[i], r.snaps[i + 1]));
                assert(r1.entries[i] == r.entries[i]);
                assert(r1.snaps[i] == r.snaps[i] && r1.snaps[i + 1] == r.snaps[i + 1]);
            } else {
                assert(r1.snaps[i] == r.snaps[c] && r.snaps[c] == t);
            }
        }
    } else if n > 0 && r.saved != Some(c) {
        assert(applied_ok::<T, A>(r.entries[n - 1], r.snaps[n - 1], r.snaps[n]));
        assert(r.snaps[n] == t);
        A::lemma_merge_ok(r.entries[n - 1], r.snaps[n - 1], t, a1, t1);
        match A::merge_view(r.entries.last(), a1) {
            MergedView::Yes(m) => {
                assert forall|i: int| 0 <= i < r1.cursor implies applied_ok::<T, A>(
                    #[trigger] r1.entries[i],
                    r1.snaps[i],
                    r1.snaps[i + 1],
                ) by {
                    if i < n - 1 {
                        assert(applied_ok::<T, A>(r.entries[i], r.snaps[i], r.snaps[i + 1]));
                        assert(r1.entries[i] == r.entries[i]);
                        assert(r1.snaps[i] == r.snaps[i] && r1.snaps[i + 1] == r.snaps[i + 1]);
                    }
                }
            },
            MergedView::Annul => {
                assert(tr1 == r.snaps[n - 1]);
                assert forall|i: int| 0 <= i < r1.cursor implies applied_ok::<T, A>(
                    #[trigger] r1.entries[i],
                    r1.snaps[i],
                    r1.snaps[i + 1],
                ) by {
                    assert(applied_ok::<T, A>(r.entries[i], r.snaps[i], r.snaps[i + 1]));
                }
            },
            MergedView::No => {
                assert forall|i: int| 0 <= i < r1.cursor implies applied_ok::<T, A>(
                    #[trigger] r1.entries[i],
                    r1.snaps[i],
                    r1.snaps[i + 1],
                ) by {
                    if i < n {
                        assert(applied_ok::<T, A>(r.entries[i], r.snaps[i], r.snaps[i + 1]));
                    } else {
                        assert(r1.snaps[i] == t);
                    }
                }
            },
        }
    } else {
        assert(c == n);
        assert forall|i: int| 0 <= i < r1.cursor implies applied_ok::<T, A>(
            #[trigger] r1.entries[i],
            r1.snaps[i],
            r1.snaps[i + 1],
        ) by {
            if i < n {
                assert(applied_ok::<T, A>(r.entries[i], r.snaps[i], r.snaps[i + 1]));
            } else {
                assert(r1.snaps[i] == t);
            }
        }
    }
}

/// Undoing keeps the record sound and matched; the cursor steps back where
/// it can, the snapshots and the watermark stay, and the document returns
/// to the snapshot before the undone entry.
pub proof fn lemma_record_undo_wf<T: View, A: Action<T>>(r: RecordView<A::V, T::V>, t: T::V)
    requires
        record_wf::<T, A>(r),
        record_matches::<T, A>(r, t),
    ensures
        ({
            let (r1, t1) = record_undo::<T, A>(r, t);
            &&& record_wf::<T, A>(r1)
            &&& record_matches::<T, A>(r1, t1)
            &&& r1.snaps == r.snaps
            &&& r1.saved == r.saved
            &&& r1.cursor == if r.cursor > 0 { r.cursor - 1 } else { 0int }
            &&& (r.cursor > 0 ==> t1 == r.snaps[r.cursor - 1])
            &&& (r.cursor == 0 ==> t1 == t)
        }),
{
    let c = r.cursor;
    if c > 0 {
        let (r1, t1) = record_undo::<T, A>(r, t);
        assert(applied_ok::<T, A>(r.entries[c - 1], r.snaps[c - 1], r.snaps[c]));
        assert(r.snaps[c] == t);
        assert forall|i: int| 0 <= i < r1.cursor implies applied_ok::<T, A>(
            #[trigger] r1.entries[i],
            r1.snaps[i],
            r1.snaps[i + 1],
        ) by {
            assert(applied_ok::<T, A>(r.entries[i], r.snaps[i], r.snaps[i + 1]));
            assert(r1.entries[i] == r.entries[i]);
        }
        assert forall|i: int| r1.cursor <= i < r1.entries.len() implies ready_ok::<T, A>(
            #[trigger] r1.entries[i],
            r1.snaps[i],
            r1.snaps[i + 1],
        ) by {
            if i == c - 1 {
                assert(applied_ok::<T, A>(r.entries[i], r.snaps[i], r.snaps[i + 1]));
            } else {
                assert(ready_ok::<T, A>(r.entries[i], r.snaps[i], r.snaps[i + 1]));
                assert(r1.entries[i] == r.entries[i]);
            }
        }
    }
}

/// Redoing keeps the record sound and matched; the cursor advances where
/// it can, the snapshots and the watermark stay, and the document moves to
/// the snapshot after the redone entry.
pub proof fn lemma_record_redo_wf<T: View, A: Action<T>>(r: RecordView<A::V, T::V>, t: T::V)
    requires
        record_wf::<T, A>(r),
        record_matches::<T, A>(r, t),
    ensures
        ({
            let (r1, t1) = record_redo::<T, A>(r, t);
            &&& record_wf::<T, A>(r1)
            &&& record_matches::<T, A>(r1, t1)
            &&& r1.snaps == r.snaps
            &&& r1.saved == r.saved
            &&& r1.cursor == if r.cursor < r.entries.len() { r.cursor + 1 } else { r.cursor }
            &&& (r.cursor < r.entries.len() ==> t1 == r.snaps[r.cursor + 1])
            &&& (r.cursor >= r.entries.len() ==> t1 == t)
        }),
{
    let c = r.cursor;
    if c < r.entries.len() {
        let (r1, t1) = record_redo::<T, A>(r, t);
        assert(ready_ok::<T, A>(r.entries[c], r.snaps[c], r.snaps[c + 1]));
        assert(r.snaps[c] == t);
        assert forall|i: int| 0 <= i < r1.cursor implies applied_ok::<T, A>(
            #[trigger] r1.entries[i],
            r1.snaps[i],
            r1.snaps[i + 1],
        ) by {
            if i < c {
                assert(applied_ok::<T, A>(r.entries[i], r.snaps[i], r.snaps[i + 1]));
                assert(r1.entries[i] == r.entries[i]);
            }
        }
        assert forall|i: int| r1.cursor <= i < r1.entries.len() implies ready_ok::<T, A>(
            #[trigger] r1.entries[i],
            r1.snaps[i],
            r1.snaps[i + 1],
        ) by {
            assert(ready_ok::<T, A>(r.entries[i], r.snaps[i], r.snaps[i + 1]));
            assert(r1.entries[i] == r.entries[i]);
        }
    }
}

/// The record after a whole sequence of applies, in order.
pub open spec fn record_apply_seq<T: View, A: Action<T>>(
    r: RecordView<A::V, T::V>,
    t: T::V,
    actions: Seq<A::V>,
) -> (RecordView<A::V, T::V>, T::V)
    decreases actions.len(),
{
    if actions.len() == 0 {
        (r, t)
    } else {
        let (r1, t1) = record_apply::<T, A>(r, t, actions[0]);
        record_apply_seq::<T, A>(r1, t1, actions.skip(1))
    }
}

/// Each action of the sequence is well formed for the document state at
/// which its turn comes.
pub open spec fn seq_invertible<T: View, A: Action<T>>(t: T::V, actions: Seq<A::V>) -> bool
    decreases actions.len(),
{
    actions.len() == 0 || (A::can_invert(actions[0], t) && seq_invertible::<T, A>(
        A::apply_view(actions[0], t).1,
        actions.skip(1),
    ))
}

/// The record after undoing a number of times in a row.
pub open spec fn record_undo_n<T: View, A: Action<T>>(
    r: RecordView<A::V, T::V>,
    t: T::V,
    n: nat,
) -> (RecordView<A::V, T::V>, T::V)
    decreases n,
{
    if n == 0 {
        (r, t)
    } else {
        let (r1, t1) = record_undo::<T, A>(r, t);
        record_undo_n::<T, A>(r1, t1, (n - 1) as nat)
    }
}

/// A sequence of well-formed applies keeps the record sound and matched,
/// preserves the original snapshot, and advances the cursor by at most one
/// per action.
pub proof fn lemma_record_apply_seq_wf<T: View, A: Action<T>>(
    r: RecordView<A::V, T::V>,
    t: T::V,
    actions: Seq<A::V>,
)
    requires
        record_wf::<T, A>(r),
        record_matches::<T, A>(r, t),
        seq_invertible::<T, A>(t, actions),
    ensures
        ({
            let (r1, t1) = record_apply_seq::<T, A>(r, t, actions);
            &&& record_wf::<T, A>(r1)
            &&& record_matches::<T, A>(r1, t1)
            &&& r1.snaps[0] == r.snaps[0]
            &&& r1.cursor <= r.cursor + actions.len()
        }),
    decreases actions.len(),
{
    if actions.len() > 0 {
        lemma_record_apply_wf::<T, A>(r, t, actions[0]);
        let (r1, t1) = record_apply::<T, A>(r, t, actions[0]);
        lemma_record_apply_seq_wf::<T, A>(r1, t1, actions.skip(1));
    }
}

/// Undoing at least as many times as the cursor stands high rewinds the
/// document to the original snapshot and empties the past.
pub proof fn lemma_record_undo_n_rewinds<T: View, A: Action<T>>(
    r: RecordView<A::V, T::V>,
    t: T::V,
    n: nat,
)
    requires
        record_wf::<T, A>(r),
        record_matches::<T, A>(r, t),
        n >= r.cursor,
    ensures
        ({
            let (r2, t2) = record_undo_n::<T, A>(r, t, n);
            t2 == r.snaps[0] && r2.cursor == 0
        }),
    decreases n,
{
    if n == 0 {
        assert(r.cursor == 0);
    } else {
        lemma_record_undo_wf::<T, A>(r, t);
        let (r1, t1) = record_undo::<T, A>(r, t);
        lemma_record_undo_n_rewinds::<T, A>(r1, t1, (n - 1) as nat);
    }
}

/// Any run of applies followed by as many undos returns a document with a
/// fresh record to its original state, with nothing left to undo.
pub proof fn lemma_applies_then_undos<T: View, A: Action<T>>(
    r: RecordView<A::V, T::V>,
    t: T::V,
    actions: Seq<A::V>,
)
    requires
        record_wf::<T, A>(r),
        record_matches::<T, A>(r, t),
        r.entries.len() == 0,
        r.cursor == 0,
        seq_invertible::<T, A>(t, actions),
    ensures
        ({
            let (r1, t1) = record_apply_seq::<T, A>(r, t, actions);
            let (r2, t2) = record_undo_n::<T, A>(r1, t1, actions.len());
            t2 == t && r2.cursor == 0
        }),
{
    lemma_record_apply_seq_wf::<T, A>(r, t, actions);
    let (r1, t1) = record_apply_seq::<T, A>(r, t, actions);
    lemma_record_undo_n_rewinds::<T, A>(r1, t1, actions.len());
}

/// An apply that does not annul leaves the record unsaved: the watermark
/// never coincides with the cursor right after new work is logged.
pub proof fn lemma_apply_unsaved<T: View, A: Action<T>>(
    r: RecordView<A::V, T::V>,
    t: T::V,
    a: A::V,
)
    requires
        record_wf::<T, A>(r),
    ensures
        ({
            let r1 = record_apply::<T, A>(r, t, a).0;
            r1.cursor >= r.cursor ==> r1.saved != Some(r1.cursor)
        }),
{
}

/// Once the watermark is invalidated, no apply, undo or redo restores it;
/// only an explicit save can.
pub proof fn lemma_unsaved_persists<T: View, A: Action<T>>(
    r: RecordView<A::V, T::V>,
    t: T::V,
    a: A::V,
)
    requires
        r.saved is None,
    ensures
        record_apply::<T, A>(r, t, a).0.saved is None,
        record_undo::<T, A>(r, t).0.saved is None,
        record_redo::<T, A>(r, t).0.saved is None,
{
}

/// After any apply the redo branch is empty: an entry that was undone is
/// discarded by the next apply, never kept as a redo target.
pub proof fn lemma_apply_discards_redo<T: View, A: Action<T>>(
    r: RecordView<A::V, T::V>,
    t: T::V,
    a: A::V,
)
    requires
        record_wf::<T, A>(r),
    ensures
        ({
            let r1 = record_apply::<T, A>(r, t, a).0;
            r1.cursor == r1.entries.len()
        }),
{
}

/// A two-step gesture whose second step annuls the first leaves no trace:
/// the log, the cursor, the watermark and the document all stand as before
/// the gesture.
pub proof fn lemma_gesture_annulled<T: View, A: Action<T>>(
    r: RecordView<A::V, T::V>,
    t: T::V,
    a1: A::V,
    a2: A::V,
)
    requires
        record_wf::<T, A>(r),
        record_matches::<T, A>(r, t),
        r.cursor == r.entries.len(),
        A::can_invert(a1, t),
        ({
            let (b1, t1) = A::apply_view(a1, t);
            &&& (r.entries.len() == 0 || r.saved == Some(r.cursor) || A::merge_view(
                r.entries.last(),
                b1,
            ) is No)
            &&& A::can_invert(a2, t1)
            &&& A::merge_view(b1, A::apply_view(a2, t1).0) is Annul
        }),
    ensures
        ({
            let (r1, t1) = record_apply::<T, A>(r, t, a1);
            let (r2, t2) = record_apply::<T, A>(r1, t1, a2);
            &&& t2 == t
            &&& r2.entries == r.entries
            &&& r2.cursor == r.cursor
            &&& r2.saved == r.saved
            &&& r2.snaps == r.snaps
        }),
{
    lemma_record_apply_wf::<T, A>(r, t, a1);
    let (r1, t1) = record_apply::<T, A>(r, t, a1);
    assert(r1.entries =~= r.entries.push(A::apply_view(a1, t).0));
    lemma_record_apply_wf::<T, A>(r1, t1, a2);
    let (r2, t2) = record_apply::<T, A>(r1, t1, a2);
    assert(r2.entries =~= r.entries);
    assert(r2.snaps =~= r.snaps);
    assert(t2 == r2.snaps[r2.cursor]);
}

} // verus!

