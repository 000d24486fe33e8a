//! Snapshot-based undo/redo stack with debounce and dirty-state derivation.
//!
//! The stack owns an ordered sequence of content snapshots plus two cursors
//! into that sequence: the current position and the last-saved position.
//! Pushing identical text never grows the stack; pushing new text discards
//! the stale redo branch; the dirty flag is derived from the two cursors.

use vstd::prelude::*;

verus! {

/// One recorded document state: the full text plus the selection offsets.
/// Both offsets are indices into `text`, counted in Unicode scalar values.
#[derive(Debug)]
pub struct Snapshot {
    pub text: String,
    pub cursor_anchor: usize,
    pub cursor_head: usize,
}

/// Mathematical value of a [`Snapshot`].
#[verifier::ext_equal]
pub struct SnapshotModel {
    pub text: Seq<char>,
    pub cursor_anchor: int,
    pub cursor_head: int,
}

/// Abbreviation for building a [`SnapshotModel`] in specifications.
pub open spec fn snap(text: Seq<char>, anchor: int, head: int) -> SnapshotModel {
    SnapshotModel { text, cursor_anchor: anchor, cursor_head: head }
}

impl View for Snapshot {
    type V = SnapshotModel;

    open spec fn view(&self) -> SnapshotModel {
        snap(self.text@, self.cursor_anchor as int, self.cursor_head as int)
    }
}

impl Clone for Snapshot {
    fn clone(&self) -> (r: Self)
        ensures
            r == *self,
    {
        Snapshot {
            text: self.text.clone(),
            cursor_anchor: self.cursor_anchor,
            cursor_head: self.cursor_head,
        }
    }
}

/// Mathematical value of a [`History`]: the snapshot sequence and the two
/// cursors into it.
#[verifier::ext_equal]
pub struct HistoryModel {
    pub snapshots: Seq<SnapshotModel>,
    pub current_index: int,
    pub saved_index: int,
}

impl HistoryModel {
    /// The stack is never empty, the current cursor stays strictly in
    /// bounds, and the saved cursor stays at most one past the end:
    /// `snapshots.len()` is the "nothing saved" sentinel that a push
    /// leaves behind when it discards the redo branch holding the saved
    /// entry. The sentinel can never equal the current cursor, so such a
    /// history stays dirty until the next `mark_saved`.
    pub open spec fn wf(self) -> bool {
        &&& 0 < self.snapshots.len()
        &&& 0 <= self.current_index < self.snapshots.len()
        &&& 0 <= self.saved_index <= self.snapshots.len()
    }

    /// The currently displayed snapshot.
    pub open spec fn current(self) -> SnapshotModel {
        self.snapshots[self.current_index]
    }

    /// Unsaved changes exist exactly when the current state is not the saved one.
    pub open spec fn dirty(self) -> bool {
        self.current_index != self.saved_index
    }

    pub open spec fn can_undo(self) -> bool {
        self.current_index > 0
    }

    pub open spec fn can_redo(self) -> bool {
        self.current_index < self.snapshots.len() - 1
    }

    /// State after `push(text, anchor, head)`: identical text only rewrites
    /// the cursors of the current entry; new text drops the redo branch,
    /// appends, and advances the current cursor. When the dropped branch
    /// held the saved entry, the saved cursor moves to the sentinel (the
    /// new stack length): that state is gone, so nothing on the stack is
    /// saved any more and the history stays dirty.
    pub open spec fn push_state(self, text: Seq<char>, anchor: int, head: int) -> HistoryModel {
        if self.current().text == text {
            HistoryModel {
                snapshots: self.snapshots.update(self.current_index, snap(text, anchor, head)),
                current_index: self.current_index,
                saved_index: self.saved_index,
            }
        } else {
            let snapshots = self.snapshots.take(self.current_index + 1).push(
                snap(text, anchor, head),
            );
            HistoryModel {
                snapshots,
                current_index: self.current_index + 1,
                saved_index: if self.saved_index > self.current_index {
                    snapshots.len() as int
                } else {
                    self.saved_index
                },
            }
        }
    }

    /// State after `undo()`: step the current cursor back, or stand still.
    pub open spec fn undo_state(self) -> HistoryModel {
        if self.can_undo() {
            HistoryModel {
                snapshots: self.snapshots,
                current_index: self.current_index - 1,
                saved_index: self.saved_index,
            }
        } else {
            self
        }
    }

    /// State after `redo()`: step the current cursor forward, or stand still.
    pub open spec fn redo_state(self) -> HistoryModel {
        if self.can_redo() {
            HistoryModel {
                snapshots: self.snapshots,
                current_index: self.current_index + 1,
                saved_index: self.saved_index,
            }
        } else {
            self
        }
    }

    /// State after `mark_saved()`.
    pub open spec fn mark_saved_state(self) -> HistoryModel {
        HistoryModel {
            snapshots: self.snapshots,
            current_index: self.current_index,
            saved_index: self.current_index,
        }
    }
}

/// The history a freshly constructed stack holds, and the one `clear(text)`
/// resets to: a single snapshot of `text` with both cursors at zero.
pub open spec fn cleared(text: Seq<char>) -> HistoryModel {
    HistoryModel { snapshots: seq![snap(text, 0, 0)], current_index: 0, saved_index: 0 }
}

impl HistoryModel {
    /// Iterated [`Self::undo_state`].
    pub open spec fn undo_n(self, n: nat) -> HistoryModel
        decreases n,
    {
        if n == 0 {
            self
        } else {
            self.undo_n((n - 1) as nat).undo_state()
        }
    }

    /// Iterated [`Self::redo_state`].
    pub open spec fn redo_n(self, n: nat) -> HistoryModel
        decreases n,
    {
        if n == 0 {
            self
        } else {
            self.redo_n((n - 1) as nat).redo_state()
        }
    }
}

/// A push leaves the history well formed, makes the pushed snapshot the
/// current one, and, when the text is new, leaves it at the very top of the
/// stack with the current cursor advanced by one. The saved cursor survives
/// unless the push dropped the saved entry with the redo branch; then it
/// becomes the sentinel.
pub proof fn lemma_push_well_formed(h: HistoryModel, text: Seq<char>, anchor: int, head: int)
    requires
        h.wf(),
    ensures
        h.push_state(text, anchor, head).wf(),
        h.push_state(text, anchor, head).current() == snap(text, anchor, head),
        h.current().text == text || h.saved_index <= h.current_index ==> h.push_state(
            text,
            anchor,
            head,
        ).saved_index == h.saved_index,
        h.current().text != text && h.saved_index > h.current_index ==> h.push_state(
            text,
            anchor,
            head,
        ).saved_index == h.push_state(text, anchor, head).snapshots.len(),
        h.current().text != text ==> {
            let p = h.push_state(text, anchor, head);
            &&& p.current_index == h.current_index + 1
            &&& p.current_index == p.snapshots.len() - 1
            &&& p.snapshots == h.snapshots.take(h.current_index + 1).push(snap(text, anchor, head))
        },
{
}

/// No growth on identical push: pushing the same text twice in a row leaves
/// the stack length and both cursors unchanged; only the top entry's cursor
/// fields take the second push's values.
pub proof fn lemma_push_identical_text(
    h: HistoryModel,
    text: Seq<char>,
    a1: int,
    h1: int,
    a2: int,
    h2: int,
)
    requires
        h.wf(),
    ensures
        ({
            let once = h.push_state(text, a1, h1);
            let twice = once.push_state(text, a2, h2);
            &&& twice.snapshots.len() == once.snapshots.len()
            &&& twice.current_index == once.current_index
            &&& twice.saved_index == once.saved_index
            &&& twice.current() == snap(text, a2, h2)
            &&& forall|i: int|
                0 <= i < once.snapshots.len() && i != once.current_index
                    ==> twice.snapshots[i] == once.snapshots[i]
        }),
{
    lemma_push_well_formed(h, text, a1, h1);
}

/// Redo invalidation: push `a`, push `b`, undo, push `c` (with `b` and `c`
/// both different from `a`). The undo made redo possible; the push of `c`
/// discarded the `b` branch, so redo is gone again.
pub proof fn lemma_push_invalidates_redo(
    h: HistoryModel,
    a: Seq<char>,
    b: Seq<char>,
    c: Seq<char>,
    anchor: int,
    head: int,
)
    requires
        h.wf(),
        b != a,
        c != a,
    ensures
        ({
            let after_undo = h.push_state(a, anchor, head).push_state(
                b,
                anchor,
                head,
            ).undo_state();
            &&& after_undo.can_redo()
            &&& !after_undo.push_state(c, anchor, head).can_redo()
        }),
{
    lemma_push_well_formed(h, a, anchor, head);
    let ha = h.push_state(a, anchor, head);
    lemma_push_well_formed(ha, b, anchor, head);
    let hb = ha.push_state(b, anchor, head);
    lemma_push_well_formed(hb.undo_state(), c, anchor, head);
}

/// Undo/redo round trip: from any well-formed history, undoing `n` times
/// (with `n` states below the current one) and redoing `n` times restores
/// the history exactly, and every intermediate state is visited in order:
/// the `i`-th undo displays the snapshot `i` steps below the start, the
/// `i`-th redo the snapshot `n - i` steps below it.
pub proof fn lemma_undo_redo_round_trip(h: HistoryModel, n: nat)
    requires
        h.wf(),
        n <= h.current_index,
    ensures
        h.undo_n(n).wf(),
        h.undo_n(n).snapshots == h.snapshots,
        h.undo_n(n).saved_index == h.saved_index,
        h.undo_n(n).current_index == h.current_index - n,
        h.undo_n(n).redo_n(n) == h,
        forall|i: nat|
            i <= n ==> #[trigger] h.undo_n(i).current() == h.snapshots[h.current_index - i],
        forall|i: nat|
            i <= n ==> #[trigger] h.undo_n(n).redo_n(i).current() == h.snapshots[h.current_index
                - n + i],
    decreases n,
{
    if n > 0 {
        lemma_undo_redo_round_trip(h, (n - 1) as nat);
        let down = h.undo_n(n);
        assert(down == h.undo_n((n - 1) as nat).undo_state());
        lemma_redo_n_unwinds(down, h, n);
    }
}

/// Redoing `n` times from `n` steps down climbs back one state per step.
proof fn lemma_redo_n_unwinds(down: HistoryModel, h: HistoryModel, n: nat)
    requires
        h.wf(),
        n <= h.current_index,
        down.snapshots == h.snapshots,
        down.saved_index == h.saved_index,
        down.current_index == h.current_index - n,
    ensures
        down.redo_n(n) == h,
        forall|i: nat|
            i <= n ==> #[trigger] down.redo_n(i).current() == h.snapshots[h.current_index - n
                + i],
    decreases n,
{
    if n > 0 {
        assert(down.redo_state().current_index == down.current_index + 1);
        lemma_redo_n_unwinds(down.redo_state(), h, (n - 1) as nat);
        assert forall|i: nat| i <= n implies #[trigger] down.redo_n(i).current()
            == h.snapshots[h.current_index - n + i] by {
            if i > 0 {
                lemma_redo_n_shift(down, (i - 1) as nat);
                assert(down.redo_state().redo_n((i - 1) as nat).current() == h.snapshots[
                    h.current_index - n + i]);
            }
        }
        lemma_redo_n_shift(down, (n - 1) as nat);
        assert(down.redo_n(n) == down.redo_state().redo_n((n - 1) as nat));
    } else {
        assert(down =~= h);
    }
}

/// Iterating redo commutes with taking one step first.
proof fn lemma_redo_n_shift(h: HistoryModel, n: nat)
    ensures
        h.redo_n(n + 1) == h.redo_state().redo_n(n),
    decreases n,
{
    if n > 0 {
        lemma_redo_n_shift(h, (n - 1) as nat);
        assert(h.redo_n(n + 1) == h.redo_n(((n + 1) - 1) as nat).redo_state());
        assert(h.redo_state().redo_n(n) == h.redo_state().redo_n((n - 1) as nat).redo_state());
    } else {
        assert(h.redo_n(1) == h.redo_n(0).redo_state());
    }
}

/// Each pushed snapshot's text differs from the text on top of the stack at
/// the moment of its push: the first from the history's current text, each
/// later one from its predecessor.
pub open spec fn distinct_chain(h: HistoryModel, entries: Seq<SnapshotModel>) -> bool {
    &&& (entries.len() > 0 ==> entries[0].text != h.current().text)
    &&& forall|i: int|
        1 <= i < entries.len() ==> #[trigger] entries[i].text != entries[i - 1].text
}

impl HistoryModel {
    /// Iterated [`Self::push_state`], one push per entry, in order.
    pub open spec fn push_all(self, entries: Seq<SnapshotModel>) -> HistoryModel
        decreases entries.len(),
    {
        if entries.len() == 0 {
            self
        } else {
            self.push_all(entries.drop_last()).push_state(
                entries.last().text,
                entries.last().cursor_anchor,
                entries.last().cursor_head,
            )
        }
    }
}

/// Pushing a chain of distinct texts appends them all: the redo branch above
/// the starting point is dropped once, every entry lands on the stack in
/// order, and the current cursor ends at the top.
pub proof fn lemma_push_all_distinct(h: HistoryModel, entries: Seq<SnapshotModel>)
    requires
        h.wf(),
        distinct_chain(h, entries),
        entries.len() > 0,
    ensures
        h.push_all(entries).wf(),
        h.push_all(entries).snapshots == h.snapshots.take(h.current_index + 1) + entries,
        h.push_all(entries).current_index == h.current_index + entries.len(),
        h.push_all(entries).current_index == h.push_all(entries).snapshots.len() - 1,
        h.saved_index <= h.current_index ==> h.push_all(entries).saved_index == h.saved_index,
        h.saved_index > h.current_index ==> h.push_all(entries).saved_index == h.push_all(
            entries,
        ).snapshots.len(),
    decreases entries.len(),
{
    let last = entries.last();
    if entries.len() == 1 {
        lemma_push_well_formed(h, last.text, last.cursor_anchor, last.cursor_head);
        assert(entries.drop_last().len() == 0);
        assert(h.push_all(entries.drop_last()) == h);
        assert(h.push_all(entries) == h.push_state(
            last.text,
            last.cursor_anchor,
            last.cursor_head,
        ));
        assert(last =~= snap(last.text, last.cursor_anchor, last.cursor_head));
        assert(h.push_all(entries).snapshots =~= h.snapshots.take(h.current_index + 1)
            + entries);
    } else {
        let prefix = entries.drop_last();
        assert(distinct_chain(h, prefix));
        lemma_push_all_distinct(h, prefix);
        let prev = h.push_all(prefix);
        assert(prev.current().text == prefix.last().text);
        assert(prefix.last().text == entries[entries.len() - 2].text);
        lemma_push_well_formed(prev, last.text, last.cursor_anchor, last.cursor_head);
        assert(last =~= snap(last.text, last.cursor_anchor, last.cursor_head));
        assert(prev.snapshots.take(prev.current_index + 1) =~= prev.snapshots);
        assert(h.push_all(entries).snapshots =~= h.snapshots.take(h.current_index + 1)
            + entries);
    }
}

/// Undo/redo round trip after a run of distinct pushes: undoing `k` times
/// then redoing `k` times restores the post-push history exactly, and the
/// intermediate states visit the pushed snapshots in reverse and then in
/// forward order.
pub proof fn lemma_distinct_pushes_round_trip(
    h: HistoryModel,
    entries: Seq<SnapshotModel>,
    k: nat,
)
    requires
        h.wf(),
        distinct_chain(h, entries),
        entries.len() > 0,
        k < entries.len(),
    ensures
        ({
            let after = h.push_all(entries);
            &&& after.undo_n(k).redo_n(k) == after
            &&& forall|i: nat|
                i <= k ==> #[trigger] after.undo_n(i).current() == entries[entries.len() - 1
                    - i]
            &&& forall|i: nat|
                i <= k ==> #[trigger] after.undo_n(k).redo_n(i).current() == entries[
                    entries.len() - 1 - k + i]
        }),
{
    lemma_push_all_distinct(h, entries);
    let after = h.push_all(entries);
    lemma_undo_redo_round_trip(after, k);
    assert forall|i: nat| i <= k implies #[trigger] after.undo_n(i).current() == entries[
        entries.len() - 1 - i] by {
        assert(after.undo_n(i).current() == after.snapshots[after.current_index - i]);
        assert(after.snapshots[after.current_index - i] == entries[entries.len() - 1 - i]);
    }
    assert forall|i: nat| i <= k implies #[trigger] after.undo_n(k).redo_n(i).current()
        == entries[entries.len() - 1 - k + i] by {
        assert(after.undo_n(k).redo_n(i).current() == after.snapshots[after.current_index - k
            + i]);
    }
}

/// Dirty derivation: a push that creates a new entry always leaves the
/// history dirty. The current cursor advances past any saved cursor that
/// survives, and when the saved entry sat in the dropped redo branch the
/// saved cursor becomes the sentinel, which no current cursor can reach.
pub proof fn lemma_push_new_text_dirty(h: HistoryModel, text: Seq<char>, anchor: int, head: int)
    requires
        h.wf(),
        h.current().text != text,
    ensures
        h.push_state(text, anchor, head).dirty(),
{
}

/// Clear resets fully: whatever was pushed or saved before, `clear` ends
/// in `cleared(text)` — well formed, clean, nothing to undo or redo, and
/// exactly one snapshot, of the given text with both cursors at zero.
pub proof fn lemma_clear_resets(text: Seq<char>)
    ensures
        cleared(text).wf(),
        !cleared(text).dirty(),
        !cleared(text).can_undo(),
        !cleared(text).can_redo(),
        cleared(text).snapshots.len() == 1,
        cleared(text).current() == snap(text, 0, 0),
{
}

/// Linear undo/redo stack of whole-content snapshots.
pub struct History {
    stack: Vec<Snapshot>,
    /// Index of the current state in the stack; `stack[current_index]` is
    /// the currently displayed state.
    pub current_index: usize,
    /// The index that matches the state last persisted to disk; one past
    /// the stack's end when no stacked state is saved.
    pub saved_index: usize,
}

impl View for History {
    type V = HistoryModel;

    closed spec fn view(&self) -> HistoryModel {
        HistoryModel {
            snapshots: self.stack@.map(|i: int, s: Snapshot| s@),
            current_index: self.current_index as int,
            saved_index: self.saved_index as int,
        }
    }
}

impl Default for History {
    fn default() -> (h: Self)
        ensures
            h@ == cleared(Seq::<char>::empty()),
            h@.wf(),
    {
        Self::new()
    }
}

impl History {
    /// A new history: one empty-document snapshot, both cursors at zero.
    pub fn new() -> (h: History)
        ensures
            h@ == cleared(Seq::<char>::empty()),
            h@.wf(),
    {
        let mut stack: Vec<Snapshot> = Vec::new();
        stack.push(Snapshot { text: String::new(), cursor_anchor: 0, cursor_head: 0 });
        let h = History { stack, current_index: 0, saved_index: 0 };
        proof {
            assert(h@.snapshots =~= cleared(Seq::<char>::empty()).snapshots);
            assert(h@ =~= cleared(Seq::<char>::empty()));
        }
        h
    }

    /// Reset with new content (e.g. on file load): the whole stack becomes a
    /// single snapshot of `text` and both cursors return to zero, so the
    /// result is clean and nothing is left to undo.
    pub fn clear(&mut self, text: String)
        ensures
            final(self)@ == cleared(text@),
            final(self)@.wf(),
    {
        let mut stack: Vec<Snapshot> = Vec::new();
        stack.push(Snapshot { text, cursor_anchor: 0, cursor_head: 0 });
        self.stack = stack;
        self.current_index = 0;
        self.saved_index = 0;
        proof {
            assert(self@.snapshots =~= cleared(self.stack@[0].text@).snapshots);
            assert(self@ =~= cleared(self.stack@[0].text@));
        }
    }

    /// Push a new state, invalidating the redo branch.
    ///
    /// If the text equals the current snapshot's text, no entry is created:
    /// only the cursors of the current entry are rewritten (the debounce
    /// policy). Otherwise every entry after the current one is discarded,
    /// the new snapshot is appended, and the current cursor advances.
    pub fn push(&mut self, text: String, anchor: usize, head: usize)
        requires
            old(self)@.wf(),
        ensures
            final(self)@ == old(self)@.push_state(text@, anchor as int, head as int),
            final(self)@.wf(),
    {
        let ghost target = old(self)@.push_state(text@, anchor as int, head as int);
        if self.stack[self.current_index].text == text {
            // Debounce / deduplicate: text unchanged, just update the cursor.
            let idx = self.current_index;
            self.stack[idx] = Snapshot { text, cursor_anchor: anchor, cursor_head: head };
            proof {
                assert(self@.snapshots =~= target.snapshots);
                assert(self@ =~= target);
            }
        } else {
            let drops_saved_entry = self.saved_index > self.current_index;
            // Truncate the redo branch.
            if self.current_index < self.stack.len() - 1 {
                self.stack.truncate(self.current_index + 1);
            }
            proof {
                assert(self.stack@ =~= old(self).stack@.take(self.current_index + 1));
            }
            self.stack.push(Snapshot { text, cursor_anchor: anchor, cursor_head: head });
            self.current_index = self.current_index + 1;
            if drops_saved_entry {
                // The saved entry went with the redo branch: nothing on the
                // stack is saved any more.
                self.saved_index = self.stack.len();
            }
            proof {
                assert(self@.snapshots =~= target.snapshots);
                assert(self@ =~= target);
            }
        }
    }

    /// Step back one state and return the snapshot now current, or `None`
    /// when already at the bottom. The stack contents are untouched: only
    /// the current cursor moves.
    pub fn undo(&mut self) -> (r: Option<Snapshot>)
        requires
            old(self)@.wf(),
        ensures
            final(self)@ == old(self)@.undo_state(),
            final(self)@.wf(),
            r is Some <==> old(self)@.can_undo(),
            r matches Some(s) ==> s@ == final(self)@.current(),
    {
        if self.current_index > 0 {
            self.current_index = self.current_index - 1;
            proof {
                assert(self@ =~= old(self)@.undo_state());
            }
            Some(self.stack[self.current_index].clone())
        } else {
            proof {
                assert(self@ =~= old(self)@.undo_state());
            }
            None
        }
    }

    /// Step forward one state and return the snapshot now current, or `None`
    /// when already at the top. The stack contents are untouched: only the
    /// current cursor moves.
    pub fn redo(&mut self) -> (r: Option<Snapshot>)
        requires
            old(self)@.wf(),
        ensures
            final(self)@ == old(self)@.redo_state(),
            final(self)@.wf(),
            r is Some <==> old(self)@.can_redo(),
            r matches Some(s) ==> s@ == final(self)@.current(),
    {
        if self.current_index < self.stack.len() - 1 {
            self.current_index = self.current_index + 1;
            proof {
                assert(self@ =~= old(self)@.redo_state());
            }
            Some(self.stack[self.current_index].clone())
        } else {
            proof {
                assert(self@ =~= old(self)@.redo_state());
            }
            None
        }
    }

    /// Mark the current state as saved.
    pub fn mark_saved(&mut self)
        ensures
            final(self)@ == old(self)@.mark_saved_state(),
            !final(self)@.dirty(),
    {
        self.saved_index = self.current_index;
        proof {
            assert(self@ =~= old(self)@.mark_saved_state());
        }
    }

    /// Number of snapshots on the stack.
    pub fn len(&self) -> (n: usize)
        ensures
            n == self@.snapshots.len(),
    {
        self.stack.len()
    }

    /// Whether the current state differs from the last saved one.
    pub fn is_dirty(&self) -> (d: bool)
        ensures
            d == self@.dirty(),
    {
        self.current_index != self.saved_index
    }
}

} // verus!
