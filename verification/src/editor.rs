//! The editor core: the decision logic that sits between a live text buffer
//! and the history stack.
//!
//! The surrounding UI owns the buffer and forwards every buffer-change
//! notification to [`EditorCore::handle_input_event`]; programmatic restores
//! (undo, redo, file open/close) raise a suppression flag first, so that the
//! buffer's own resulting notification is not re-recorded as a user edit.
//! The UI clears the flag via [`EditorCore::resume_input_events`] only after
//! the current notification cycle has settled (on the next frame), because
//! the buffer may deliver its notification asynchronously.

use vstd::prelude::*;
use crate::history::{cleared, History, HistoryModel, Snapshot};
use crate::position::{offset_to_position, spec_offset_to_position, Position};
use crate::text::{normalize_tabs, spec_normalize_tabs};
use crate::types::{spec_detect, Encoding, LineEnding};

verus! {

/// Mathematical value of an [`EditorCore`].
#[verifier::ext_equal]
pub struct CoreModel {
    pub history: HistoryModel,
    pub ignore_input_events: bool,
    pub is_dirty: bool,
    pub soft_wrap: bool,
    pub read_only: bool,
    pub show_status_bar: bool,
    pub line_ending: LineEnding,
    pub encoding: Encoding,
}

impl CoreModel {
    pub open spec fn wf(self) -> bool {
        self.history.wf()
    }

    /// State after one buffer-change notification carrying the buffer's
    /// current text and caret: recorded as a user edit unless suppressed.
    pub open spec fn handle_input_state(self, text: Seq<char>, cursor: int) -> CoreModel {
        if self.ignore_input_events {
            self
        } else {
            let history = self.history.push_state(text, cursor, cursor);
            CoreModel { history, is_dirty: history.dirty(), ..self }
        }
    }

    /// State after `undo`: when a state below exists, the current cursor
    /// steps back, input events are suppressed for the programmatic buffer
    /// write, and the dirty flag is re-derived.
    pub open spec fn undo_state(self) -> CoreModel {
        if self.history.can_undo() {
            let history = self.history.undo_state();
            CoreModel {
                history,
                ignore_input_events: true,
                is_dirty: history.dirty(),
                ..self
            }
        } else {
            self
        }
    }

    /// State after `redo`, the mirror image of [`Self::undo_state`].
    pub open spec fn redo_state(self) -> CoreModel {
        if self.history.can_redo() {
            let history = self.history.redo_state();
            CoreModel {
                history,
                ignore_input_events: true,
                is_dirty: history.dirty(),
                ..self
            }
        } else {
            self
        }
    }

    /// State after opening a file with the given (already normalized)
    /// content: history reset to that content, input events suppressed for
    /// the programmatic buffer write, line ending re-detected.
    pub open spec fn open_file_state(self, normalized: Seq<char>) -> CoreModel {
        CoreModel {
            history: cleared(normalized),
            ignore_input_events: true,
            is_dirty: false,
            line_ending: spec_detect(normalized),
            encoding: Encoding::Utf8,
            ..self
        }
    }

    /// State after closing the file: like opening an empty document, with
    /// the default line ending.
    pub open spec fn close_file_state(self) -> CoreModel {
        CoreModel {
            history: cleared(Seq::<char>::empty()),
            ignore_input_events: true,
            is_dirty: false,
            line_ending: LineEnding::Lf,
            encoding: Encoding::Utf8,
            ..self
        }
    }

    /// State after the deferred end of a programmatic restore: notifications
    /// are taken as user edits again.
    pub open spec fn resume_state(self) -> CoreModel {
        CoreModel { ignore_input_events: false, ..self }
    }

    /// State after the current state was persisted to disk.
    pub open spec fn mark_clean_state(self) -> CoreModel {
        CoreModel { history: self.history.mark_saved_state(), is_dirty: false, ..self }
    }

    /// States after a run of buffer-change notifications, `events[k..]`
    /// applied in order, each a (text, caret) pair.
    pub open spec fn handle_events_from(self, events: Seq<(Seq<char>, int)>, k: int) -> CoreModel
        decreases events.len() - k,
    {
        if k < 0 || k >= events.len() {
            self
        } else {
            self.handle_input_state(events[k].0, events[k].1).handle_events_from(events, k + 1)
        }
    }

    /// State after a run of buffer-change notifications.
    pub open spec fn handle_events(self, events: Seq<(Seq<char>, int)>) -> CoreModel {
        self.handle_events_from(events, 0)
    }
}

/// While input events are suppressed, any run of buffer-change
/// notifications leaves the whole core state untouched.
pub proof fn lemma_suppressed_events_no_op(m: CoreModel, events: Seq<(Seq<char>, int)>)
    requires
        m.ignore_input_events,
    ensures
        m.handle_events(events) == m,
{
    lemma_suppressed_events_no_op_from(m, events, 0);
}

proof fn lemma_suppressed_events_no_op_from(m: CoreModel, events: Seq<(Seq<char>, int)>, k: int)
    requires
        m.ignore_input_events,
    ensures
        m.handle_events_from(events, k) == m,
    decreases events.len() - k,
{
    if 0 <= k < events.len() {
        assert(m.handle_input_state(events[k].0, events[k].1) == m);
        lemma_suppressed_events_no_op_from(m, events, k + 1);
    }
}

/// Suppression correctness for undo: when undo restores a snapshot, the
/// buffer notifications that the restore itself triggers change nothing —
/// afterwards the history is exactly what the undo set, with the same
/// stack and the current cursor one step down.
pub proof fn lemma_undo_suppresses_notifications(m: CoreModel, events: Seq<(Seq<char>, int)>)
    requires
        m.history.can_undo(),
    ensures
        m.undo_state().ignore_input_events,
        m.undo_state().handle_events(events) == m.undo_state(),
        m.undo_state().history.snapshots == m.history.snapshots,
        m.undo_state().history.current_index == m.history.current_index - 1,
{
    lemma_suppressed_events_no_op(m.undo_state(), events);
}

/// Suppression correctness for redo, the mirror image of
/// [`lemma_undo_suppresses_notifications`].
pub proof fn lemma_redo_suppresses_notifications(m: CoreModel, events: Seq<(Seq<char>, int)>)
    requires
        m.history.can_redo(),
    ensures
        m.redo_state().ignore_input_events,
        m.redo_state().handle_events(events) == m.redo_state(),
        m.redo_state().history.snapshots == m.history.snapshots,
        m.redo_state().history.current_index == m.history.current_index + 1,
{
    lemma_suppressed_events_no_op(m.redo_state(), events);
}

/// Suppression correctness for file open and close: the programmatic
/// buffer write's own notifications leave the freshly reset history alone.
pub proof fn lemma_open_close_suppress_notifications(
    m: CoreModel,
    normalized: Seq<char>,
    events: Seq<(Seq<char>, int)>,
)
    ensures
        m.open_file_state(normalized).handle_events(events) == m.open_file_state(normalized),
        m.close_file_state().handle_events(events) == m.close_file_state(),
{
    lemma_suppressed_events_no_op(m.open_file_state(normalized), events);
    lemma_suppressed_events_no_op(m.close_file_state(), events);
}

/// The text and caret position a restored snapshot asks the UI to write
/// back into the buffer.
pub struct Restore {
    pub text: String,
    pub position: Position,
}

/// Decision core of the text editor: the history stack, the suppression
/// flag, and the derived display state. Everything the UI cannot decide by
/// itself goes through here; the UI only performs the returned actions.
pub struct EditorCore {
    history: History,
    /// Whether to ignore input events (e.g. during file load).
    ignore_input_events: bool,
    /// Whether the content has unsaved changes.
    pub is_dirty: bool,
    /// Whether soft wrap is enabled.
    pub soft_wrap: bool,
    /// Whether the content allows edits.
    pub read_only: bool,
    /// Whether the status bar is visible.
    pub show_status_bar: bool,
    line_ending: LineEnding,
    encoding: Encoding,
}

impl View for EditorCore {
    type V = CoreModel;

    closed spec fn view(&self) -> CoreModel {
        CoreModel {
            history: self.history@,
            ignore_input_events: self.ignore_input_events,
            is_dirty: self.is_dirty,
            soft_wrap: self.soft_wrap,
            read_only: self.read_only,
            show_status_bar: self.show_status_bar,
            line_ending: self.line_ending,
            encoding: self.encoding,
        }
    }
}

/// The state a fresh editor core starts in.
pub open spec fn initial_core() -> CoreModel {
    CoreModel {
        history: cleared(Seq::<char>::empty()),
        ignore_input_events: false,
        is_dirty: false,
        soft_wrap: true,
        read_only: false,
        show_status_bar: true,
        line_ending: LineEnding::Lf,
        encoding: Encoding::Utf8,
    }
}

impl EditorCore {
    pub fn new() -> (c: EditorCore)
        ensures
            c@ == initial_core(),
            c@.wf(),
    {
        let c = EditorCore {
            history: History::new(),
            ignore_input_events: false,
            is_dirty: false,
            soft_wrap: true,
            read_only: false,
            show_status_bar: true,
            line_ending: LineEnding::Lf,
            encoding: Encoding::Utf8,
        };
        proof {
            assert(c@ =~= initial_core());
        }
        c
    }

    /// The history stack, for inspection.
    pub fn history(&self) -> (h: &History)
        ensures
            h@ == self@.history,
    {
        &self.history
    }

    /// Whether buffer-change notifications are currently suppressed.
    pub fn input_events_suppressed(&self) -> (b: bool)
        ensures
            b == self@.ignore_input_events,
    {
        self.ignore_input_events
    }

    /// One buffer-change notification: unless suppressed, record the
    /// buffer's current text and caret in history and re-derive the dirty
    /// flag. Returns whether the dirty flag changed (the UI refreshes then).
    pub fn handle_input_event(&mut self, text: String, cursor: usize) -> (changed: bool)
        requires
            old(self)@.wf(),
        ensures
            final(self)@ == old(self)@.handle_input_state(text@, cursor as int),
            final(self)@.wf(),
            changed == (old(self)@.is_dirty != final(self)@.is_dirty),
    {
        if self.ignore_input_events {
            proof {
                assert(self@ =~= old(self)@.handle_input_state(text@, cursor as int));
            }
            false
        } else {
            self.history.push(text, cursor, cursor);
            let changed = self.update_dirty_state();
            proof {
                assert(self@ =~= old(self)@.handle_input_state(text@, cursor as int));
            }
            changed
        }
    }

    /// Step history back one state. When a snapshot is restored, input
    /// events are suppressed and the returned action carries the text to
    /// write into the buffer together with the caret position derived from
    /// the snapshot's cursor head.
    pub fn undo(&mut self) -> (r: Option<Restore>)
        requires
            old(self)@.wf(),
        ensures
            final(self)@ == old(self)@.undo_state(),
            final(self)@.wf(),
            r is Some <==> old(self)@.history.can_undo(),
            r matches Some(a) ==> {
                &&& a.text@ == final(self)@.history.current().text
                &&& (a.position.line as nat, a.position.character as nat)
                    == spec_offset_to_position(
                    a.text@,
                    final(self)@.history.current().cursor_head,
                )
            },
    {
        match self.history.undo() {
            Some(snapshot) => {
                self.ignore_input_events = true;
                let position = offset_to_position(snapshot.text.as_str(), snapshot.cursor_head);
                self.update_dirty_state();
                proof {
                    assert(self@ =~= old(self)@.undo_state());
                }
                Some(Restore { text: snapshot.text, position })
            },
            None => {
                proof {
                    assert(self@ =~= old(self)@.undo_state());
                }
                None
            },
        }
    }

    /// Step history forward one state, the mirror image of [`Self::undo`].
    pub fn redo(&mut self) -> (r: Option<Restore>)
        requires
            old(self)@.wf(),
        ensures
            final(self)@ == old(self)@.redo_state(),
            final(self)@.wf(),
            r is Some <==> old(self)@.history.can_redo(),
            r matches Some(a) ==> {
                &&& a.text@ == final(self)@.history.current().text
                &&& (a.position.line as nat, a.position.character as nat)
                    == spec_offset_to_position(
                    a.text@,
                    final(self)@.history.current().cursor_head,
                )
            },
    {
        match self.history.redo() {
            Some(snapshot) => {
                self.ignore_input_events = true;
                let position = offset_to_position(snapshot.text.as_str(), snapshot.cursor_head);
                self.update_dirty_state();
                proof {
                    assert(self@ =~= old(self)@.redo_state());
                }
                Some(Restore { text: snapshot.text, position })
            },
            None => {
                proof {
                    assert(self@ =~= old(self)@.redo_state());
                }
                None
            },
        }
    }

    /// Open a file: normalize tabs in the content, reset history to it,
    /// suppress the notification that the buffer write will trigger, and
    /// re-detect the line ending style. Returns the normalized content for
    /// the UI to write into the buffer.
    pub fn open_file(&mut self, content: String) -> (buffer: String)
        ensures
            buffer@ == spec_normalize_tabs(content@),
            final(self)@ == old(self)@.open_file_state(buffer@),
            final(self)@.wf(),
    {
        let normalized = normalize_tabs(content.as_str());
        let for_buffer = normalized.clone();
        self.ignore_input_events = true;
        self.line_ending = LineEnding::detect(normalized.as_str());
        self.encoding = Encoding::Utf8;
        self.history.clear(normalized);
        self.is_dirty = self.history.is_dirty();
        proof {
            assert(self@ =~= old(self)@.open_file_state(for_buffer@));
        }
        for_buffer
    }

    /// Close the file: reset history to an empty document and suppress the
    /// notification that clearing the buffer will trigger. The UI writes an
    /// empty string into the buffer.
    pub fn close_file(&mut self)
        ensures
            final(self)@ == old(self)@.close_file_state(),
            final(self)@.wf(),
    {
        self.ignore_input_events = true;
        self.line_ending = LineEnding::Lf;
        self.encoding = Encoding::Utf8;
        self.history.clear(String::new());
        self.is_dirty = self.history.is_dirty();
        proof {
            assert(self@ =~= old(self)@.close_file_state());
        }
    }

    /// The deferred end of a programmatic restore: called on the next frame,
    /// after any notification the restore triggered has been swallowed.
    pub fn resume_input_events(&mut self)
        ensures
            final(self)@ == old(self)@.resume_state(),
    {
        self.ignore_input_events = false;
        proof {
            assert(self@ =~= old(self)@.resume_state());
        }
    }

    /// Mark as saved (clears the dirty flag).
    pub fn mark_clean(&mut self)
        ensures
            final(self)@ == old(self)@.mark_clean_state(),
            !final(self)@.is_dirty,
    {
        self.history.mark_saved();
        self.is_dirty = false;
        proof {
            assert(self@ =~= old(self)@.mark_clean_state());
        }
    }

    /// Flip soft wrap and return the new setting for the UI to apply.
    pub fn toggle_soft_wrap(&mut self) -> (on: bool)
        ensures
            final(self)@ == (CoreModel { soft_wrap: !old(self)@.soft_wrap, ..old(self)@ }),
            on == final(self)@.soft_wrap,
    {
        self.soft_wrap = !self.soft_wrap;
        proof {
            assert(self@ =~= (CoreModel { soft_wrap: !old(self)@.soft_wrap, ..old(self)@ }));
        }
        self.soft_wrap
    }

    /// Flip the status bar visibility.
    pub fn toggle_status_bar(&mut self)
        ensures
            final(self)@ == (CoreModel {
                show_status_bar: !old(self)@.show_status_bar,
                ..old(self)@
            }),
    {
        self.show_status_bar = !self.show_status_bar;
        proof {
            assert(self@ =~= (CoreModel {
                show_status_bar: !old(self)@.show_status_bar,
                ..old(self)@
            }));
        }
    }

    /// The detected line ending style of the open document.
    pub fn line_ending(&self) -> (e: LineEnding)
        ensures
            e == self@.line_ending,
    {
        self.line_ending
    }

    /// The encoding of the open document.
    pub fn encoding(&self) -> (e: Encoding)
        ensures
            e == self@.encoding,
    {
        self.encoding
    }

    /// Re-derive the dirty flag from history; report whether it changed.
    fn update_dirty_state(&mut self) -> (changed: bool)
        ensures
            final(self)@ == (CoreModel {
                is_dirty: old(self)@.history.dirty(),
                ..old(self)@
            }),
            changed == (old(self)@.is_dirty != final(self)@.is_dirty),
    {
        let dirty = self.history.is_dirty();
        let changed = self.is_dirty != dirty;
        self.is_dirty = dirty;
        proof {
            assert(self@ =~= (CoreModel { is_dirty: old(self)@.history.dirty(), ..old(self)@ }));
        }
        changed
    }
}

} // verus!
