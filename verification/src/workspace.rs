//! Workspace-level decisions.
//!
//! The surrounding application owns the dialogs and the file system; these
//! functions decide, from plain state, whether a destructive action (new
//! file, open, exit) may run, what an unsaved-changes answer means, and
//! where a save goes. The application performs the chosen step and feeds
//! the next event back in.

use vstd::prelude::*;

verus! {

/// The user's answer in the unsaved-changes dialog.
#[derive(Clone, Copy, PartialEq, Eq, Structural, Debug)]
pub enum DialogAnswer {
    Yes,
    No,
    Cancel,
}

/// The next step before a destructive action.
#[derive(Clone, Copy, PartialEq, Eq, Structural, Debug)]
pub enum UnsavedStep {
    /// Nothing worth protecting: run the action at once.
    Proceed,
    /// Changes would be lost: ask the user first.
    AskUser,
}

/// What to do once the unsaved-changes dialog is answered.
#[derive(Clone, Copy, PartialEq, Eq, Structural, Debug)]
pub enum UnsavedOutcome {
    /// Save; run the action only if the save succeeds.
    SaveThenProceed,
    /// Discard the changes and run the action.
    Proceed,
    /// Keep everything as it is.
    Stay,
}

/// A destructive action needs the user's leave exactly when there are
/// unsaved changes and the protection setting is on.
pub fn unsaved_changes_step(protection_enabled: bool, is_dirty: bool) -> (s: UnsavedStep)
    ensures
        s == (if protection_enabled && is_dirty {
            UnsavedStep::AskUser
        } else {
            UnsavedStep::Proceed
        }),
{
    if protection_enabled && is_dirty {
        UnsavedStep::AskUser
    } else {
        UnsavedStep::Proceed
    }
}

/// Yes saves first, No discards, Cancel keeps everything as it is.
pub fn unsaved_dialog_outcome(answer: DialogAnswer) -> (o: UnsavedOutcome)
    ensures
        answer is Yes <==> o is SaveThenProceed,
        answer is No <==> o is Proceed,
        answer is Cancel <==> o is Stay,
{
    match answer {
        DialogAnswer::Yes => UnsavedOutcome::SaveThenProceed,
        DialogAnswer::No => UnsavedOutcome::Proceed,
        DialogAnswer::Cancel => UnsavedOutcome::Stay,
    }
}

/// Where a save goes.
#[derive(Clone, Copy, PartialEq, Eq, Structural, Debug)]
pub enum SaveRoute {
    /// Write to the file already associated with the document.
    ToCurrentFile,
    /// No file yet: ask for a path first.
    AskForPath,
}

/// A document with a file saves in place; an untitled one asks for a path.
pub fn save_route(has_current_file: bool) -> (r: SaveRoute)
    ensures
        r == (if has_current_file {
            SaveRoute::ToCurrentFile
        } else {
            SaveRoute::AskForPath
        }),
{
    if has_current_file {
        SaveRoute::ToCurrentFile
    } else {
        SaveRoute::AskForPath
    }
}

} // verus!
