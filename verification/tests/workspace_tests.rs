use onetext::workspace::{
    save_route, unsaved_changes_step, unsaved_dialog_outcome, DialogAnswer, SaveRoute,
    UnsavedOutcome, UnsavedStep,
};

#[test]
fn test_unsaved_changes_step_asks_only_when_dirty_and_protected() {
    assert_eq!(unsaved_changes_step(true, true), UnsavedStep::AskUser);
    assert_eq!(unsaved_changes_step(true, false), UnsavedStep::Proceed);
    assert_eq!(unsaved_changes_step(false, true), UnsavedStep::Proceed);
    assert_eq!(unsaved_changes_step(false, false), UnsavedStep::Proceed);
}

#[test]
fn test_unsaved_dialog_outcomes() {
    assert_eq!(
        unsaved_dialog_outcome(DialogAnswer::Yes),
        UnsavedOutcome::SaveThenProceed
    );
    assert_eq!(unsaved_dialog_outcome(DialogAnswer::No), UnsavedOutcome::Proceed);
    assert_eq!(unsaved_dialog_outcome(DialogAnswer::Cancel), UnsavedOutcome::Stay);
}

#[test]
fn test_save_route() {
    assert_eq!(save_route(true), SaveRoute::ToCurrentFile);
    assert_eq!(save_route(false), SaveRoute::AskForPath);
}
