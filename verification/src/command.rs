//! The requests the user interface can make.

use vstd::prelude::*;
use crate::action::WindowAction;
use crate::sizing::{set_window_size, setup_actions, size_for_setup, SizingStep};

verus! {

/// What happens when the user interface first loads: the bare setup panel is
/// sized, then the window gets its shadow, is kept above other windows and is
/// centred.
pub open spec fn start_actions() -> Seq<WindowAction> {
    setup_actions(false, false) + seq![
        WindowAction::Shadow { enabled: true },
        WindowAction::AlwaysOnTop { enabled: true },
        WindowAction::Center,
    ]
}

/// What happens when a study session ends: the window is centred.
pub open spec fn study_ended_actions() -> Seq<WindowAction> {
    seq![WindowAction::Center]
}

/// Handles the first load of the user interface.
pub fn on_start() -> (actions: Vec<WindowAction>)
    ensures
        actions@ == start_actions(),
{
    let mut actions: Vec<WindowAction> = size_for_setup(false, false);
    actions.push(WindowAction::Shadow { enabled: true });
    actions.push(WindowAction::AlwaysOnTop { enabled: true });
    actions.push(WindowAction::Center);
    assert(actions@ =~= start_actions());
    actions
}

/// Handles a change of the flags shown by the user interface.
pub fn window_state_change(studying: bool, list: bool, programmes: bool) -> (step: SizingStep)
    ensures
        step.answers(studying, list, programmes),
{
    set_window_size(studying, list, programmes)
}

/// Handles the end of a study session.
pub fn study_ended() -> (actions: Vec<WindowAction>)
    ensures
        actions@ == study_ended_actions(),
{
    let mut actions: Vec<WindowAction> = Vec::new();
    actions.push(WindowAction::Center);
    assert(actions@ =~= study_ended_actions());
    actions
}

} // verus!
