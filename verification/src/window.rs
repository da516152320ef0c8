//! What closing the main window does, and how the close dialog's answer is
//! applied.

use crate::config::CloseBehavior;
use vstd::prelude::*;

verus! {

/// What the application does with a close request.
#[derive(Debug, Clone, Copy, PartialEq, Eq, Structural)]
pub enum CloseAction {
    /// Quit the application.
    Exit,
    /// Keep running and hide the window to the tray.
    HideToTray,
    /// Keep the window and ask the user which of the two they want.
    AskUser,
}

/// The action for a close request under `behavior`.
pub open spec fn spec_close_action(behavior: CloseBehavior) -> CloseAction {
    match behavior {
        CloseBehavior::Quit => CloseAction::Exit,
        CloseBehavior::Tray => CloseAction::HideToTray,
        CloseBehavior::Ask => CloseAction::AskUser,
    }
}

/// Follows the saved preference when the window is asked to close.
pub fn close_action(behavior: CloseBehavior) -> (r: CloseAction)
    ensures
        r == spec_close_action(behavior),
{
    match behavior {
        CloseBehavior::Quit => CloseAction::Exit,
        CloseBehavior::Tray => CloseAction::HideToTray,
        CloseBehavior::Ask => CloseAction::AskUser,
    }
}

/// The answer to the close dialog: what to do now, and the behavior to
/// store (and save) when the user asked to remember the choice.
#[derive(Debug, Clone, Copy, PartialEq, Eq, Structural)]
pub struct CloseResolution {
    pub remember_as: Option<CloseBehavior>,
    pub action: CloseAction,
}

/// Resolves the close dialog: quit or hide to the tray, optionally
/// remembering that choice as the new close behavior.
pub fn resolve_close(quit: bool, remember: bool) -> (r: CloseResolution)
    ensures
        r.action == (if quit {
            CloseAction::Exit
        } else {
            CloseAction::HideToTray
        }),
        r.remember_as == (if !remember {
            None
        } else if quit {
            Some(CloseBehavior::Quit)
        } else {
            Some(CloseBehavior::Tray)
        }),
{
    let remember_as = if remember {
        if quit {
            Some(CloseBehavior::Quit)
        } else {
            Some(CloseBehavior::Tray)
        }
    } else {
        None
    };
    let action = if quit {
        CloseAction::Exit
    } else {
        CloseAction::HideToTray
    };
    CloseResolution { remember_as, action }
}

/// A remembered answer is honoured: the next close request does what the
/// user chose, without asking again.
pub proof fn law_remembered_choice_is_repeated(quit: bool, b: CloseBehavior)
    requires
        b == (if quit {
            CloseBehavior::Quit
        } else {
            CloseBehavior::Tray
        }),
    ensures
        spec_close_action(b) == (if quit {
            CloseAction::Exit
        } else {
            CloseAction::HideToTray
        }),
        spec_close_action(b) != CloseAction::AskUser,
{
}

} // verus!
