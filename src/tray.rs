//! Decisions of the system tray menu: what a menu entry does, and how the
//! window toggle entry is labelled.

use vstd::prelude::*;
use crate::json::str_eq;

verus! {

/// What the shell does for a tray menu entry.
#[derive(Debug, Clone, Copy, PartialEq, Eq)]
pub enum TrayAction {
    /// Flush the store and exit.
    Quit,
    /// Hide the main window when it is shown, show it otherwise, then refresh
    /// the menu.
    ToggleWindow,
    /// An entry this menu does not handle.
    Ignore,
}

/// The action of the tray menu entry `id`: `quit` quits, `hide` toggles the
/// main window, any other entry is ignored.
pub fn on_tray_menu_event(id: &str) -> (r: TrayAction)
    ensures
        id@ == "quit"@ ==> r == TrayAction::Quit,
        id@ == "hide"@ ==> r == TrayAction::ToggleWindow,
        id@ != "quit"@ && id@ != "hide"@ ==> r == TrayAction::Ignore,
{
    proof {
        reveal_strlit("quit");
        reveal_strlit("hide");
        assert("quit"@[0] != "hide"@[0]);
    }
    if str_eq(id, "quit") {
        TrayAction::Quit
    } else if str_eq(id, "hide") {
        TrayAction::ToggleWindow
    } else {
        TrayAction::Ignore
    }
}

/// The label of the window toggle entry: it offers the opposite of the
/// window's current visibility.
pub fn toggle_label(window_visible: bool) -> (r: &'static str)
    ensures
        window_visible ==> r@ == "Hide launcher"@,
        !window_visible ==> r@ == "Show launcher"@,
{
    if window_visible {
        "Hide launcher"
    } else {
        "Show launcher"
    }
}

} // verus!
