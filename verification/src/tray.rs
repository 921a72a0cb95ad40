//! Tray menu contents and event dispatch.
//!
//! The tray carries exactly four fixed items; a menu-selection event is
//! dispatched by its stable identifier, and an unknown identifier is
//! ignored rather than ever crashing the process.

use vstd::prelude::*;
use crate::text::str_eq;

verus! {

/// What a tray menu selection asks the shell to do.
#[derive(Clone, Copy, PartialEq, Eq, Structural, Debug)]
pub enum TrayAction {
    /// Reveal the main window.
    Reveal,
    /// Reveal the main window, then signal its UI to open the settings view.
    RevealSettings,
    /// Reveal the main window, then signal its UI to open the update checker.
    RevealUpdateChecker,
    /// Terminate the process gracefully.
    Quit,
    /// Unrecognised identifier: log and carry on.
    Ignore,
}

/// The action owed for a menu identifier.
pub open spec fn tray_action_of(id: Seq<char>) -> TrayAction {
    if id == "show"@ {
        TrayAction::Reveal
    } else if id == "settings"@ {
        TrayAction::RevealSettings
    } else if id == "check_updates"@ {
        TrayAction::RevealUpdateChecker
    } else if id == "quit"@ {
        TrayAction::Quit
    } else {
        TrayAction::Ignore
    }
}

/// Dispatch one tray menu event by its identifier.
pub fn dispatch_tray_event(id: &str) -> (a: TrayAction)
    ensures
        a == tray_action_of(id@),
{
    if str_eq(id, "show") {
        TrayAction::Reveal
    } else if str_eq(id, "settings") {
        TrayAction::RevealSettings
    } else if str_eq(id, "check_updates") {
        TrayAction::RevealUpdateChecker
    } else if str_eq(id, "quit") {
        TrayAction::Quit
    } else {
        TrayAction::Ignore
    }
}

/// The four menu entries, each as (stable identifier, visible label), in
/// the order they appear in the menu.
pub fn tray_menu_entries() -> (v: Vec<(&'static str, &'static str)>)
    ensures
        v@.len() == 4,
        v@[0].0@ == "show"@ && v@[0].1@ == "Show HammerOverlay"@,
        v@[1].0@ == "settings"@ && v@[1].1@ == "Settings"@,
        v@[2].0@ == "check_updates"@ && v@[2].1@ == "Check for Updates"@,
        v@[3].0@ == "quit"@ && v@[3].1@ == "Quit"@,
        tray_action_of(v@[0].0@) == TrayAction::Reveal,
        tray_action_of(v@[1].0@) == TrayAction::RevealSettings,
        tray_action_of(v@[2].0@) == TrayAction::RevealUpdateChecker,
        tray_action_of(v@[3].0@) == TrayAction::Quit,
{
    let mut v: Vec<(&'static str, &'static str)> = Vec::new();
    v.push(("show", "Show HammerOverlay"));
    v.push(("settings", "Settings"));
    v.push(("check_updates", "Check for Updates"));
    v.push(("quit", "Quit"));
    proof {
        reveal_strlit("show");
        reveal_strlit("settings");
        reveal_strlit("check_updates");
        reveal_strlit("quit");
        assert("show"@.len() == 4);
        assert("settings"@.len() == 8);
        assert("check_updates"@.len() == 13);
        assert("quit"@.len() == 4);
        assert("show"@[0] == 's');
        assert("quit"@[0] == 'q');
    }
    v
}

} // verus!
