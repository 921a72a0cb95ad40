use hammer_overlay::combo::{check_combo, parse_combo, ComboError, KeyCombo};
use hammer_overlay::guard::{
    already_running_exit_code, decide_startup, graceful_exit_code, LockProbe, StartupDecision,
};
use hammer_overlay::stats::{get_format_stats, increment_format_usage, init_stats_db, FormatStats};
use hammer_overlay::tray::{dispatch_tray_event, tray_menu_entries, TrayAction};
use hammer_overlay::updater::{
    check_outcome, install_report, plan_install, InstallPlan, UpdateProbe,
};
use hammer_overlay::window::{WindowResource, WindowState};

#[test]
fn tray_dispatch_by_identifier() {
    assert_eq!(dispatch_tray_event("show"), TrayAction::Reveal);
    assert_eq!(dispatch_tray_event("settings"), TrayAction::RevealSettings);
    assert_eq!(dispatch_tray_event("check_updates"), TrayAction::RevealUpdateChecker);
    assert_eq!(dispatch_tray_event("quit"), TrayAction::Quit);
}

#[test]
fn unknown_tray_event_is_ignored() {
    assert_eq!(dispatch_tray_event("restart"), TrayAction::Ignore);
    assert_eq!(dispatch_tray_event(""), TrayAction::Ignore);
    assert_eq!(dispatch_tray_event("SHOW"), TrayAction::Ignore);
}

#[test]
fn tray_menu_has_the_four_fixed_items() {
    let entries = tray_menu_entries();
    assert_eq!(
        entries,
        vec![
            ("show", "Show HammerOverlay"),
            ("settings", "Settings"),
            ("check_updates", "Check for Updates"),
            ("quit", "Quit"),
        ]
    );
}

#[test]
fn reveal_is_idempotent() {
    let w = WindowState::startup();
    let once = w.present();
    let twice = w.present().present();
    assert_eq!(once, twice);
    assert!(once.visible && once.focused && once.always_on_top && once.centered);
}

#[test]
fn hide_withdraws_without_reset() {
    let w = WindowState::startup().present().withdraw();
    assert!(!w.visible && !w.focused);
    // The rest of the presentation survives a hide.
    assert!(w.always_on_top && w.centered);
}

#[test]
fn close_tears_down_while_hide_does_not() {
    let open = WindowResource::Open(WindowState::startup().present());
    let hidden = open.withdraw();
    match hidden {
        WindowResource::Open(w) => assert!(!w.visible),
        WindowResource::Closed => panic!("hide must keep the window resource"),
    }
    assert_eq!(hidden.close(), WindowResource::Closed);
    // A closed window stays closed under the presenter actions.
    assert_eq!(WindowResource::Closed.withdraw(), WindowResource::Closed);
}

#[test]
fn window_starts_hidden() {
    let w = WindowState::startup();
    assert!(!w.visible && !w.focused);
}

#[test]
fn second_instance_exits_with_one() {
    assert_eq!(
        decide_startup(LockProbe::HeldElsewhere),
        StartupDecision::ExitAlreadyRunning
    );
    assert_eq!(already_running_exit_code(), 1);
}

#[test]
fn first_instance_proceeds() {
    assert_eq!(decide_startup(LockProbe::Acquired), StartupDecision::Proceed);
    assert_eq!(graceful_exit_code(), 0);
}

#[test]
fn lock_failure_is_fatal() {
    assert_eq!(
        decide_startup(LockProbe::ProbeFailed),
        StartupDecision::AbortLockFailure
    );
}

#[test]
fn update_check_answers() {
    assert_eq!(check_outcome(&UpdateProbe::Available), Ok(true));
    assert_eq!(check_outcome(&UpdateProbe::UpToDate), Ok(false));
    assert_eq!(
        check_outcome(&UpdateProbe::CheckFailed(String::from("offline"))),
        Err(String::from("Failed to check for updates: offline"))
    );
    assert_eq!(
        check_outcome(&UpdateProbe::UpdaterUnavailable(String::from("no handle"))),
        Err(String::from("Updater not available: no handle"))
    );
}

#[test]
fn install_without_update_is_its_own_refusal() {
    assert_eq!(
        plan_install(&UpdateProbe::UpToDate),
        InstallPlan::Refuse(String::from("No update available"))
    );
    assert_eq!(
        plan_install(&UpdateProbe::CheckFailed(String::from("offline"))),
        InstallPlan::Refuse(String::from("Failed to check for update: offline"))
    );
    assert_eq!(plan_install(&UpdateProbe::Available), InstallPlan::Download);
}

#[test]
fn install_report_wraps_apply_failures() {
    assert_eq!(install_report(Ok(())), Ok(()));
    assert_eq!(
        install_report(Err(String::from("disk full"))),
        Err(String::from("Failed to install update: disk full"))
    );
}

#[test]
fn format_stats_stay_all_zero() {
    assert!(init_stats_db().is_ok());
    for _ in 0..10 {
        assert!(increment_format_usage("d").is_ok());
    }
    assert!(increment_format_usage("R").is_ok());
    let zero = FormatStats { d: 0, D: 0, t: 0, T: 0, f: 0, F: 0, R: 0 };
    assert_eq!(get_format_stats(), Ok(zero));
}

#[test]
fn default_hotkey_parses() {
    let c = parse_combo("ctrl+shift+h").unwrap();
    let expected = KeyCombo {
        ctrl: true,
        alt: false,
        shift: true,
        meta: false,
        key: String::from("h"),
    };
    assert_eq!(c, expected);
}

#[test]
fn combo_modifiers_accumulate() {
    let c = parse_combo("ctrl+alt+super+f5").unwrap();
    assert!(c.ctrl && c.alt && c.meta && !c.shift);
    assert_eq!(c.key, "f5");
}

#[test]
fn bare_key_is_a_combo() {
    let c = parse_combo("x").unwrap();
    assert!(!c.ctrl && !c.alt && !c.shift && !c.meta);
    assert_eq!(c.key, "x");
}

#[test]
fn bad_combos_are_invalid() {
    assert_eq!(parse_combo(""), Err(ComboError::InvalidCombo));
    assert_eq!(parse_combo("ctrl+"), Err(ComboError::InvalidCombo));
    assert_eq!(parse_combo("+h"), Err(ComboError::InvalidCombo));
    assert_eq!(parse_combo("ctrl+ctrl+h"), Err(ComboError::InvalidCombo));
    assert_eq!(parse_combo("Ctrl+h"), Err(ComboError::InvalidCombo));
    assert_eq!(parse_combo("ctrl+H"), Err(ComboError::InvalidCombo));
    assert_eq!(parse_combo("meta+h"), Err(ComboError::InvalidCombo));
    assert!(!check_combo("ctrl++h"));
    assert!(check_combo("shift+9"));
}
