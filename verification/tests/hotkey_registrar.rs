use hammer_overlay::registrar::{candidate_list, resolve, HotkeyRegistrar, RegistrationOutcome};
use hammer_overlay::settings::AppSettings;
use hammer_overlay::startup::startup_plan;

fn combos(names: &[&str]) -> Vec<String> {
    names.iter().map(|n| String::from(*n)).collect()
}

#[test]
fn third_candidate_binds_after_two_failures() {
    let cands = combos(&["ctrl+alt+a", "ctrl+alt+b", "ctrl+alt+c"]);
    let results = vec![false, false, true];
    let (outcome, attempts) = resolve(cands, &results);
    assert_eq!(outcome, RegistrationOutcome::Bound(String::from("ctrl+alt+c")));
    assert_eq!(attempts, 3);
}

#[test]
fn nothing_is_tried_after_a_success() {
    let cands = combos(&["ctrl+alt+a", "ctrl+alt+b", "ctrl+alt+c"]);
    // The second candidate binds; the third is never attempted.
    let results = vec![false, true, false];
    let (outcome, attempts) = resolve(cands, &results);
    assert_eq!(outcome, RegistrationOutcome::Bound(String::from("ctrl+alt+b")));
    assert_eq!(attempts, 2);
}

#[test]
fn all_candidates_failing_ends_unbound() {
    let cands = combos(&["ctrl+alt+a", "ctrl+alt+b", "ctrl+alt+c"]);
    let results = vec![false, false, false];
    let (outcome, attempts) = resolve(cands, &results);
    assert_eq!(outcome, RegistrationOutcome::Unbound);
    assert_eq!(attempts, 3);
}

#[test]
fn preferred_combo_is_tried_first() {
    let cands = candidate_list("ctrl+alt+x");
    assert_eq!(cands, combos(&["ctrl+alt+x", "ctrl+shift+h"]));
}

#[test]
fn default_preferred_combo_is_not_repeated() {
    let cands = candidate_list("ctrl+shift+h");
    assert_eq!(cands, combos(&["ctrl+shift+h"]));
}

#[test]
fn state_machine_settles_on_success() {
    let mut reg = HotkeyRegistrar::new(combos(&["ctrl+alt+a", "ctrl+alt+b"]));
    assert_eq!(reg.pending(), Some(&String::from("ctrl+alt+a")));
    reg.report(false);
    assert_eq!(reg.pending(), Some(&String::from("ctrl+alt+b")));
    reg.report(true);
    assert_eq!(reg.pending(), None);
    assert_eq!(
        reg.into_outcome(),
        Some(RegistrationOutcome::Bound(String::from("ctrl+alt+b")))
    );
}

#[test]
fn empty_candidate_list_is_unbound_at_once() {
    let reg = HotkeyRegistrar::new(Vec::new());
    assert!(!reg.is_pending());
    assert_eq!(reg.into_outcome(), Some(RegistrationOutcome::Unbound));
}

#[test]
fn saved_hotkey_drives_the_restart_candidates() {
    // End to end: save a chosen hotkey, load it back, and the registrar
    // tries it first, falling back to the fixed list in order.
    let mut s = AppSettings::default();
    s.global_hotkey = String::from("ctrl+alt+x");
    let stored = hammer_overlay::codec::encode_settings(&s);
    let loaded = hammer_overlay::codec::decode_settings(&stored);
    assert_eq!(loaded.global_hotkey, "ctrl+alt+x");

    let plan = startup_plan(&loaded);
    assert_eq!(
        plan.hotkey_candidates,
        combos(&["ctrl+alt+x", "ctrl+shift+h"])
    );

    // The OS reports a conflict for the preferred combo: the first free
    // fallback is bound.
    let (outcome, attempts) = resolve(plan.hotkey_candidates, &vec![false, true]);
    assert_eq!(outcome, RegistrationOutcome::Bound(String::from("ctrl+shift+h")));
    assert_eq!(attempts, 2);

    // No candidate is free: the session is unbound, and startup itself
    // carries on (resolve returned normally).
    let plan = startup_plan(&loaded);
    let (outcome, _) = resolve(plan.hotkey_candidates, &vec![false, false]);
    assert_eq!(outcome, RegistrationOutcome::Unbound);
}

#[test]
fn startup_plan_follows_settings() {
    let mut s = AppSettings::default();
    s.auto_start = true;
    let plan = startup_plan(&s);
    assert!(plan.enable_autostart);
    assert!(plan.start_hidden);
    let plan_off = startup_plan(&AppSettings::default());
    assert!(!plan_off.enable_autostart);
}
