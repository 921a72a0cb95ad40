//! What one startup run decides once the instance guard let it pass and
//! the settings were loaded.

use vstd::prelude::*;
use crate::settings::AppSettings;
use crate::settings::AppSettingsSpec;
use crate::registrar::RegistrationOutcomeSpec;
use crate::registrar::candidate_list;
use crate::registrar::candidates_spec;
use crate::registrar::lemma_first_success;
use crate::registrar::run_spec;
use crate::codec::lemma_settings_round_trip;
use crate::codec::settings_of_text;
use crate::codec::settings_text;

verus! {

/// The decisions startup hands to the shell.
pub struct StartupPlan {
    /// Register the application for auto-start exactly when the setting
    /// asks for it.
    pub enable_autostart: bool,
    /// The main window begins withdrawn to the tray.
    pub start_hidden: bool,
    /// The hotkey candidates, the preferred combo first.
    pub hotkey_candidates: Vec<String>,
}

/// Decide a startup run from the loaded settings.
pub fn startup_plan(s: &AppSettings) -> (p: StartupPlan)
    ensures
        p.enable_autostart == s@.auto_start,
        p.start_hidden,
        p.hotkey_candidates.deep_view() == candidates_spec(s@.global_hotkey),
{
    StartupPlan {
        enable_autostart: s.auto_start,
        start_hidden: true,
        hotkey_candidates: candidate_list(s.global_hotkey.as_str()),
    }
}

/// A saved hotkey comes back unchanged on restart and is tried first; and
/// when every candidate before `i` is refused while candidate `i` binds,
/// the session ends bound to candidate `i` after exactly `i + 1` attempts.
pub proof fn lemma_restart_binds_first_free(v: AppSettingsSpec, results: Seq<bool>, i: int)
    requires
        results.len() == candidates_spec(v.global_hotkey).len(),
        0 <= i < results.len(),
        results[i],
        forall|j: int| 0 <= j < i ==> !results[j],
    ensures
        settings_of_text(settings_text(v)) == Some(v),
        candidates_spec(v.global_hotkey)[0] == v.global_hotkey,
        run_spec(candidates_spec(v.global_hotkey), results) == (
            RegistrationOutcomeSpec::Bound(candidates_spec(v.global_hotkey)[i]),
            i + 1,
        ),
{
    lemma_settings_round_trip(v);
    lemma_first_success(candidates_spec(v.global_hotkey), results, i);
}

} // verus!
