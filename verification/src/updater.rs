//! Decisions of the update checker.
//!
//! The platform updater does the network work; what it reported is handed
//! in as an [`UpdateProbe`], and this module decides what the check and
//! install commands answer. "No update" is a valid `false` for a check and
//! a distinct refusal for an install, never a crash.

use vstd::prelude::*;

verus! {

/// What asking the platform updater reported.
#[derive(Clone, PartialEq, Debug)]
pub enum UpdateProbe {
    /// A newer version exists.
    Available,
    /// No newer version exists.
    UpToDate,
    /// The check itself failed, with the platform's message.
    CheckFailed(String),
    /// No updater handle could be had, with the platform's message.
    UpdaterUnavailable(String),
}

/// Mathematical value of an [`UpdateProbe`].
pub ghost enum UpdateProbeSpec {
    Available,
    UpToDate,
    CheckFailed(Seq<char>),
    UpdaterUnavailable(Seq<char>),
}

impl View for UpdateProbe {
    type V = UpdateProbeSpec;

    open spec fn view(&self) -> UpdateProbeSpec {
        match self {
            UpdateProbe::Available => UpdateProbeSpec::Available,
            UpdateProbe::UpToDate => UpdateProbeSpec::UpToDate,
            UpdateProbe::CheckFailed(m) => UpdateProbeSpec::CheckFailed(m@),
            UpdateProbe::UpdaterUnavailable(m) => UpdateProbeSpec::UpdaterUnavailable(m@),
        }
    }
}

/// What the install command decided to do next.
#[derive(Clone, PartialEq, Debug)]
pub enum InstallPlan {
    /// An update exists: download and apply it.
    Download,
    /// Nothing to apply, or the probe failed: report this message instead.
    Refuse(String),
}

/// Mathematical value of an [`InstallPlan`].
pub ghost enum InstallPlanSpec {
    Download,
    Refuse(Seq<char>),
}

impl View for InstallPlan {
    type V = InstallPlanSpec;

    open spec fn view(&self) -> InstallPlanSpec {
        match self {
            InstallPlan::Download => InstallPlanSpec::Download,
            InstallPlan::Refuse(m) => InstallPlanSpec::Refuse(m@),
        }
    }
}

/// A `Result<bool, String>` as mathematical values.
pub open spec fn bool_result_view(r: Result<bool, String>) -> Result<bool, Seq<char>> {
    match r {
        Ok(b) => Ok(b),
        Err(m) => Err(m@),
    }
}

/// A `Result<(), String>` as mathematical values.
pub open spec fn unit_result_view(r: Result<(), String>) -> Result<(), Seq<char>> {
    match r {
        Ok(u) => Ok(u),
        Err(m) => Err(m@),
    }
}

/// What the check command answers for each probe outcome.
pub open spec fn check_outcome_spec(p: UpdateProbeSpec) -> Result<bool, Seq<char>> {
    match p {
        UpdateProbeSpec::Available => Ok(true),
        UpdateProbeSpec::UpToDate => Ok(false),
        UpdateProbeSpec::CheckFailed(m) => Err("Failed to check for updates: "@ + m),
        UpdateProbeSpec::UpdaterUnavailable(m) => Err("Updater not available: "@ + m),
    }
}

/// Answer the check command: an existing update is `true`, none is a valid
/// `false`, and only a failing probe is an error.
pub fn check_outcome(p: &UpdateProbe) -> (r: Result<bool, String>)
    ensures
        bool_result_view(r) == check_outcome_spec(p@),
{
    match p {
        UpdateProbe::Available => Ok(true),
        UpdateProbe::UpToDate => Ok(false),
        UpdateProbe::CheckFailed(m) => {
            let mut s = String::from_str("Failed to check for updates: ");
            s.append(m.as_str());
            Err(s)
        },
        UpdateProbe::UpdaterUnavailable(m) => {
            let mut s = String::from_str("Updater not available: ");
            s.append(m.as_str());
            Err(s)
        },
    }
}

/// What the install command decides for each probe outcome: only a present
/// update is downloaded, and a missing one is its own distinct refusal.
pub open spec fn install_plan_spec(p: UpdateProbeSpec) -> InstallPlanSpec {
    match p {
        UpdateProbeSpec::Available => InstallPlanSpec::Download,
        UpdateProbeSpec::UpToDate => InstallPlanSpec::Refuse("No update available"@),
        UpdateProbeSpec::CheckFailed(m) => InstallPlanSpec::Refuse(
            "Failed to check for update: "@ + m,
        ),
        UpdateProbeSpec::UpdaterUnavailable(m) => InstallPlanSpec::Refuse(
            "Updater not available: "@ + m,
        ),
    }
}

/// Decide the install command's next step from the re-check's probe.
pub fn plan_install(p: &UpdateProbe) -> (plan: InstallPlan)
    ensures
        plan@ == install_plan_spec(p@),
{
    match p {
        UpdateProbe::Available => InstallPlan::Download,
        UpdateProbe::UpToDate => InstallPlan::Refuse(String::from_str("No update available")),
        UpdateProbe::CheckFailed(m) => {
            let mut s = String::from_str("Failed to check for update: ");
            s.append(m.as_str());
            InstallPlan::Refuse(s)
        },
        UpdateProbe::UpdaterUnavailable(m) => {
            let mut s = String::from_str("Updater not available: ");
            s.append(m.as_str());
            InstallPlan::Refuse(s)
        },
    }
}

/// What the install command answers once the download-and-apply step ran.
pub open spec fn install_report_spec(applied: Result<(), Seq<char>>) -> Result<(), Seq<char>> {
    match applied {
        Ok(u) => Ok(u),
        Err(m) => Err("Failed to install update: "@ + m),
    }
}

/// Turn the download-and-apply step's own result into the install
/// command's answer.
pub fn install_report(applied: Result<(), String>) -> (r: Result<(), String>)
    ensures
        unit_result_view(r) == install_report_spec(unit_result_view(applied)),
{
    match applied {
        Ok(u) => Ok(u),
        Err(m) => {
            let mut s = String::from_str("Failed to install update: ");
            s.append(m.as_str());
            Err(s)
        },
    }
}

} // verus!
