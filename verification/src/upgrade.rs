//! The upgrade state machine and the version/fallback resolver.
//!
//! One job drives one service through
//! `Pending -> {Installing | Upgrading} -> {Succeeded | Failed | TimedOut}`.
//! Diff-only mode never leaves `Pending`.  The version to deploy is the
//! pinned one when the manifest pins one; otherwise the version currently
//! running in the cluster; a job with neither is unresolvable, which is an
//! expected, batch-ignorable condition rather than a defect.

use vstd::prelude::*;
use crate::errors::UpgradeError;
use crate::manifest::Manifest;

verus! {

/// How far a job is allowed to go.
#[derive(Debug, Clone, Copy, PartialEq, Eq, Structural)]
pub enum UpgradeMode {
    /// Only compute and report a diff; never apply.
    DiffOnly,
    /// Apply, but do not await the rollout.
    Apply,
    /// Apply and await the rollout until the computed deadline.
    ApplyWait,
}

/// The states of one job.
#[derive(Debug, Clone, Copy, PartialEq, Eq, Structural)]
pub enum UpgradeState {
    Pending,
    Installing,
    Upgrading,
    Succeeded,
    Failed,
    TimedOut,
}

/// What the outside world reports back to the machine.
#[derive(Debug, Clone, Copy, PartialEq, Eq, Structural)]
pub enum UpgradeEvent {
    /// The apply call was issued.
    ApplyIssued,
    /// The apply call itself was rejected by the cluster.
    ApplyRejected,
    /// The rollout confirmed completion before the deadline.
    RolloutConfirmed,
    /// The deadline passed without confirmation.
    DeadlineExceeded,
}

/// The transition table.  Diff-only never leaves `Pending`; the apply takes
/// `Pending` to `Installing` or `Upgrading` by the install flag; a rejected
/// apply fails, a confirmed rollout succeeds, a missed deadline times out;
/// terminal states absorb every event.
pub open spec fn spec_step(
    state: UpgradeState,
    mode: UpgradeMode,
    install: bool,
    ev: UpgradeEvent,
) -> UpgradeState {
    match (state, ev) {
        (UpgradeState::Pending, UpgradeEvent::ApplyIssued) => {
            if mode == UpgradeMode::DiffOnly {
                UpgradeState::Pending
            } else if install {
                UpgradeState::Installing
            } else {
                UpgradeState::Upgrading
            }
        },
        (UpgradeState::Installing, UpgradeEvent::ApplyRejected) => UpgradeState::Failed,
        (UpgradeState::Upgrading, UpgradeEvent::ApplyRejected) => UpgradeState::Failed,
        (UpgradeState::Installing, UpgradeEvent::RolloutConfirmed) => UpgradeState::Succeeded,
        (UpgradeState::Upgrading, UpgradeEvent::RolloutConfirmed) => UpgradeState::Succeeded,
        (UpgradeState::Installing, UpgradeEvent::DeadlineExceeded) => UpgradeState::TimedOut,
        (UpgradeState::Upgrading, UpgradeEvent::DeadlineExceeded) => UpgradeState::TimedOut,
        _ => state,
    }
}

/// One step of the state machine.
pub fn step(state: UpgradeState, mode: UpgradeMode, install: bool, ev: UpgradeEvent) -> (r:
    UpgradeState)
    ensures
        r == spec_step(state, mode, install, ev),
{
    match (state, ev) {
        (UpgradeState::Pending, UpgradeEvent::ApplyIssued) => {
            if matches!(mode, UpgradeMode::DiffOnly) {
                UpgradeState::Pending
            } else if install {
                UpgradeState::Installing
            } else {
                UpgradeState::Upgrading
            }
        },
        (UpgradeState::Installing, UpgradeEvent::ApplyRejected) => UpgradeState::Failed,
        (UpgradeState::Upgrading, UpgradeEvent::ApplyRejected) => UpgradeState::Failed,
        (UpgradeState::Installing, UpgradeEvent::RolloutConfirmed) => UpgradeState::Succeeded,
        (UpgradeState::Upgrading, UpgradeEvent::RolloutConfirmed) => UpgradeState::Succeeded,
        (UpgradeState::Installing, UpgradeEvent::DeadlineExceeded) => UpgradeState::TimedOut,
        (UpgradeState::Upgrading, UpgradeEvent::DeadlineExceeded) => UpgradeState::TimedOut,
        (s, _) => s,
    }
}

/// The side effects owed after entering a state: whether to send an outcome
/// notification (and with which success flag), whether to request a
/// diagnostic dump, and whether the job is over so the rendered-values
/// artifact should be removed.  A notification's own failure never alters
/// the outcome.
#[derive(Debug, Clone, Copy, PartialEq, Eq, Structural)]
pub struct StateActions {
    pub notify: Option<bool>,
    pub diagnostic_dump: bool,
    pub remove_artifact: bool,
}

/// The actions owed on reaching a state: success notifies, a timeout
/// notifies failure and dumps diagnostics, an apply failure dumps
/// diagnostics; every terminal state releases the rendered artifact.
pub open spec fn spec_actions(state: UpgradeState) -> StateActions {
    match state {
        UpgradeState::Succeeded => StateActions {
            notify: Some(true),
            diagnostic_dump: false,
            remove_artifact: true,
        },
        UpgradeState::TimedOut => StateActions {
            notify: Some(false),
            diagnostic_dump: true,
            remove_artifact: true,
        },
        UpgradeState::Failed => StateActions {
            notify: None,
            diagnostic_dump: true,
            remove_artifact: true,
        },
        _ => StateActions { notify: None, diagnostic_dump: false, remove_artifact: false },
    }
}

pub fn actions_on(state: UpgradeState) -> (r: StateActions)
    ensures
        r == spec_actions(state),
{
    match state {
        UpgradeState::Succeeded => StateActions {
            notify: Some(true),
            diagnostic_dump: false,
            remove_artifact: true,
        },
        UpgradeState::TimedOut => StateActions {
            notify: Some(false),
            diagnostic_dump: true,
            remove_artifact: true,
        },
        UpgradeState::Failed => StateActions {
            notify: None,
            diagnostic_dump: true,
            remove_artifact: true,
        },
        _ => StateActions { notify: None, diagnostic_dump: false, remove_artifact: false },
    }
}

/// What the version resolver decides for one job.
#[derive(Debug, Clone, PartialEq, Eq)]
pub enum VersionDecision {
    /// Deploy this version; `install` when the service is not yet running.
    Deploy { install: bool, version: String },
    /// Diff-only mode and nothing installed: nothing to do.
    NothingToDo,
    /// No pinned version and nothing running to fall back on.
    Unresolvable,
}

/// Decide the version and install/upgrade flag.  A pinned version always
/// wins; the running version is only a fallback; cluster state alone
/// decides install versus upgrade.
pub fn resolve_version(pinned: &Option<String>, running: &Option<String>, mode: UpgradeMode)
    -> (r: VersionDecision)
    ensures
        running is Some ==> r == (VersionDecision::Deploy {
            install: false,
            version: if pinned is Some {
                pinned->Some_0
            } else {
                running->Some_0
            },
        }),
        running is None && pinned is Some && mode == UpgradeMode::DiffOnly ==> r
            == VersionDecision::NothingToDo,
        running is None && pinned is Some && mode != UpgradeMode::DiffOnly ==> r
            == (VersionDecision::Deploy { install: true, version: pinned->Some_0 }),
        running is None && pinned is None ==> r == VersionDecision::Unresolvable,
    {
    match running {
        Some(rv) => {
            let version = match pinned {
                Some(p) => p.clone(),
                None => rv.clone(),
            };
            VersionDecision::Deploy { install: false, version }
        },
        None => match pinned {
            Some(p) => {
                if matches!(mode, UpgradeMode::DiffOnly) {
                    VersionDecision::NothingToDo
                } else {
                    VersionDecision::Deploy { install: true, version: p.clone() }
                }
            },
            None => VersionDecision::Unresolvable,
        },
    }
}

/// Everything one worker needs to drive one upgrade; owned exclusively by
/// its job.
#[derive(Debug, Clone, PartialEq, Eq)]
pub struct UpgradeData {
    pub name: String,
    pub version: String,
    pub namespace: String,
    pub region: String,
    /// Path of the rendered values artifact, removed when the job is over.
    pub values_path: String,
    pub mode: UpgradeMode,
    /// Whether the service was already present (upgrade rather than
    /// install).
    pub exists: bool,
}

impl UpgradeData {
    /// Derive the upgrade data of one job.  Diff-only mode yields no data:
    /// the job never leaves `Pending`.  A manifest without a resolved
    /// version cannot be deployed.
    pub fn new(mf: &Manifest, hfile: &String, mode: UpgradeMode, exists: bool) -> (r: Result<
        Option<UpgradeData>,
        UpgradeError,
    >)
        ensures
            mode == UpgradeMode::DiffOnly ==> r == Ok::<Option<UpgradeData>, UpgradeError>(None),
            mode != UpgradeMode::DiffOnly && mf.version is Some ==> match r {
                Ok(Some(ud)) => {
                    &&& ud.name == mf.name
                    &&& ud.version == mf.version->Some_0
                    &&& ud.namespace == mf.namespace
                    &&& ud.region == mf.region
                    &&& ud.values_path == hfile
                    &&& ud.mode == mode
                    &&& ud.exists == exists
                },
                _ => false,
            },
            mode != UpgradeMode::DiffOnly && mf.version is None ==> r == Err::<
                Option<UpgradeData>,
                UpgradeError,
            >(UpgradeError::MissingRollingVersion { service: mf.name }),
    {
        if matches!(mode, UpgradeMode::DiffOnly) {
            return Ok(None);
        }
        let version = match &mf.version {
            Some(v) => v.clone(),
            None => {
                return Err(UpgradeError::MissingRollingVersion { service: mf.name.clone() });
            },
        };
        Ok(Some(UpgradeData {
            name: mf.name.clone(),
            version,
            namespace: mf.namespace.clone(),
            region: mf.region.clone(),
            values_path: hfile.clone(),
            mode,
            exists,
        }))
    }

    /// A fresh copy, for handing to the audit payload.
    pub fn duplicate(&self) -> (r: UpgradeData)
        ensures
            r == *self,
    {
        UpgradeData {
            name: self.name.clone(),
            version: self.version.clone(),
            namespace: self.namespace.clone(),
            region: self.region.clone(),
            values_path: self.values_path.clone(),
            mode: self.mode,
            exists: self.exists,
        }
    }
}

/// Judge a finished apply/rollout exchange: a rejected apply fails the job,
/// a missed deadline times it out with the waited seconds attached, and a
/// confirmed rollout succeeds with the upgrade data kept for audit.
pub fn conclude_job(ud: &UpgradeData, apply_ok: bool, rollout_ready: bool, waited: u32) -> (r:
    Result<Option<UpgradeData>, UpgradeError>)
    ensures
        !apply_ok ==> r == Err::<Option<UpgradeData>, UpgradeError>(
            UpgradeError::ApplyFailure { service: ud.name },
        ),
        apply_ok && !rollout_ready ==> r == Err::<Option<UpgradeData>, UpgradeError>(
            UpgradeError::RolloutTimeout { service: ud.name, waited },
        ),
        apply_ok && rollout_ready ==> r == Ok::<Option<UpgradeData>, UpgradeError>(
            Some(*ud),
        ),
{
    if !apply_ok {
        Err(UpgradeError::ApplyFailure { service: ud.name.clone() })
    } else if !rollout_ready {
        Err(UpgradeError::RolloutTimeout { service: ud.name.clone(), waited })
    } else {
        Ok(Some(ud.duplicate()))
    }
}

} // verus!
