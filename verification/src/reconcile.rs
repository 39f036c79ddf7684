//! Batch reconciliation: the per-job decision pipeline and the aggregation
//! policy.
//!
//! Workers run one job per manifest to completion, each reporting exactly
//! one outcome; nothing cancels a sibling.  The aggregator then scans all
//! outcomes in order: a missing rolling version is downgraded to a warning,
//! any other error fails the batch, and the first such error is the
//! batch's result.

use vstd::prelude::*;
use crate::errors::UpgradeError;
use crate::manifest::Manifest;
use crate::upgrade::{resolve_version, UpgradeData, UpgradeMode, VersionDecision};

verus! {

/// The outcome of one job: success (with the upgrade data kept for audit,
/// or nothing when there was nothing to do) or a typed error.
pub type JobOutcome = Result<Option<UpgradeData>, UpgradeError>;

/// A fatal outcome: an error the batch may not ignore.
pub open spec fn spec_fatal(o: JobOutcome) -> bool {
    o is Err && !o->Err_0.spec_ignorable()
}

/// Index of the first fatal outcome, or -1 when there is none.
pub open spec fn spec_first_fatal(s: Seq<JobOutcome>) -> int
    decreases s.len(),
{
    if s.len() == 0 {
        -1
    } else if spec_fatal(s[0]) {
        0
    } else {
        let rest = spec_first_fatal(s.drop_first());
        if rest == -1 {
            -1
        } else {
            rest + 1
        }
    }
}

pub proof fn lemma_first_fatal(s: Seq<JobOutcome>)
    ensures
        spec_first_fatal(s) == -1 ==> forall|i: int| 0 <= i < s.len() ==> !spec_fatal(s[i]),
        spec_first_fatal(s) != -1 ==> {
            let k = spec_first_fatal(s);
            &&& 0 <= k < s.len()
            &&& spec_fatal(s[k])
            &&& forall|i: int| 0 <= i < k ==> !spec_fatal(s[i])
        },
    decreases s.len(),
{
    if s.len() > 0 && !spec_fatal(s[0]) {
        lemma_first_fatal(s.drop_first());
        assert(forall|i: int| 1 <= i < s.len() ==> s[i] == s.drop_first()[i - 1]);
    }
}

/// Scan all collected outcomes.  Ignorable errors are only warnings; the
/// batch fails if and only if some job failed fatally, and the first fatal
/// error in scan order is the batch's result.
pub fn reconcile_results(results: &Vec<JobOutcome>) -> (r: Result<(), UpgradeError>)
    ensures
        r is Ok <==> forall|i: int| 0 <= i < results@.len() ==> !spec_fatal(results@[i]),
        r is Err ==> {
            let k = spec_first_fatal(results@);
            &&& 0 <= k < results@.len()
            &&& results@[k] == Err::<Option<UpgradeData>, UpgradeError>(r->Err_0)
        },
{
    let n = results.len();
    let mut i: usize = 0;
    while i < n
        invariant
            n == results@.len(),
            i <= n,
            forall|j: int| 0 <= j < i ==> !spec_fatal(results@[j]),
        decreases n - i,
    {
        match &results[i] {
            Ok(_) => {},
            Err(e) => {
                if !e.ignorable() {
                    proof {
                        lemma_first_fatal(results@);
                        let k = spec_first_fatal(results@);
                        if k != i as int {
                            assert(spec_fatal(results@[k]));
                        }
                    }
                    return Err(e.duplicate());
                }
            },
        }
        i += 1;
    }
    Ok(())
}

/// The decision part of one reconciliation job, up to the apply call:
/// resolve the version against cluster state, verify the enriched
/// manifest, and derive the upgrade data.  Returns `Ok(None)` when there
/// is nothing to apply (diff-only mode), the ignorable
/// missing-rolling-version error when no version can be resolved, and a
/// fatal verification error when the manifest fails its sanity check.
pub fn plan_job(mf: &Manifest, running: &Option<String>, mode: UpgradeMode, hfile: &String) -> (r:
    Result<Option<UpgradeData>, UpgradeError>)
    ensures
        mf.version is None && running is None ==> r == Err::<Option<UpgradeData>, UpgradeError>(
            UpgradeError::MissingRollingVersion { service: mf.name },
        ),
        mf.version is Some && running is None && mode == UpgradeMode::DiffOnly ==> r == Ok::<
            Option<UpgradeData>,
            UpgradeError,
        >(None),
        (mf.version is Some || running is Some) && !(running is None && mode
            == UpgradeMode::DiffOnly) ==> {
            if !mf.spec_verify_ok() {
                match r {
                    Err(UpgradeError::ManifestVerifyFailure { service, reason }) => service
                        == mf.name && mf.spec_verify_error(reason),
                    _ => false,
                }
            } else if mode == UpgradeMode::DiffOnly {
                r == Ok::<Option<UpgradeData>, UpgradeError>(None)
            } else {
                match r {
                    Ok(Some(ud)) => {
                        &&& ud.name == mf.name
                        &&& ud.version@ == if mf.version is Some {
                            mf.version->Some_0@
                        } else {
                            running->Some_0@
                        }
                        &&& ud.namespace == mf.namespace
                        &&& ud.region == mf.region
                        &&& ud.values_path == hfile
                        &&& ud.mode == mode
                        &&& ud.exists == (running is Some)
                    },
                    _ => false,
                }
            }
        },
{
    let decision = resolve_version(&mf.version, running, mode);
    let (install, version) = match decision {
        VersionDecision::Unresolvable => {
            return Err(UpgradeError::MissingRollingVersion { service: mf.name.clone() });
        },
        VersionDecision::NothingToDo => {
            return Ok(None);
        },
        VersionDecision::Deploy { install, version } => (install, version),
    };
    match mf.verify() {
        Ok(()) => {},
        Err(reason) => {
            return Err(
                UpgradeError::ManifestVerifyFailure { service: mf.name.clone(), reason },
            );
        },
    }
    if matches!(mode, UpgradeMode::DiffOnly) {
        return Ok(None);
    }
    Ok(Some(UpgradeData {
        name: mf.name.clone(),
        version,
        namespace: mf.namespace.clone(),
        region: mf.region.clone(),
        values_path: hfile.clone(),
        mode,
        exists: !install,
    }))
}

} // verus!
