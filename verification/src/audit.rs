//! Audit payload construction.
//!
//! The payloads shipped to the audit webhook are pure data: the caller
//! supplies the clock reading and the environment-provided context values,
//! and delivery is the caller's concern.  A delivery failure never alters
//! a job's outcome.

use vstd::prelude::*;
use vstd::string::*;
use crate::errors::AuditError;
use crate::upgrade::{UpgradeData, UpgradeState};
use crate::strutil::concat3;

verus! {

/// One domain object of an audit event: a single deployment, or a whole
/// reconciliation run.
#[derive(Debug, Clone, PartialEq, Eq)]
pub enum AuditDomainObject {
    Deployment {
        id: String,
        region: String,
        manifests_revision: String,
        service: String,
        version: String,
    },
    Reconciliation { id: String, region: String, manifests_revision: String },
    Empty,
}

/// The payload sent to the audit webhook.
#[derive(Debug, Clone, PartialEq, Eq)]
pub struct AuditEvent {
    /// Clock reading supplied by the caller.
    pub timestamp: String,
    pub status: UpgradeState,
    /// E.g. a build job id, from the caller's environment.
    pub context_id: Option<String>,
    /// E.g. a build job link, from the caller's environment.
    pub context_link: Option<String>,
    pub payload: AuditDomainObject,
}

/// The identifier of a deployment event:
/// `revision-region-service-version`.
pub open spec fn spec_deployment_id(
    revision: Seq<char>,
    region: Seq<char>,
    service: Seq<char>,
    version: Seq<char>,
) -> Seq<char> {
    revision + seq!['-'] + region + seq!['-'] + service + seq!['-'] + version
}

/// The identifier of a reconciliation event: `revision-region`.
pub open spec fn spec_reconciliation_id(revision: Seq<char>, region: Seq<char>) -> Seq<char> {
    revision + seq!['-'] + region
}

impl AuditEvent {
    /// Timestamped payload skeleton.
    pub fn new(
        us: UpgradeState,
        timestamp: String,
        context_id: Option<String>,
        context_link: Option<String>,
    ) -> (r: AuditEvent)
        ensures
            r.timestamp == timestamp,
            r.status == us,
            r.context_id == context_id,
            r.context_link == context_link,
            r.payload == AuditDomainObject::Empty,
    {
        AuditEvent { timestamp, status: us, context_id, context_link, payload: AuditDomainObject::Empty }
    }
}

impl AuditDomainObject {
    /// The deployment payload of one upgrade; a job without upgrade data
    /// is recorded with every coordinate unknown.
    pub fn new_deployment(udopt: &Option<UpgradeData>, manifests_revision: String) -> (r:
        AuditDomainObject)
        ensures
            r matches AuditDomainObject::Deployment {
                id,
                region,
                manifests_revision: rev,
                service,
                version,
            } && {
                &&& rev == manifests_revision
                &&& region@ == match udopt {
                    Some(ud) => ud.region@,
                    None => "unknown"@,
                }
                &&& service@ == match udopt {
                    Some(ud) => ud.name@,
                    None => "unknown"@,
                }
                &&& version@ == match udopt {
                    Some(ud) => ud.version@,
                    None => "unknown"@,
                }
                &&& id@ == spec_deployment_id(manifests_revision@, region@, service@, version@)
            },
    {
        let (service, region, version) = match udopt {
            Some(ud) => (ud.name.clone(), ud.region.clone(), ud.version.clone()),
            None => (
                String::from_str("unknown"),
                String::from_str("unknown"),
                String::from_str("unknown"),
            ),
        };
        let head = concat3(manifests_revision.as_str(), "-", region.as_str());
        let mid = concat3(head.as_str(), "-", service.as_str());
        let id = concat3(mid.as_str(), "-", version.as_str());
        proof {
            reveal_strlit("-");
            assert(id@ =~= spec_deployment_id(
                manifests_revision@,
                region@,
                service@,
                version@,
            ));
        }
        AuditDomainObject::Deployment { id, region, manifests_revision, service, version }
    }

    /// The payload of one whole reconciliation run.
    pub fn new_reconciliation(r: &String, manifests_revision: String) -> (out:
        AuditDomainObject)
        ensures
            out matches AuditDomainObject::Reconciliation {
                id,
                region,
                manifests_revision: rev,
            } && {
                &&& rev == manifests_revision
                &&& region == r
                &&& id@ == spec_reconciliation_id(manifests_revision@, r@)
            },
    {
        let id = concat3(manifests_revision.as_str(), "-", r.as_str());
        proof {
            reveal_strlit("-");
            assert(id@ =~= spec_reconciliation_id(manifests_revision@, r@));
        }
        AuditDomainObject::Reconciliation {
            id,
            region: r.clone(),
            manifests_revision,
        }
    }
}

/// With a webhook configured, the audit context id and the manifests
/// revision must both be known; checked in that order.  Without a webhook
/// nothing is required.
pub fn ensure_requirements(
    webhook_present: bool,
    context_id: &Option<String>,
    revision: &Option<String>,
) -> (r: Result<(), AuditError>)
    ensures
        r is Ok <==> (!webhook_present || (context_id is Some && revision is Some)),
        r is Err ==> r->Err_0 == if context_id is None {
            AuditError::MissingAuditContextId
        } else {
            AuditError::MissingAuditRevision
        },
{
    if !webhook_present {
        return Ok(());
    }
    if context_id.is_none() {
        return Err(AuditError::MissingAuditContextId);
    }
    if revision.is_none() {
        return Err(AuditError::MissingAuditRevision);
    }
    Ok(())
}

/// The audit event of one finished deployment.
pub fn audit_deployment(
    us: UpgradeState,
    ud: &UpgradeData,
    timestamp: String,
    context_id: Option<String>,
    context_link: Option<String>,
    revision: String,
) -> (r: AuditEvent)
    ensures
        r.status == us,
        r.timestamp == timestamp,
        r.context_id == context_id,
        r.context_link == context_link,
        r.payload matches AuditDomainObject::Deployment { id, region, service, version, .. }
            && region@ == ud.region@ && service@ == ud.name@ && version@ == ud.version@ && id@
            == spec_deployment_id(revision@, ud.region@, ud.name@, ud.version@),
{
    let mut ae = AuditEvent::new(us, timestamp, context_id, context_link);
    ae.payload = AuditDomainObject::new_deployment(&Some(ud.duplicate()), revision);
    ae
}

/// The audit event of one finished reconciliation run.
pub fn audit_reconciliation(
    us: UpgradeState,
    region: &String,
    timestamp: String,
    context_id: Option<String>,
    context_link: Option<String>,
    revision: String,
) -> (r: AuditEvent)
    ensures
        r.status == us,
        r.timestamp == timestamp,
        r.context_id == context_id,
        r.context_link == context_link,
        r.payload matches AuditDomainObject::Reconciliation { id, region: rg, .. } && rg == region
            && id@ == spec_reconciliation_id(revision@, region@),
{
    let mut ae = AuditEvent::new(us, timestamp, context_id, context_link);
    ae.payload = AuditDomainObject::new_reconciliation(region, revision);
    ae
}

} // verus!
