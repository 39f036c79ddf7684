//! Error taxonomy.
//!
//! `ValidationError` is fatal and pre-deployment: a service whose layered
//! configuration fails a structural or cross-field check never yields a
//! manifest.  `UpgradeError` is per-job: every variant but
//! `MissingRollingVersion` is fatal at batch scope, while
//! `MissingRollingVersion` is downgraded to a warning by the aggregator.

use vstd::prelude::*;

verus! {

/// Why resolution of one service's configuration was refused.
#[derive(Debug, Clone, PartialEq, Eq)]
pub enum ValidationError {
    /// The service file names no service.
    MissingName,
    /// The service file carries no metadata block.
    MissingMetadata { service: String },
    /// The metadata names a team that the global config does not list.
    UnknownTeam { team: String },
    /// No explicit image and no image prefix to derive one from.
    MissingImagePrefix,
    /// A field that must be present after merging is not.
    MissingRequiredField { field: String },
    /// A resource quantity does not parse.
    InvalidQuantity { field: String, value: String },
    /// A resource request exceeds the corresponding limit.
    RequestAboveLimit { resource: String },
    /// An authorization block allows no audience at all.
    EmptyAllowedAudiences,
    /// `allow_invalid_tokens` without `allow_anonymous`.
    InvalidTokenPolicy,
    /// A gateway block whose `public` flag contradicts the top-level
    /// publicly-accessible flag.
    GatePublicMismatch,
    /// A batch-job container with an image but no version, or a version
    /// but no image.
    ImageWithoutVersion,
    VersionWithoutImage,
    /// Autoscaling bounds that are empty or inverted.
    InvalidAutoScaling,
    /// A config-map entry names a template that no template directory holds.
    MissingTemplate { name: String },
}

/// Whether `e` reports the named required field as missing.
pub open spec fn is_missing_field(e: ValidationError, name: Seq<char>) -> bool {
    match e {
        ValidationError::MissingRequiredField { field } => field@ == name,
        _ => false,
    }
}

/// Whether `e` reports the named quantity field as unparseable, with the
/// offending value.
pub open spec fn is_invalid_quantity(e: ValidationError, name: Seq<char>, v: Seq<char>) -> bool {
    match e {
        ValidationError::InvalidQuantity { field, value } => field@ == name && value@ == v,
        _ => false,
    }
}

/// Whether `e` reports the named resource's request as above its limit.
pub open spec fn is_request_above_limit(e: ValidationError, name: Seq<char>) -> bool {
    match e {
        ValidationError::RequestAboveLimit { resource } => resource@ == name,
        _ => false,
    }
}

/// Outcome classification of one reconciliation job.
#[derive(Debug, Clone, PartialEq, Eq)]
pub enum UpgradeError {
    /// No pinned version and no running version to fall back on; expected in
    /// environments that mandate pinning, so ignorable at batch scope.
    MissingRollingVersion { service: String },
    /// The resolved manifest failed its sanity verification.
    ManifestVerifyFailure { service: String, reason: ValidationError },
    /// The cluster rejected the apply call outright.
    ApplyFailure { service: String },
    /// The apply succeeded but the rollout did not confirm before the
    /// deadline, in seconds, computed from the manifest.
    RolloutTimeout { service: String, waited: u32 },
}

impl ValidationError {
    /// A fresh copy with the same contents.
    pub fn duplicate(&self) -> (r: ValidationError)
        ensures
            r == *self,
    {
        match self {
            ValidationError::MissingName => ValidationError::MissingName,
            ValidationError::MissingMetadata { service } => ValidationError::MissingMetadata {
                service: service.clone(),
            },
            ValidationError::UnknownTeam { team } => ValidationError::UnknownTeam {
                team: team.clone(),
            },
            ValidationError::MissingImagePrefix => ValidationError::MissingImagePrefix,
            ValidationError::MissingRequiredField { field } =>
                ValidationError::MissingRequiredField { field: field.clone() },
            ValidationError::InvalidQuantity { field, value } =>
                ValidationError::InvalidQuantity { field: field.clone(), value: value.clone() },
            ValidationError::RequestAboveLimit { resource } =>
                ValidationError::RequestAboveLimit { resource: resource.clone() },
            ValidationError::EmptyAllowedAudiences => ValidationError::EmptyAllowedAudiences,
            ValidationError::InvalidTokenPolicy => ValidationError::InvalidTokenPolicy,
            ValidationError::GatePublicMismatch => ValidationError::GatePublicMismatch,
            ValidationError::ImageWithoutVersion => ValidationError::ImageWithoutVersion,
            ValidationError::VersionWithoutImage => ValidationError::VersionWithoutImage,
            ValidationError::InvalidAutoScaling => ValidationError::InvalidAutoScaling,
            ValidationError::MissingTemplate { name } => ValidationError::MissingTemplate {
                name: name.clone(),
            },
        }
    }
}

impl UpgradeError {
    /// A fresh copy with the same contents.
    pub fn duplicate(&self) -> (r: UpgradeError)
        ensures
            r == *self,
    {
        match self {
            UpgradeError::MissingRollingVersion { service } =>
                UpgradeError::MissingRollingVersion { service: service.clone() },
            UpgradeError::ManifestVerifyFailure { service, reason } =>
                UpgradeError::ManifestVerifyFailure {
                service: service.clone(),
                reason: reason.duplicate(),
            },
            UpgradeError::ApplyFailure { service } => UpgradeError::ApplyFailure {
                service: service.clone(),
            },
            UpgradeError::RolloutTimeout { service, waited } => UpgradeError::RolloutTimeout {
                service: service.clone(),
                waited: *waited,
            },
        }
    }

    /// An ignorable error aborts only its own job; the aggregator downgrades
    /// it to a warning instead of failing the batch.
    pub open spec fn spec_ignorable(&self) -> bool {
        self is MissingRollingVersion
    }

    pub fn ignorable(&self) -> (b: bool)
        ensures
            b == self.spec_ignorable(),
    {
        matches!(self, UpgradeError::MissingRollingVersion { .. })
    }
}

/// Why an audit-webhook configuration cannot be honoured.
#[derive(Debug, Clone, PartialEq, Eq)]
pub enum AuditError {
    MissingAuditContextId,
    MissingAuditRevision,
}

} // verus!
