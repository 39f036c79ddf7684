//! Resolution of layered service configuration into fully validated
//! deployment manifests, and the decision logic of a batch reconciliation
//! pipeline that drives those manifests against a cluster.

pub mod audit;
pub mod authorization;
pub mod breakdown;
pub mod config;
pub mod container;
pub mod errors;
pub mod kvmap;
pub mod manifest;
pub mod quantity;
pub mod reconcile;
pub mod reducers;
pub mod resources;
pub mod semver_api;
pub mod structs;
pub mod strutil;
pub mod upgrade;
