//! Trusted surface over the `semver` crate.
//!
//! The library only needs to know whether a version string is a valid
//! semantic version, and to carry the parsed value through to callers.
//! The parsed value itself is opaque to verification.

use vstd::prelude::*;

verus! {

#[verifier::external_type_specification]
#[verifier::external_body]
pub struct ExVersion(semver::Version);

/// Whether a string parses as a semantic version.  The answer depends on
/// the characters alone.
pub uninterp spec fn semver_accepts(s: Seq<char>) -> bool;

/// Relies on semver::Version::parse: parsing a version string is a pure
/// function of the string, returning `Ok` exactly on well-formed semantic
/// versions.
#[verifier::external_body]
pub fn parse_version(s: &str) -> (r: Option<semver::Version>)
    ensures
        r is Some <==> semver_accepts(s@),
{
    semver::Version::parse(s).ok()
}

} // verus!
