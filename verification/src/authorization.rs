//! Authorization configuration and its build-time invariant.
//!
//! An authorization block must allow at least one audience, and allowing
//! invalid tokens is only meaningful when anonymous access is also allowed.
//! Building the resolved record enforces both rules; a violating source
//! fails resolution rather than being silently corrected.

use vstd::prelude::*;
use crate::errors::ValidationError;
use crate::strutil::clone_strings;

verus! {

/// Optional-valued authorization fragment, as found in an override layer.
#[derive(Debug, Clone, PartialEq, Eq, Default)]
pub struct AuthorizationSource {
    pub allowed_audiences: Option<Vec<String>>,
    pub allow_anonymous: Option<bool>,
    pub allow_invalid_tokens: Option<bool>,
    pub required_scopes: Option<Vec<String>>,
    pub allow_cookies: Option<bool>,
}

/// Fully resolved authorization record.
#[derive(Debug, Clone, PartialEq, Eq)]
pub struct Authorization {
    pub allowed_audiences: Vec<String>,
    pub allow_anonymous: bool,
    pub allow_invalid_tokens: bool,
    pub required_scopes: Vec<String>,
    pub allow_cookies: bool,
}

impl AuthorizationSource {
    /// The audiences the source names, with absence read as none at all.
    pub open spec fn spec_audiences(&self) -> Seq<String> {
        match self.allowed_audiences {
            Some(a) => a@,
            None => Seq::empty(),
        }
    }

    pub open spec fn spec_allow_anonymous(&self) -> bool {
        self.allow_anonymous == Some(true)
    }

    pub open spec fn spec_allow_invalid_tokens(&self) -> bool {
        self.allow_invalid_tokens == Some(true)
    }

    /// The two invariants an authorization block must satisfy.
    pub open spec fn spec_valid(&self) -> bool {
        &&& self.spec_audiences().len() > 0
        &&& (self.spec_allow_invalid_tokens() ==> self.spec_allow_anonymous())
    }

    /// The resolved record a valid fragment builds to.
    pub open spec fn spec_builds(&self, a: Authorization) -> bool {
        &&& a.allowed_audiences@ == self.spec_audiences()
        &&& a.allow_anonymous == self.spec_allow_anonymous()
        &&& a.allow_invalid_tokens == self.spec_allow_invalid_tokens()
        &&& a.required_scopes@ == match self.required_scopes {
            Some(s) => s@,
            None => Seq::<String>::empty(),
        }
        &&& a.allow_cookies == (self.allow_cookies == Some(true))
    }

    /// The error an invalid fragment is refused with; the audience check
    /// comes first.
    pub open spec fn build_error(&self) -> ValidationError {
        if self.spec_audiences().len() == 0 {
            ValidationError::EmptyAllowedAudiences
        } else {
            ValidationError::InvalidTokenPolicy
        }
    }

    /// Resolve the fragment, defaulting every absent field, and refuse a
    /// fragment with no audiences or with an invalid token policy.
    pub fn build(&self) -> (r: Result<Authorization, ValidationError>)
        ensures
            r is Ok <==> self.spec_valid(),
            r is Ok ==> self.spec_builds(r->Ok_0),
            r is Err ==> r->Err_0 == self.build_error(),
    {
        let allowed_audiences: Vec<String> = match &self.allowed_audiences {
            Some(a) => clone_strings(a),
            None => Vec::new(),
        };
        if allowed_audiences.len() == 0 {
            return Err(ValidationError::EmptyAllowedAudiences);
        }
        let allow_anonymous = matches!(self.allow_anonymous, Some(true));
        let allow_invalid_tokens = matches!(self.allow_invalid_tokens, Some(true));
        if allow_invalid_tokens && !allow_anonymous {
            return Err(ValidationError::InvalidTokenPolicy);
        }
        let required_scopes: Vec<String> = match &self.required_scopes {
            Some(s) => clone_strings(s),
            None => Vec::new(),
        };
        Ok(Authorization {
            allowed_audiences,
            allow_anonymous,
            allow_invalid_tokens,
            required_scopes,
            allow_cookies: matches!(self.allow_cookies, Some(true)),
        })
    }
}

} // verus!
