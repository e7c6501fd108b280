use vstd::prelude::*;

verus! {

/// Why a request was not let through. Kept whole for logs and metrics; a
/// client only ever sees the status and the generic body.
#[derive(Clone, Copy, Debug, PartialEq, Eq, Structural)]
pub enum AuthError {
    /// The credential has the wrong structure or an unsupported signing scheme.
    Malformed,
    /// The signature does not match the configured key.
    InvalidSignature,
    /// The credential's expiry instant has passed.
    Expired,
    /// No verified identity where one is needed.
    Unauthenticated,
    /// The identity belongs to another tenant than the resource.
    TenantMismatch,
    /// The identity's role is below the one required.
    InsufficientRole,
}

impl AuthError {
    /// Failures of authentication (401) as opposed to authorization (403).
    pub open spec fn is_authentication_failure(self) -> bool {
        match self {
            AuthError::TenantMismatch | AuthError::InsufficientRole => false,
            _ => true,
        }
    }

    /// The HTTP status a client receives: 401 or 403, nothing finer.
    pub fn status(&self) -> (r: u16)
        ensures
            self.is_authentication_failure() ==> r == 401,
            !self.is_authentication_failure() ==> r == 403,
    {
        match self {
            AuthError::TenantMismatch | AuthError::InsufficientRole => 403,
            _ => 401,
        }
    }

    /// The generic word of the error body: `unauthorized` or `forbidden`.
    pub fn public_reason(&self) -> (r: &'static str)
        ensures
            self.is_authentication_failure() ==> r@ == "unauthorized"@,
            !self.is_authentication_failure() ==> r@ == "forbidden"@,
    {
        match self {
            AuthError::TenantMismatch | AuthError::InsufficientRole => "forbidden",
            _ => "unauthorized",
        }
    }
}

} // verus!
