use vstd::prelude::*;

use crate::role::Role;

verus! {

/// The identity a verified credential asserts.
#[derive(Clone, Copy, Debug, PartialEq, Eq, Structural)]
pub struct Claims {
    /// The authenticated user, as the 128-bit value of a UUID.
    pub subject_id: u128,
    /// The user's organization, as the 128-bit value of a UUID.
    pub tenant_id: u128,
    pub role: Role,
    /// Absolute expiry instant, in seconds since the Unix epoch.
    pub expires_at: u64,
}

} // verus!
