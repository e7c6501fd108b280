use vstd::prelude::*;

use crate::claims::Claims;
use crate::context::RequestContext;
use crate::error::AuthError;
use crate::role::Role;

verus! {

/// What a protected operation asks of the identity acting on it.
#[derive(Clone, Copy, Debug, PartialEq, Eq, Structural)]
pub struct Requirement {
    pub minimum_role: Role,
    /// The tenant that owns the resource.
    pub resource_tenant_id: u128,
}

/// The guard's decision: no identity, another tenant, too low a role, in
/// that order of precedence; otherwise allowed.
pub open spec fn decision(identity: Option<Claims>, requirement: Requirement) -> Result<
    (),
    AuthError,
> {
    match identity {
        None => Err(AuthError::Unauthenticated),
        Some(c) => {
            if c.tenant_id != requirement.resource_tenant_id {
                Err(AuthError::TenantMismatch)
            } else if !c.role.covers(requirement.minimum_role) {
                Err(AuthError::InsufficientRole)
            } else {
                Ok(())
            }
        },
    }
}

/// Decides whether `identity` may perform an operation with `requirement`.
pub fn authorize(identity: Option<Claims>, requirement: &Requirement) -> (r: Result<(), AuthError>)
    ensures
        r == decision(identity, *requirement),
{
    match identity {
        None => Err(AuthError::Unauthenticated),
        Some(c) => {
            if c.tenant_id != requirement.resource_tenant_id {
                Err(AuthError::TenantMismatch)
            } else if !c.role.is_sufficient_for(requirement.minimum_role) {
                Err(AuthError::InsufficientRole)
            } else {
                Ok(())
            }
        },
    }
}

impl RequestContext {
    /// The guard applied to the identity of this request.
    pub fn authorize(&self, requirement: &Requirement) -> (r: Result<(), AuthError>)
        ensures
            r == decision(self.identity(), *requirement),
    {
        authorize(self.claims(), requirement)
    }
}

/// Tenancy isolation: an identity never reaches a resource of another tenant,
/// whatever its role (owner included) and whatever role the resource asks for.
pub proof fn other_tenants_are_denied(own: Claims, other: Claims, minimum_role: Role)
    requires
        own.tenant_id != other.tenant_id,
    ensures
        decision(
            Some(own),
            Requirement { minimum_role, resource_tenant_id: other.tenant_id },
        ) == Err::<(), AuthError>(AuthError::TenantMismatch),
{
}

/// A role at least as high as one that the guard lets through is let through
/// as well, for the same tenant and requirement.
pub proof fn higher_roles_are_allowed(low: Claims, high: Claims, requirement: Requirement)
    requires
        decision(Some(low), requirement) is Ok,
        high.tenant_id == low.tenant_id,
        high.role.covers(low.role),
    ensures
        decision(Some(high), requirement) is Ok,
{
}

} // verus!
