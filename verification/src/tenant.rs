//! Multi-tenant request context for the service front end.

use vstd::prelude::*;

verus! {

/// The tenant identity extracted from an authenticated request; every
/// stored query is filtered by its tenant.
#[derive(Clone)]
pub struct TenantContext {
    /// The tenant the request acts within.
    pub tenant_id: String,
    /// The authenticated user.
    pub user_id: String,
    /// The user's role names.
    pub roles: Vec<String>,
}

impl TenantContext {
    /// Bundle an extracted identity.
    pub fn new(tenant_id: String, user_id: String, roles: Vec<String>) -> (r: Self)
        ensures
            r.tenant_id@ == tenant_id@,
            r.user_id@ == user_id@,
            r.roles@ == roles@,
    {
        TenantContext { tenant_id, user_id, roles }
    }
}

} // verus!
