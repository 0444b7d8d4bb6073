//! The management API's requests and access decisions: which audit entries
//! a tenant sees, how many log entries a request gets, who may manage
//! tenants, who signs a consensus action, and where a policy file lives.
//! Serving HTTP is left to the application.
use vstd::prelude::*;
use vstd::string::StringExecFns;
use crate::engine::consensus::WitnessType;
use crate::tenants::{TenantContext, TenantRole};
use crate::text::{copy_str, parse_unsigned, parsed_unsigned};

verus! {

/// Request to delete a policy.
pub struct DeletePolicyRequest {
    /// The policy's name (its file without `.wasm`).
    pub name: String,
}

/// Request to create a tenant.
pub struct CreateTenantRequest {
    /// Display name.
    pub name: String,
    /// Namespace of its audit entries.
    pub namespace: String,
    /// Its API key.
    pub api_key: String,
}

/// Request to sign a pending consensus action.
pub struct SignRequest {
    /// The action.
    pub action_id: String,
    /// Optional name of the witness.
    pub witness_name: Option<String>,
}

/// Request to deny a pending consensus action.
pub struct DenyRequest {
    /// The action.
    pub action_id: String,
    /// Why.
    pub reason: String,
}

/// Claims of a management API JWT.
pub struct Claims {
    /// Subject.
    pub sub: String,
    /// Expiry (seconds since the Unix epoch).
    pub exp: usize,
    /// Issue time.
    pub iat: Option<usize>,
    /// Roles.
    pub roles: Option<Vec<String>>,
}

/// The namespace whose audit entries and statistics a tenant sees: every
/// namespace (`None`) for the super-administrator, its own otherwise.
pub fn audit_scope(tenant: &TenantContext) -> (r: Option<String>)
    ensures
        tenant.role == TenantRole::SuperAdmin ==> r is None,
        tenant.role != TenantRole::SuperAdmin ==> (r matches Some(ns) && ns@ == tenant.namespace@),
{
    if tenant.role == TenantRole::SuperAdmin {
        None
    } else {
        Some(copy_str(tenant.namespace.as_str()))
    }
}

/// Default number of log entries of a request.
pub const DEFAULT_LOG_LIMIT: usize = 50;

/// Most log entries of a request.
pub const MAX_LOG_LIMIT: usize = 500;

/// The number of log entries a request gets for its `limit` parameter: the
/// number it holds (as `str::parse` reads it), 50 when it holds none, and
/// never more than 500.
pub fn logs_limit(limit: Option<&str>) -> (n: usize)
    ensures
        n == (match limit {
            Some(t) => match parsed_unsigned(t@, usize::MAX as int) {
                Some(v) => if v < MAX_LOG_LIMIT {
                    v as usize
                } else {
                    MAX_LOG_LIMIT
                },
                None => DEFAULT_LOG_LIMIT,
            },
            None => DEFAULT_LOG_LIMIT,
        }),
{
    let parsed = match limit {
        Some(t) => match parse_unsigned(t, usize::MAX as u64) {
            Some(v) => v as usize,
            None => DEFAULT_LOG_LIMIT,
        },
        None => DEFAULT_LOG_LIMIT,
    };
    if parsed < MAX_LOG_LIMIT {
        parsed
    } else {
        MAX_LOG_LIMIT
    }
}

/// Tenant management is for the super-administrator only; others are
/// refused with the message the API returns.
pub fn require_super_admin(tenant: &TenantContext) -> (r: Result<(), String>)
    ensures
        r is Ok <==> tenant.role == TenantRole::SuperAdmin,
        r matches Err(m) ==> m@ == "Forbidden: SuperAdmin role required"@,
{
    if tenant.role == TenantRole::SuperAdmin {
        Ok(())
    } else {
        Err(copy_str("Forbidden: SuperAdmin role required"))
    }
}

/// The witness a tenant signs a consensus action as: an administrator
/// under the tenant's name.
pub fn consensus_witness(tenant: &TenantContext) -> (w: WitnessType)
    ensures
        w matches WitnessType::HumanAdmin(n) && n@ == tenant.name@,
{
    WitnessType::HumanAdmin(copy_str(tenant.name.as_str()))
}

/// The file of a policy in the policy directory: its name with `.wasm`.
pub fn policy_file_name(name: &str) -> (f: String)
    ensures
        f@ == name@ + ".wasm"@,
{
    let mut f = copy_str(name);
    f.append(".wasm");
    f
}

} // verus!
