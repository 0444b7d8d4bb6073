//! Tenants: roles for access control, the context injected into
//! authenticated requests, and the digest under which API keys are stored.
use vstd::prelude::*;
use sha2::{Digest, Sha256};
use crate::text::{all_ascii, ascii_lower, str_eq, to_lowercase, unicode_lowercase};

verus! {

/// Tenant roles for access control.
#[derive(Debug, Clone, Copy, PartialEq, Eq, Structural)]
pub enum TenantRole {
    /// Full platform access.
    SuperAdmin,
    /// Tenant management access.
    Admin,
    /// Normal tenant access.
    User,
    /// Read-only tenant access.
    Viewer,
    /// Access denied.
    Blocked,
}

/// The role a lowercase role name stands for; unknown names are `User`.
pub open spec fn role_of_lowercase(s: Seq<char>) -> TenantRole {
    if s == "superadmin"@ {
        TenantRole::SuperAdmin
    } else if s == "admin"@ {
        TenantRole::Admin
    } else if s == "user"@ {
        TenantRole::User
    } else if s == "viewer"@ {
        TenantRole::Viewer
    } else if s == "blocked"@ {
        TenantRole::Blocked
    } else {
        TenantRole::User
    }
}

/// The stored name of a role.
pub open spec fn role_name(r: TenantRole) -> Seq<char> {
    match r {
        TenantRole::SuperAdmin => "superadmin"@,
        TenantRole::Admin => "admin"@,
        TenantRole::User => "user"@,
        TenantRole::Viewer => "viewer"@,
        TenantRole::Blocked => "blocked"@,
    }
}

impl TenantRole {
    /// The role a name stands for, once lowercased (as `TenantRole::parse`
    /// does after `to_lowercase`): exact names only, unknown names are
    /// `User`.
    pub fn from_lowercase(s: &str) -> (r: TenantRole)
        ensures
            r == role_of_lowercase(s@),
    {
        if str_eq(s, "superadmin") {
            TenantRole::SuperAdmin
        } else if str_eq(s, "admin") {
            TenantRole::Admin
        } else if str_eq(s, "user") {
            TenantRole::User
        } else if str_eq(s, "viewer") {
            TenantRole::Viewer
        } else if str_eq(s, "blocked") {
            TenantRole::Blocked
        } else {
            TenantRole::User
        }
    }

    /// Parses a role name, ignoring case; unknown names are `User`.
    pub fn parse(s: &str) -> (r: TenantRole)
        ensures
            r == role_of_lowercase(unicode_lowercase(s@)),
            all_ascii(s@) ==> r == role_of_lowercase(s@.map_values(|c: char| ascii_lower(c))),
    {
        let lower = to_lowercase(s);
        TenantRole::from_lowercase(lower.as_str())
    }

    /// The stored name of the role.
    pub fn as_str(&self) -> (s: &'static str)
        ensures
            s@ == role_name(*self),
    {
        match self {
            TenantRole::SuperAdmin => "superadmin",
            TenantRole::Admin => "admin",
            TenantRole::User => "user",
            TenantRole::Viewer => "viewer",
            TenantRole::Blocked => "blocked",
        }
    }
}

/// Law: parsing the stored name of a role gives the role back. The name is
/// ASCII and already lowercase, so `TenantRole::parse` (by its second
/// clause) returns `role_of_lowercase(role_name(r))`, which is `r`.
pub proof fn lemma_role_name_roundtrip(r: TenantRole)
    ensures
        role_of_lowercase(role_name(r)) == r,
        all_ascii(role_name(r)),
        role_name(r).map_values(|c: char| ascii_lower(c)) == role_name(r),
{
    reveal_strlit("superadmin");
    reveal_strlit("admin");
    reveal_strlit("user");
    reveal_strlit("viewer");
    reveal_strlit("blocked");
    assert(role_name(r).map_values(|c: char| ascii_lower(c)) =~= role_name(r));
}

/// Represents a tenant (organization or user) in the system.
pub struct Tenant {
    pub id: String,
    pub name: String,
    pub namespace: String,
    pub api_key: String,
    pub role: TenantRole,
    pub created_at: String,
}

/// Context injected into requests after authentication.
pub struct TenantContext {
    pub id: String,
    pub name: String,
    pub namespace: String,
    pub role: TenantRole,
}

impl TenantContext {
    /// Whether the tenant is the platform super-administrator.
    pub fn is_super_admin(&self) -> (b: bool)
        ensures
            b == (self.role == TenantRole::SuperAdmin),
    {
        self.role == TenantRole::SuperAdmin
    }

    /// Whether the tenant may manage tenants: administrators and the
    /// super-administrator.
    pub fn is_admin(&self) -> (b: bool)
        ensures
            b == (self.role == TenantRole::Admin || self.role == TenantRole::SuperAdmin),
    {
        self.role == TenantRole::Admin || self.role == TenantRole::SuperAdmin
    }
}

/// Law: every super-administrator is an administrator.
pub proof fn lemma_super_admin_is_admin(role: TenantRole)
    ensures
        role == TenantRole::SuperAdmin ==> (role == TenantRole::Admin || role == TenantRole::SuperAdmin),
{
}

// ---------------------------------------------------------------------------
// API key digests
// ---------------------------------------------------------------------------

/// The SHA-256 digest of `data` (what `sha2::Sha256::digest` returns).
pub uninterp spec fn sha256(data: Seq<u8>) -> Seq<u8>;

/// The lowercase hexadecimal digit for `d < 16`.
pub open spec fn hex_digit(d: int) -> char {
    if d < 10 {
        (48 + d) as char
    } else {
        (87 + d) as char
    }
}

/// Lowercase hexadecimal encoding: two digits per byte, high nibble first.
pub open spec fn hex_lower(data: Seq<u8>) -> Seq<char>
    decreases data.len(),
{
    if data.len() == 0 {
        Seq::empty()
    } else {
        hex_lower(data.drop_last()) + seq![
            hex_digit(data.last() as int / 16),
            hex_digit(data.last() as int % 16),
        ]
    }
}

/// `sha2::Sha256::digest`: the SHA-256 digest of `data`. The contract names
/// the result and claims its documented length of 32 bytes.
#[verifier::external_body]
pub(crate) fn sha256_digest(data: &[u8]) -> (r: Vec<u8>)
    ensures
        r@ == sha256(data@),
        r@.len() == 32,
{
    Sha256::digest(data).to_vec()
}

/// `hex::encode`: the lowercase hexadecimal encoding of `data`, two digits
/// per byte, high nibble first.
#[verifier::external_body]
pub(crate) fn hex_encode(data: &[u8]) -> (r: String)
    ensures
        r@ == hex_lower(data@),
{
    hex::encode(data)
}

/// Hex encoding has two digits per byte.
pub proof fn lemma_hex_len(data: Seq<u8>)
    ensures
        hex_lower(data).len() == 2 * data.len(),
    decreases data.len(),
{
    if data.len() > 0 {
        lemma_hex_len(data.drop_last());
    }
}

/// The digest under which an API key is stored: the lowercase hex SHA-256
/// of its UTF-8 bytes, 64 characters long.
pub fn hash_api_key(key: &str) -> (h: String)
    ensures
        h@ == hex_lower(sha256(vstd::utf8::encode_utf8(key@))),
        h@.len() == 64,
{
    let digest = sha256_digest(key.as_bytes());
    proof {
        lemma_hex_len(digest@);
    }
    hex_encode(digest.as_slice())
}

} // verus!
