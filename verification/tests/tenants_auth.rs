use zn::engine::consensus::WitnessType;
use zn::management::{audit_scope, consensus_witness, logs_limit, policy_file_name, require_super_admin};
use zn::auth::{constant_time_compare, decide_auth, request_token_of, super_admin_context, AuthDecision};
use zn::tenants::{hash_api_key, TenantContext, TenantRole};

#[test]
fn test_constant_time_compare() {
    assert!(constant_time_compare("test", "test"));
    assert!(!constant_time_compare("test", "Test"));
}

#[test]
fn constant_time_compare_lengths_and_bytes() {
    assert!(!constant_time_compare("test", "tests"));
    assert!(constant_time_compare("", ""));
    assert!(constant_time_compare("é", "é"));
    assert!(!constant_time_compare("é", "e"));
}

#[test]
fn test_role_from_str() {
    assert_eq!(TenantRole::parse("superadmin"), TenantRole::SuperAdmin);
    assert_eq!(TenantRole::parse("SUPERADMIN"), TenantRole::SuperAdmin);
    assert_eq!(TenantRole::parse("admin"), TenantRole::Admin);
    assert_eq!(TenantRole::parse("user"), TenantRole::User);
    assert_eq!(TenantRole::parse("viewer"), TenantRole::Viewer);
    assert_eq!(TenantRole::parse("blocked"), TenantRole::Blocked);
    assert_eq!(TenantRole::parse("unknown"), TenantRole::User);
}

#[test]
fn test_role_as_str() {
    assert_eq!(TenantRole::SuperAdmin.as_str(), "superadmin");
    assert_eq!(TenantRole::Admin.as_str(), "admin");
    assert_eq!(TenantRole::User.as_str(), "user");
    assert_eq!(TenantRole::Viewer.as_str(), "viewer");
    assert_eq!(TenantRole::Blocked.as_str(), "blocked");
}

#[test]
fn role_name_round_trips() {
    for r in [
        TenantRole::SuperAdmin,
        TenantRole::Admin,
        TenantRole::User,
        TenantRole::Viewer,
        TenantRole::Blocked,
    ] {
        assert_eq!(TenantRole::parse(r.as_str()), r);
    }
}

#[test]
fn test_tenant_context_permissions() {
    let super_admin = TenantContext {
        id: "1".to_string(),
        name: "Super".to_string(),
        namespace: "global".to_string(),
        role: TenantRole::SuperAdmin,
    };
    let admin = TenantContext {
        id: "2".to_string(),
        name: "Admin".to_string(),
        namespace: "org_a".to_string(),
        role: TenantRole::Admin,
    };
    let user = TenantContext {
        id: "3".to_string(),
        name: "User".to_string(),
        namespace: "org_a".to_string(),
        role: TenantRole::User,
    };
    assert!(super_admin.is_super_admin());
    assert!(super_admin.is_admin());
    assert!(!admin.is_super_admin());
    assert!(admin.is_admin());
    assert!(!user.is_super_admin());
    assert!(!user.is_admin());
}

#[test]
fn test_api_key_hashing() {
    let hash1 = hash_api_key("my_secret_key");
    let hash2 = hash_api_key("my_secret_key");
    let hash3 = hash_api_key("different_key");
    assert_eq!(hash1, hash2);
    assert_ne!(hash1, hash3);
    assert_eq!(hash1.len(), 64);
}

#[test]
fn api_key_hash_is_sha256_hex() {
    assert_eq!(
        hash_api_key("abc"),
        "ba7816bf8f01cfea414140de5dae2223b00361a396177a9cb410ff61f20015ad"
    );
}

#[test]
fn super_admin_context_fields() {
    let c = super_admin_context();
    assert_eq!(c.id, "super-admin");
    assert_eq!(c.name, "Super Admin");
    assert_eq!(c.namespace, "global");
    assert_eq!(c.role, TenantRole::SuperAdmin);
}

#[test]
fn token_from_header_or_query() {
    assert_eq!(request_token_of(Some("Bearer  abc "), None), Some("abc".to_string()));
    assert_eq!(request_token_of(Some("Bearer Bearer x"), None), Some("x".to_string()));
    assert_eq!(request_token_of(None, Some("a=1&token=t0k&api_key=k")), Some("t0k".to_string()));
    assert_eq!(request_token_of(None, Some("api_key=k=v")), Some("k=v".to_string()));
    assert_eq!(request_token_of(None, Some("a=1&b=2")), None);
    assert_eq!(request_token_of(None, None), None);
}

#[test]
fn auth_decisions() {
    assert!(matches!(decide_auth(false, None, None, None, false), AuthDecision::Open));
    assert!(matches!(decide_auth(true, None, Some("k"), None, true), AuthDecision::Unauthorized));
    match decide_auth(true, Some("k"), Some("k"), None, false) {
        AuthDecision::Grant(c) => assert_eq!(c.role, TenantRole::SuperAdmin),
        _ => panic!("legacy key must grant super-admin"),
    }
    let blocked = TenantContext {
        id: "9".to_string(),
        name: "B".to_string(),
        namespace: "b".to_string(),
        role: TenantRole::Blocked,
    };
    assert!(matches!(
        decide_auth(true, Some("x"), Some("k"), Some(blocked), true),
        AuthDecision::Forbidden
    ));
    match decide_auth(true, Some("x"), None, None, true) {
        AuthDecision::Grant(c) => assert_eq!(c.namespace, "global"),
        _ => panic!("valid JWT must grant"),
    }
    assert!(matches!(decide_auth(true, Some("x"), Some("k"), None, false), AuthDecision::Unauthorized));
}

fn ctx(role: TenantRole) -> TenantContext {
    TenantContext {
        id: "7".to_string(),
        name: "Ops".to_string(),
        namespace: "org_a".to_string(),
        role,
    }
}

#[test]
fn management_scopes_by_role() {
    assert_eq!(audit_scope(&ctx(TenantRole::SuperAdmin)), None);
    assert_eq!(audit_scope(&ctx(TenantRole::Admin)), Some("org_a".to_string()));
    assert!(require_super_admin(&ctx(TenantRole::SuperAdmin)).is_ok());
    assert_eq!(
        require_super_admin(&ctx(TenantRole::Admin)),
        Err("Forbidden: SuperAdmin role required".to_string())
    );
    assert!(matches!(consensus_witness(&ctx(TenantRole::Admin)), WitnessType::HumanAdmin(n) if n == "Ops"));
    assert_eq!(policy_file_name("base_security"), "base_security.wasm");
}

#[test]
fn logs_limit_defaults_and_caps() {
    assert_eq!(logs_limit(None), 50);
    assert_eq!(logs_limit(Some("10")), 10);
    assert_eq!(logs_limit(Some("5000")), 500);
    assert_eq!(logs_limit(Some("500")), 500);
    assert_eq!(logs_limit(Some("ten")), 50);
    assert_eq!(logs_limit(Some("-1")), 50);
}
