use zn::config::{
    AuditConfig, CachingConfig, ConfigError, ConsensusConfig, EngineConfig, EnvOverrides,
    FusionSettings, GuardrailSettings, KmsConfig, LoopBreakerConfig, ManagedRulesConfig,
    NeuralSettings, SecurityConfig, ServerConfig, SiemConfig, ZnSettings,
};
use zn::text::{parse_bool, parse_unsigned, split_str};

fn settings() -> ZnSettings {
    ZnSettings {
        environment: "development".to_string(),
        server: ServerConfig::default(),
        security: SecurityConfig::with_environment(None, None, None, None),
        engine: EngineConfig::default(),
        audit: AuditConfig::with_environment(None),
        webhooks: vec![],
        siem: SiemConfig::default(),
        kms: KmsConfig::with_environment(None, None),
        neural: NeuralSettings::default(),
        fusion: FusionSettings::default(),
        managed_rules: ManagedRulesConfig::default(),
        loop_breaker: LoopBreakerConfig::default(),
        caching: CachingConfig::default(),
        consensus: ConsensusConfig::default(),
        guardrails: GuardrailSettings::default(),
    }
}

fn no_env() -> EnvOverrides {
    EnvOverrides {
        env: None,
        port: None,
        api_key: None,
        namespace: None,
        jwt_secret: None,
        allowed_origins: None,
        mcp_ws_token: None,
        gas_limit: None,
        memory_limit: None,
        timeout: None,
        policy_hashes: None,
        signing_public_key: None,
        db_path: None,
        db_key: None,
        siem_endpoint: None,
        siem_token: None,
        kms_type: None,
        kms_key_id: None,
        neural_enabled: None,
        neural_blocking: None,
        alert_only: None,
        paranoia_level: None,
        min_samples: None,
        nearest_neighbor_audit: None,
    }
}

fn s(v: &str) -> Option<String> {
    Some(v.to_string())
}

#[test]
fn parse_unsigned_follows_str_parse() {
    assert_eq!(parse_unsigned("8080", 65535), Some(8080));
    assert_eq!(parse_unsigned("+80", 65535), Some(80));
    assert_eq!(parse_unsigned("007", 255), Some(7));
    assert_eq!(parse_unsigned("65535", 65535), Some(65535));
    assert_eq!(parse_unsigned("65536", 65535), None);
    assert_eq!(parse_unsigned("", 65535), None);
    assert_eq!(parse_unsigned("+", 65535), None);
    assert_eq!(parse_unsigned("-1", 65535), None);
    assert_eq!(parse_unsigned(" 80", 65535), None);
    assert_eq!(parse_unsigned("8a", 65535), None);
    assert_eq!(parse_unsigned("18446744073709551615", u64::MAX), Some(u64::MAX));
    assert_eq!(parse_unsigned("18446744073709551616", u64::MAX), None);
    assert_eq!(parse_unsigned("99999999999999999999999", u64::MAX), None);
}

#[test]
fn parse_bool_accepts_only_true_and_false() {
    assert_eq!(parse_bool("true"), Some(true));
    assert_eq!(parse_bool("false"), Some(false));
    assert_eq!(parse_bool("TRUE"), None);
    assert_eq!(parse_bool("1"), None);
    assert_eq!(parse_bool(""), None);
}

#[test]
fn split_keeps_empty_pieces() {
    assert_eq!(split_str("a,b", ','), vec!["a".to_string(), "b".to_string()]);
    assert_eq!(split_str("", ','), vec!["".to_string()]);
    assert_eq!(split_str(",x,", ','), vec!["".to_string(), "x".to_string(), "".to_string()]);
}

#[test]
fn no_variables_change_nothing() {
    let mut c = settings();
    c.apply_env_overrides(&no_env());
    assert_eq!(c.environment, "development");
    assert_eq!(c.server.port, 9090);
    assert_eq!(c.security.allowed_origins.len(), 4);
    assert_eq!(c.engine.gas_limit, 10_000_000);
    assert!(!c.audit.encryption_enabled);
    assert!(c.neural.enabled);
    assert!(!c.neural.active_blocking);
    assert!(c.guardrails.alert_only);
    assert_eq!(c.guardrails.paranoia_level, 1);
    assert_eq!(c.guardrails.min_samples, 50);
}

#[test]
fn variables_override_settings() {
    let mut c = settings();
    let mut env = no_env();
    env.env = s("production");
    env.port = s("8080");
    env.api_key = s("k");
    env.allowed_origins = s(" https://a.example , https://b.example,");
    env.policy_hashes = s("aa, bb");
    env.gas_limit = s("500");
    env.db_key = s("secret");
    env.kms_type = s("aws");
    env.neural_blocking = s("true");
    env.alert_only = s("false");
    env.min_samples = s("7");
    c.apply_env_overrides(&env);
    assert_eq!(c.environment, "production");
    assert_eq!(c.server.port, 8080);
    assert_eq!(c.security.api_key.as_deref(), Some("k"));
    assert_eq!(
        c.security.allowed_origins,
        vec!["https://a.example".to_string(), "https://b.example".to_string(), "".to_string()]
    );
    assert_eq!(c.engine.allowed_policy_hashes, vec!["aa".to_string(), " bb".to_string()]);
    assert_eq!(c.engine.gas_limit, 500);
    assert!(c.audit.encryption_enabled);
    assert_eq!(c.audit.encryption_key.as_deref(), Some("secret"));
    assert_eq!(c.kms.kms_type, "aws");
    assert!(c.neural.active_blocking);
    assert!(!c.guardrails.alert_only);
    assert!(c.is_neural_blocking());
    assert_eq!(c.guardrails.min_samples, 7);
    assert!(c.validate().is_ok());
}

#[test]
fn unparsable_values_keep_or_fall_back() {
    let mut c = settings();
    c.neural.active_blocking = true;
    c.guardrails.alert_only = false;
    let mut env = no_env();
    env.port = s("70000");
    env.timeout = s("soon");
    env.neural_enabled = s("no");
    env.neural_blocking = s("yes");
    env.alert_only = s("0");
    env.nearest_neighbor_audit = s("off");
    c.apply_env_overrides(&env);
    assert_eq!(c.server.port, 9090);
    assert_eq!(c.engine.timeout_ms, 1000);
    assert!(c.neural.enabled);
    assert!(!c.neural.active_blocking);
    assert!(c.guardrails.alert_only);
    assert!(c.guardrails.nearest_neighbor_audit);
}

#[test]
fn paranoia_level_is_clamped() {
    for (value, expected) in [("9", 5u8), ("0", 1), ("3", 3), ("300", 2), ("x", 2)] {
        let mut c = settings();
        c.guardrails.paranoia_level = 2;
        let mut env = no_env();
        env.paranoia_level = s(value);
        c.apply_env_overrides(&env);
        assert_eq!(c.guardrails.paranoia_level, expected, "value {value}");
    }
}

#[test]
fn production_requires_audit_encryption() {
    let mut c = settings();
    c.environment = "production".to_string();
    assert_eq!(c.validate(), Err(ConfigError::AuditEncryptionRequired));
    c.audit.encryption_enabled = true;
    assert_eq!(c.validate(), Err(ConfigError::AuditEncryptionRequired));
    c.audit.encryption_key = Some("k".to_string());
    assert!(c.validate().is_ok());
}
