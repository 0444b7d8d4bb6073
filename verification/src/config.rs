//! Configuration model of zn: server, security, WASM engine, audit,
//! SIEM export, key management, managed rule sets, loop breaker, result
//! caching and M-of-N consensus, with their defaults.
//!
//! Values that come from the process environment (API keys, namespaces,
//! secrets) are handed in by the caller.
use vstd::prelude::*;
use crate::jsonrpc::opt_text;
use crate::text::{
    copy_str, parse_bool, parse_unsigned, parsed_bool, parsed_unsigned, split_on, split_str,
    strings_view, trim, trim_str,
};
use crate::webhooks::WebhookConfig;

verus! {

/// Default deployment environment.
pub fn default_environment() -> (s: String)
    ensures
        s@ == "development"@,
{
    copy_str("development")
}

/// Default management API port.
pub fn default_port() -> (p: u16)
    ensures
        p == 9090,
{
    9090
}

/// Default bind address.
pub fn default_bind_address() -> (s: String)
    ensures
        s@ == "127.0.0.1"@,
{
    copy_str("127.0.0.1")
}

/// Default broadcast channel capacity.
pub fn default_channel_capacity() -> (c: usize)
    ensures
        c == 100,
{
    100
}

/// `true`, the default of the switches that are on unless configured.
pub fn default_true() -> (b: bool)
    ensures
        b,
{
    true
}

/// `false`, the default of the switches that are off unless configured.
pub fn default_false() -> (b: bool)
    ensures
        !b,
{
    false
}

/// Default maximum requests per minute per client.
pub fn default_rate_limit() -> (r: u32)
    ensures
        r == 60,
{
    60
}

/// Default gas limit for WASM policy execution.
pub fn default_gas_limit() -> (g: u64)
    ensures
        g == 10_000_000,
{
    10_000_000
}

/// Default WASM memory limit, in MB.
pub fn default_memory_limit() -> (m: u64)
    ensures
        m == 128,
{
    128
}

/// Default WASM execution timeout, in milliseconds.
pub fn default_timeout() -> (t: u64)
    ensures
        t == 1000,
{
    1000
}

/// Default policy directory.
pub fn default_policy_dir() -> (s: String)
    ensures
        s@ == "./policies_bin"@,
{
    copy_str("./policies_bin")
}

/// Default audit database path.
pub fn default_db_path() -> (s: String)
    ensures
        s@ == "zn.db"@,
{
    copy_str("zn.db")
}

/// Default number of audit entries kept in memory for the dashboard.
pub fn default_max_logs() -> (n: usize)
    ensures
        n == 50,
{
    50
}

/// Default SIEM export batch size.
pub fn default_batch_size() -> (n: usize)
    ensures
        n == 10,
{
    10
}

/// Default key management service type.
pub fn default_kms_type() -> (s: String)
    ensures
        s@ == "local"@,
{
    copy_str("local")
}

/// Default embedding model id.
pub fn default_neural_model() -> (s: String)
    ensures
        s@ == "all-MiniLM-L6-v2"@,
{
    copy_str("all-MiniLM-L6-v2")
}

/// Default local cache directory of the embedding model.
pub fn default_neural_model_path() -> (s: String)
    ensures
        s@ == "~/.zn/models/all-MiniLM-L6-v2"@,
{
    copy_str("~/.zn/models/all-MiniLM-L6-v2")
}

/// Default embedding dimension.
pub fn default_neural_dim() -> (n: usize)
    ensures
        n == 384,
{
    384
}

/// Default model directory of the fusion gate.
pub fn default_fusion_model_path() -> (s: String)
    ensures
        s@ == "~/.zn/models/zn-minilm-l6-v2-sec-1787474325"@,
{
    copy_str("~/.zn/models/zn-minilm-l6-v2-sec-1787474325")
}

/// Default model version id of the fusion gate.
pub fn default_fusion_model_id() -> (s: String)
    ensures
        s@ == "zn-minilm-l6-v2-sec-1787474325"@,
{
    copy_str("zn-minilm-l6-v2-sec-1787474325")
}

/// Default maximum number of identical repeated tool calls.
pub fn default_max_repeats() -> (n: usize)
    ensures
        n == 3,
{
    3
}

/// Default repeat-detection window, in seconds.
pub fn default_window() -> (n: u64)
    ensures
        n == 60,
{
    60
}

/// Default cache time-to-live, in seconds.
pub fn default_ttl() -> (n: u64)
    ensures
        n == 300,
{
    300
}

/// Default number of required consensus signatures (M).
pub fn default_m() -> (n: u32)
    ensures
        n == 2,
{
    2
}

/// Default paranoia level.
pub fn default_paranoia_level() -> (n: u8)
    ensures
        n == 1,
{
    1
}

/// Default minimum number of samples before the FPR guard may roll back.
pub fn default_min_samples() -> (n: u64)
    ensures
        n == 50,
{
    50
}

/// Server-related configuration.
pub struct ServerConfig {
    /// Management API port.
    pub port: u16,
    /// Bind address.
    pub bind_address: String,
    /// Broadcast channel capacity.
    pub channel_capacity: usize,
}

impl Default for ServerConfig {
    fn default() -> (c: Self)
        ensures
            c.port == 9090,
            c.bind_address@ == "127.0.0.1"@,
            c.channel_capacity == 100,
    {
        ServerConfig {
            port: default_port(),
            bind_address: default_bind_address(),
            channel_capacity: default_channel_capacity(),
        }
    }
}

/// Security-related configuration.
pub struct SecurityConfig {
    /// API key for authentication (None disables it).
    pub api_key: Option<String>,
    /// Allowed CORS and WebSocket origins (empty: only localhost).
    pub allowed_origins: Vec<String>,
    /// Whether rate limiting is on.
    pub rate_limit_enabled: bool,
    /// Maximum requests per minute per client.
    pub rate_limit_per_minute: u32,
    /// Multi-tenant namespace.
    pub namespace: Option<String>,
    /// Secret for JWT validation.
    pub jwt_secret: Option<String>,
    /// Token for MCP WebSocket authentication.
    pub mcp_ws_token: Option<String>,
}

/// The origins allowed by default: the dashboard and the management API on
/// localhost.
pub open spec fn default_origins() -> Seq<Seq<char>> {
    seq![
        "http://localhost:5173"@,
        "http://localhost:9090"@,
        "http://127.0.0.1:5173"@,
        "http://127.0.0.1:9090"@,
    ]
}

impl SecurityConfig {
    /// The default security configuration, with the API key, namespace, JWT
    /// secret and MCP WebSocket token taken from the environment by the
    /// caller (`ZN_API_KEY`, `ZN_NAMESPACE`, `ZN_JWT_SECRET`,
    /// `ZN_MCP_WS_TOKEN`).
    pub fn with_environment(
        api_key: Option<String>,
        namespace: Option<String>,
        jwt_secret: Option<String>,
        mcp_ws_token: Option<String>,
    ) -> (c: Self)
        ensures
            c.api_key == api_key,
            c.namespace == namespace,
            c.jwt_secret == jwt_secret,
            c.mcp_ws_token == mcp_ws_token,
            c.allowed_origins@.map_values(|s: String| s@) == default_origins(),
            c.rate_limit_enabled,
            c.rate_limit_per_minute == 60,
    {
        let origins = vec![
            copy_str("http://localhost:5173"),
            copy_str("http://localhost:9090"),
            copy_str("http://127.0.0.1:5173"),
            copy_str("http://127.0.0.1:9090"),
        ];
        assert(origins@.map_values(|s: String| s@) =~= default_origins());
        SecurityConfig {
            api_key,
            allowed_origins: origins,
            rate_limit_enabled: true,
            rate_limit_per_minute: default_rate_limit(),
            namespace,
            jwt_secret,
            mcp_ws_token,
        }
    }
}

/// WASM engine configuration.
pub struct EngineConfig {
    /// Gas limit for WASM policy execution.
    pub gas_limit: u64,
    /// Max memory for WASM (MB).
    pub memory_limit_mb: u64,
    /// Execution timeout (ms).
    pub timeout_ms: u64,
    /// Allowed policy SHA-256 hashes (hex).
    pub allowed_policy_hashes: Vec<String>,
    /// Public key for Ed25519 signature verification (hex).
    pub signing_public_key: Option<String>,
    /// Policy directory path.
    pub policy_dir: String,
}

impl Default for EngineConfig {
    fn default() -> (c: Self)
        ensures
            c.gas_limit == 10_000_000,
            c.memory_limit_mb == 128,
            c.timeout_ms == 1000,
            c.allowed_policy_hashes@.len() == 0,
            c.signing_public_key is None,
            c.policy_dir@ == "./policies_bin"@,
    {
        EngineConfig {
            gas_limit: default_gas_limit(),
            memory_limit_mb: default_memory_limit(),
            timeout_ms: default_timeout(),
            allowed_policy_hashes: Vec::new(),
            signing_public_key: None,
            policy_dir: default_policy_dir(),
        }
    }
}

/// Audit configuration.
pub struct AuditConfig {
    /// Database file path.
    pub db_path: String,
    /// Maximum logs to keep in memory for the dashboard.
    pub max_logs_in_memory: usize,
    /// Whether database encryption is on (requires a key).
    pub encryption_enabled: bool,
    /// Database encryption key.
    pub encryption_key: Option<String>,
}

impl AuditConfig {
    /// The default audit configuration, with the encryption key taken from
    /// the environment by the caller (`ZN_DB_KEY`).
    pub fn with_environment(encryption_key: Option<String>) -> (c: Self)
        ensures
            c.db_path@ == "zn.db"@,
            c.max_logs_in_memory == 50,
            !c.encryption_enabled,
            c.encryption_key == encryption_key,
    {
        AuditConfig {
            db_path: default_db_path(),
            max_logs_in_memory: default_max_logs(),
            encryption_enabled: false,
            encryption_key,
        }
    }
}

/// SIEM (external audit export) configuration.
pub struct SiemConfig {
    /// External SIEM endpoint (HTTP/HTTPS).
    pub endpoint: Option<String>,
    /// Authentication token for the SIEM.
    pub token: Option<String>,
    /// Export batch size.
    pub batch_size: usize,
}

impl Default for SiemConfig {
    fn default() -> (c: Self)
        ensures
            c.endpoint is None,
            c.token is None,
            c.batch_size == 0,
    {
        SiemConfig { endpoint: None, token: None, batch_size: 0 }
    }
}

/// Key management service configuration.
pub struct KmsConfig {
    /// Type of KMS to use (local, aws, gcp, vaults).
    pub kms_type: String,
    /// Key id / ARN.
    pub key_id: Option<String>,
    /// Region (if applicable).
    pub region: Option<String>,
}

impl KmsConfig {
    /// The default KMS configuration, with the key id and region taken from
    /// the environment by the caller (`ZN_KMS_KEY_ID`, `ZN_KMS_REGION`).
    pub fn with_environment(key_id: Option<String>, region: Option<String>) -> (c: Self)
        ensures
            c.kms_type@ == "local"@,
            c.key_id == key_id,
            c.region == region,
    {
        KmsConfig { kms_type: default_kms_type(), key_id, region }
    }
}

/// Managed rule sets: which of the built-in guards run on each tool call.
pub struct ManagedRulesConfig {
    /// PII redaction.
    pub pii_redaction: bool,
    /// Local file inclusion protection.
    pub lfi_protection: bool,
    /// SQL injection protection.
    pub sql_injection: bool,
    /// Prompt injection protection.
    pub prompt_injection: bool,
    /// Blocking of dangerous system commands (rm, format, ...).
    pub restricted_commands: bool,
    /// Multimodal OCR and visual PII redaction.
    pub visual_pii_redaction: bool,
}

impl Default for ManagedRulesConfig {
    fn default() -> (c: Self)
        ensures
            c.pii_redaction,
            c.lfi_protection,
            c.sql_injection,
            c.prompt_injection,
            c.restricted_commands,
            !c.visual_pii_redaction,
    {
        ManagedRulesConfig {
            pii_redaction: true,
            lfi_protection: true,
            sql_injection: true,
            prompt_injection: true,
            restricted_commands: true,
            visual_pii_redaction: false,
        }
    }
}

/// Loop breaker configuration.
pub struct LoopBreakerConfig {
    /// Whether detection of infinite tool loops is on.
    pub enabled: bool,
    /// Maximum number of times the same tool and arguments may be called.
    pub max_repeats: usize,
    /// Time window for repeat detection (seconds).
    pub window_seconds: u64,
}

impl Default for LoopBreakerConfig {
    fn default() -> (c: Self)
        ensures
            c.enabled,
            c.max_repeats == 3,
            c.window_seconds == 60,
    {
        LoopBreakerConfig { enabled: true, max_repeats: 3, window_seconds: 60 }
    }
}

/// Tool result caching configuration.
pub struct CachingConfig {
    /// Whether tool result caching is on.
    pub enabled: bool,
    /// Cache time-to-live (seconds).
    pub ttl_seconds: u64,
}

impl Default for CachingConfig {
    fn default() -> (c: Self)
        ensures
            !c.enabled,
            c.ttl_seconds == 300,
    {
        CachingConfig { enabled: false, ttl_seconds: 300 }
    }
}

/// M-of-N consensus authorization configuration.
pub struct ConsensusConfig {
    /// Whether multi-signature consensus for critical tools is on.
    pub enabled: bool,
    /// Tool patterns that require consensus (`admin:*` matches by prefix).
    pub critical_tools: Vec<String>,
    /// Number of required signatures (M).
    pub required_signatures: u32,
    /// Whether the neural core may act as one witness.
    pub neural_as_witness: bool,
}

impl Default for ConsensusConfig {
    fn default() -> (c: Self)
        ensures
            !c.enabled,
            c.critical_tools@.len() == 0,
            c.required_signatures == 2,
            c.neural_as_witness,
    {
        ConsensusConfig {
            enabled: false,
            critical_tools: Vec::new(),
            required_signatures: 2,
            neural_as_witness: true,
        }
    }
}

/// Error of configuration validation.
#[derive(Debug, PartialEq, Eq, Structural)]
pub enum ConfigError {
    /// Production without an audit encryption key.
    AuditEncryptionRequired,
}

impl ConfigError {
    /// The message of the error.
    pub fn message(&self) -> (s: String)
        ensures
            s@ == "Audit log encryption is MANDATORY in production. Please set ZN_DB_KEY."@,
    {
        copy_str("Audit log encryption is MANDATORY in production. Please set ZN_DB_KEY.")
    }
}

/// Whether the configuration is acceptable: outside production anything
/// goes; in production the audit log must be encrypted with a key.
pub open spec fn settings_valid(environment: Seq<char>, audit_encryption: bool, has_key: bool) -> bool {
    environment != "production"@ || (audit_encryption && has_key)
}

/// Validates the settings that [`ZnSettings::validate`] checks: audit log
/// encryption with a key is mandatory in production.
pub fn validate_settings(environment: &str, audit: &AuditConfig) -> (r: Result<(), ConfigError>)
    ensures
        r is Ok <==> settings_valid(environment@, audit.encryption_enabled, audit.encryption_key is Some),
        r matches Err(e) ==> e == ConfigError::AuditEncryptionRequired,
{
    let production = crate::text::str_eq(environment, "production");
    if production && (!audit.encryption_enabled || audit.encryption_key.is_none()) {
        return Err(ConfigError::AuditEncryptionRequired);
    }
    Ok(())
}

/// Whether the neural layer blocks rather than only alerts: alert-only mode
/// off and active blocking on.
pub fn neural_blocking(alert_only: bool, active_blocking: bool) -> (r: bool)
    ensures
        r == (!alert_only && active_blocking),
{
    !alert_only && active_blocking
}


/// The neural layer's switches and model location; its float thresholds
/// are kept by the caller.
pub struct NeuralSettings {
    /// Whether neural analysis runs.
    pub enabled: bool,
    /// Whether requests over the threshold are blocked (else only alerted).
    pub active_blocking: bool,
    /// Embedding model id.
    pub model_id: String,
    /// Local cache directory of the model files.
    pub model_path: String,
    /// Embedding dimension.
    pub dim: usize,
}

/// The fusion gate's switch and model; its threshold is kept by the caller.
pub struct FusionSettings {
    /// Whether the fusion gate is on.
    pub enabled: bool,
    /// Directory of the fusion model.
    pub model_path: String,
    /// Model version id.
    pub model_id: String,
}

/// Guardrails of the paranoid modes; the FPR margin is kept by the caller.
pub struct GuardrailSettings {
    /// Neural anomalies only alert, never block.
    pub alert_only: bool,
    /// Paranoia level, 1 to 5.
    pub paranoia_level: u8,
    /// Samples needed before the FPR guard may roll back.
    pub min_samples: u64,
    /// Whether nearest-neighbour audit logging is on.
    pub nearest_neighbor_audit: bool,
}

impl Default for NeuralSettings {
    fn default() -> (c: Self)
        ensures
            c.enabled,
            !c.active_blocking,
            c.model_id@ == "all-MiniLM-L6-v2"@,
            c.model_path@ == "~/.zn/models/all-MiniLM-L6-v2"@,
            c.dim == 384,
    {
        NeuralSettings {
            enabled: true,
            active_blocking: false,
            model_id: default_neural_model(),
            model_path: default_neural_model_path(),
            dim: default_neural_dim(),
        }
    }
}

impl Default for FusionSettings {
    fn default() -> (c: Self)
        ensures
            !c.enabled,
            c.model_path@ == "~/.zn/models/zn-minilm-l6-v2-sec-1787474325"@,
            c.model_id@ == "zn-minilm-l6-v2-sec-1787474325"@,
    {
        FusionSettings {
            enabled: false,
            model_path: default_fusion_model_path(),
            model_id: default_fusion_model_id(),
        }
    }
}

impl Default for GuardrailSettings {
    fn default() -> (c: Self)
        ensures
            c.alert_only,
            c.paranoia_level == 1,
            c.min_samples == 50,
            c.nearest_neighbor_audit,
    {
        GuardrailSettings {
            alert_only: true,
            paranoia_level: default_paranoia_level(),
            min_samples: default_min_samples(),
            nearest_neighbor_audit: true,
        }
    }
}

/// The whole configuration of zn, every section but the float thresholds.
pub struct ZnSettings {
    /// Deployment environment (`development`, `production`).
    pub environment: String,
    /// Server section.
    pub server: ServerConfig,
    /// Security section.
    pub security: SecurityConfig,
    /// WASM engine section.
    pub engine: EngineConfig,
    /// Audit section.
    pub audit: AuditConfig,
    /// Alert webhooks.
    pub webhooks: Vec<WebhookConfig>,
    /// SIEM export section.
    pub siem: SiemConfig,
    /// Key management section.
    pub kms: KmsConfig,
    /// Neural layer section.
    pub neural: NeuralSettings,
    /// Fusion gate section.
    pub fusion: FusionSettings,
    /// Managed rule sets.
    pub managed_rules: ManagedRulesConfig,
    /// Loop breaker section.
    pub loop_breaker: LoopBreakerConfig,
    /// Result caching section.
    pub caching: CachingConfig,
    /// Consensus section.
    pub consensus: ConsensusConfig,
    /// Guardrails section.
    pub guardrails: GuardrailSettings,
}

/// The environment variables that override the configuration, each as read
/// (`None` when unset).
pub struct EnvOverrides {
    /// `ZN_ENV`
    pub env: Option<String>,
    /// `ZN_PORT`
    pub port: Option<String>,
    /// `ZN_API_KEY`
    pub api_key: Option<String>,
    /// `ZN_NAMESPACE`
    pub namespace: Option<String>,
    /// `ZN_JWT_SECRET`
    pub jwt_secret: Option<String>,
    /// `ZN_ALLOWED_ORIGINS`
    pub allowed_origins: Option<String>,
    /// `ZN_MCP_WS_TOKEN`
    pub mcp_ws_token: Option<String>,
    /// `ZN_GAS_LIMIT`
    pub gas_limit: Option<String>,
    /// `ZN_MEMORY_LIMIT`
    pub memory_limit: Option<String>,
    /// `ZN_TIMEOUT`
    pub timeout: Option<String>,
    /// `ZN_POLICY_HASHES`
    pub policy_hashes: Option<String>,
    /// `ZN_SIGNING_PUBLIC_KEY`
    pub signing_public_key: Option<String>,
    /// `ZN_DB_PATH`
    pub db_path: Option<String>,
    /// `ZN_DB_KEY`
    pub db_key: Option<String>,
    /// `ZN_SIEM_ENDPOINT`
    pub siem_endpoint: Option<String>,
    /// `ZN_SIEM_TOKEN`
    pub siem_token: Option<String>,
    /// `ZN_KMS_TYPE`
    pub kms_type: Option<String>,
    /// `ZN_KMS_KEY_ID`
    pub kms_key_id: Option<String>,
    /// `ZN_NEURAL_ENABLED`
    pub neural_enabled: Option<String>,
    /// `ZN_NEURAL_BLOCKING`
    pub neural_blocking: Option<String>,
    /// `ZN_GUARDRAILS_ALERT_ONLY`
    pub alert_only: Option<String>,
    /// `ZN_PARANOIA_LEVEL`
    pub paranoia_level: Option<String>,
    /// `ZN_MIN_SAMPLES`
    pub min_samples: Option<String>,
    /// `ZN_NEAREST_NEIGHBOR_AUDIT`
    pub nearest_neighbor_audit: Option<String>,
}

/// A text setting after its variable: the variable's value when set.
pub open spec fn env_text(var: Option<String>, current: Seq<char>) -> Seq<char> {
    match var {
        Some(v) => v@,
        None => current,
    }
}

/// An optional text setting after its variable: the variable's value when
/// set.
pub open spec fn env_opt_text(var: Option<String>, current: Option<Seq<char>>) -> Option<Seq<char>> {
    match var {
        Some(v) => Some(v@),
        None => current,
    }
}

/// A numeric setting after its variable: the number the variable holds
/// when it parses as one no larger than `max`, else unchanged.
pub open spec fn env_number(var: Option<String>, max: int, current: int) -> int {
    match var {
        Some(v) => match parsed_unsigned(v@, max) {
            Some(n) => n as int,
            None => current,
        },
        None => current,
    }
}

/// A flag after its variable: `true`/`false` when it holds one of them,
/// `fallback` when it holds anything else, unchanged when unset.
pub open spec fn env_flag(var: Option<String>, fallback: bool, current: bool) -> bool {
    match var {
        Some(v) => match parsed_bool(v@) {
            Some(b) => b,
            None => fallback,
        },
        None => current,
    }
}

/// A list setting after its variable: the variable split at commas, each
/// piece trimmed when `trimmed`.
pub open spec fn env_list(var: Option<String>, trimmed: bool, current: Seq<Seq<char>>) -> Seq<Seq<char>> {
    match var {
        Some(v) => if trimmed {
            split_on(v@, ',').map_values(|p: Seq<char>| trim(p))
        } else {
            split_on(v@, ',')
        },
        None => current,
    }
}

/// The paranoia level after `ZN_PARANOIA_LEVEL`: a `u8` value clamped to
/// 1..=5, else unchanged.
pub open spec fn env_paranoia(var: Option<String>, current: int) -> int {
    match var {
        Some(v) => match parsed_unsigned(v@, 255) {
            Some(n) => if n < 1 {
                1
            } else if n > 5 {
                5
            } else {
                n as int
            },
            None => current,
        },
        None => current,
    }
}

/// Law: the environment overrides are idempotent. Applying the same
/// variables a second time leaves every setting as the first application
/// left it.
pub proof fn lemma_env_overrides_idempotent(
    var: Option<String>,
    text: Seq<char>,
    opt: Option<Seq<char>>,
    max: int,
    number: int,
    fallback: bool,
    flag: bool,
    trimmed: bool,
    list: Seq<Seq<char>>,
)
    ensures
        env_text(var, env_text(var, text)) == env_text(var, text),
        env_opt_text(var, env_opt_text(var, opt)) == env_opt_text(var, opt),
        env_number(var, max, env_number(var, max, number)) == env_number(var, max, number),
        env_flag(var, fallback, env_flag(var, fallback, flag)) == env_flag(var, fallback, flag),
        env_list(var, trimmed, env_list(var, trimmed, list)) == env_list(var, trimmed, list),
        env_paranoia(var, env_paranoia(var, number)) == env_paranoia(var, number),
{
}

fn opt_copy(v: &Option<String>) -> (r: Option<String>)
    ensures
        opt_text(r) == opt_text(*v),
{
    match v {
        Some(s) => Some(copy_str(s.as_str())),
        None => None,
    }
}

fn number_or(var: &Option<String>, max: u64, current: u64) -> (r: u64)
    requires
        current <= max,
    ensures
        r as int == env_number(*var, max as int, current as int),
{
    match var {
        Some(v) => match parse_unsigned(v.as_str(), max) {
            Some(n) => n,
            None => current,
        },
        None => current,
    }
}

fn flag_or(var: &Option<String>, fallback: bool, current: bool) -> (r: bool)
    ensures
        r == env_flag(*var, fallback, current),
{
    match var {
        Some(v) => match parse_bool(v.as_str()) {
            Some(b) => b,
            None => fallback,
        },
        None => current,
    }
}

fn trimmed_pieces(s: &str) -> (r: Vec<String>)
    ensures
        strings_view(r@) == split_on(s@, ',').map_values(|p: Seq<char>| trim(p)),
{
    let parts = split_str(s, ',');
    let mut out: Vec<String> = Vec::new();
    let mut i: usize = 0;
    while i < parts.len()
        invariant
            i <= parts.len(),
            strings_view(parts@) == split_on(s@, ','),
            strings_view(out@) == strings_view(parts@).take(i as int).map_values(
                |p: Seq<char>| trim(p),
            ),
        decreases parts.len() - i,
    {
        let t = trim_str(parts[i].as_str());
        let ghost before = strings_view(out@);
        out.push(t);
        assert(strings_view(out@) =~= before.push(t@));
        assert(strings_view(parts@).take(i + 1) =~= strings_view(parts@).take(i as int).push(
            parts@[i as int]@,
        ));
        i = i + 1;
        assert(strings_view(out@) =~= strings_view(parts@).take(i as int).map_values(
            |p: Seq<char>| trim(p),
        ));
    }
    assert(strings_view(parts@).take(i as int) =~= strings_view(parts@));
    out
}

fn override_security(c: &mut SecurityConfig, env: &EnvOverrides)
    ensures
        opt_text(final(c).api_key) == env_opt_text(env.api_key, opt_text(old(c).api_key)),
        opt_text(final(c).namespace) == env_opt_text(env.namespace, opt_text(old(c).namespace)),
        opt_text(final(c).jwt_secret) == env_opt_text(env.jwt_secret, opt_text(old(c).jwt_secret)),
        opt_text(final(c).mcp_ws_token) == env_opt_text(env.mcp_ws_token, opt_text(old(c).mcp_ws_token)),
        strings_view(final(c).allowed_origins@) == env_list(env.allowed_origins, true, strings_view(old(c).allowed_origins@)),
        final(c).rate_limit_enabled == old(c).rate_limit_enabled,
        final(c).rate_limit_per_minute == old(c).rate_limit_per_minute,
{
    if env.api_key.is_some() {
        c.api_key = opt_copy(&env.api_key);
    }
    if env.namespace.is_some() {
        c.namespace = opt_copy(&env.namespace);
    }
    if env.jwt_secret.is_some() {
        c.jwt_secret = opt_copy(&env.jwt_secret);
    }
    if let Some(v) = &env.allowed_origins {
        c.allowed_origins = trimmed_pieces(v.as_str());
    }
    if env.mcp_ws_token.is_some() {
        c.mcp_ws_token = opt_copy(&env.mcp_ws_token);
    }
}

fn override_engine(c: &mut EngineConfig, env: &EnvOverrides)
    ensures
        final(c).gas_limit as int == env_number(env.gas_limit, u64::MAX as int, old(c).gas_limit as int),
        final(c).memory_limit_mb as int == env_number(env.memory_limit, u64::MAX as int, old(c).memory_limit_mb as int),
        final(c).timeout_ms as int == env_number(env.timeout, u64::MAX as int, old(c).timeout_ms as int),
        strings_view(final(c).allowed_policy_hashes@) == env_list(env.policy_hashes, false, strings_view(old(c).allowed_policy_hashes@)),
        opt_text(final(c).signing_public_key) == env_opt_text(env.signing_public_key, opt_text(old(c).signing_public_key)),
        final(c).policy_dir == old(c).policy_dir,
{
    c.gas_limit = number_or(&env.gas_limit, u64::MAX, c.gas_limit);
    c.memory_limit_mb = number_or(&env.memory_limit, u64::MAX, c.memory_limit_mb);
    c.timeout_ms = number_or(&env.timeout, u64::MAX, c.timeout_ms);
    if let Some(v) = &env.policy_hashes {
        c.allowed_policy_hashes = split_str(v.as_str(), ',');
    }
    if env.signing_public_key.is_some() {
        c.signing_public_key = opt_copy(&env.signing_public_key);
    }
}

fn override_stores(audit: &mut AuditConfig, siem: &mut SiemConfig, kms: &mut KmsConfig, env: &EnvOverrides)
    ensures
        final(audit).db_path@ == env_text(env.db_path, old(audit).db_path@),
        opt_text(final(audit).encryption_key) == env_opt_text(env.db_key, opt_text(old(audit).encryption_key)),
        final(audit).encryption_enabled == (env.db_key is Some || old(audit).encryption_enabled),
        final(audit).max_logs_in_memory == old(audit).max_logs_in_memory,
        opt_text(final(siem).endpoint) == env_opt_text(env.siem_endpoint, opt_text(old(siem).endpoint)),
        opt_text(final(siem).token) == env_opt_text(env.siem_token, opt_text(old(siem).token)),
        final(siem).batch_size == old(siem).batch_size,
        final(kms).kms_type@ == env_text(env.kms_type, old(kms).kms_type@),
        opt_text(final(kms).key_id) == env_opt_text(env.kms_key_id, opt_text(old(kms).key_id)),
        final(kms).region == old(kms).region,
{
    if let Some(v) = &env.db_path {
        audit.db_path = copy_str(v.as_str());
    }
    if env.db_key.is_some() {
        audit.encryption_key = opt_copy(&env.db_key);
        audit.encryption_enabled = true;
    }
    if env.siem_endpoint.is_some() {
        siem.endpoint = opt_copy(&env.siem_endpoint);
    }
    if env.siem_token.is_some() {
        siem.token = opt_copy(&env.siem_token);
    }
    if let Some(v) = &env.kms_type {
        kms.kms_type = copy_str(v.as_str());
    }
    if env.kms_key_id.is_some() {
        kms.key_id = opt_copy(&env.kms_key_id);
    }
}

fn override_guardrails(g: &mut GuardrailSettings, env: &EnvOverrides)
    ensures
        final(g).alert_only == env_flag(env.alert_only, true, old(g).alert_only),
        final(g).paranoia_level as int == env_paranoia(env.paranoia_level, old(g).paranoia_level as int),
        final(g).min_samples as int == env_number(env.min_samples, u64::MAX as int, old(g).min_samples as int),
        final(g).nearest_neighbor_audit == env_flag(env.nearest_neighbor_audit, true, old(g).nearest_neighbor_audit),
{
    g.alert_only = flag_or(&env.alert_only, true, g.alert_only);
    if let Some(v) = &env.paranoia_level {
        if let Some(n) = parse_unsigned(v.as_str(), 255) {
            g.paranoia_level = if n < 1 {
                1
            } else if n > 5 {
                5
            } else {
                n as u8
            };
        }
    }
    g.min_samples = number_or(&env.min_samples, u64::MAX, g.min_samples);
    g.nearest_neighbor_audit = flag_or(&env.nearest_neighbor_audit, true, g.nearest_neighbor_audit);
}

impl ZnSettings {
    /// Applies the environment overrides: each variable that is set replaces
    /// its setting. Numbers and flags that do not parse leave the setting as
    /// it was, except the flags `ZN_NEURAL_ENABLED`,
    /// `ZN_GUARDRAILS_ALERT_ONLY` and `ZN_NEAREST_NEIGHBOR_AUDIT` (then on)
    /// and `ZN_NEURAL_BLOCKING` (then off); `ZN_DB_KEY` also turns audit
    /// encryption on; `ZN_PARANOIA_LEVEL` is clamped to 1..=5.
    pub fn apply_env_overrides(&mut self, env: &EnvOverrides)
        ensures
            final(self).environment@ == env_text(env.env, old(self).environment@),
            final(self).server.port as int == env_number(env.port, 65535, old(self).server.port as int),
            final(self).server.bind_address == old(self).server.bind_address,
            final(self).server.channel_capacity == old(self).server.channel_capacity,
            opt_text(final(self).security.api_key) == env_opt_text(env.api_key, opt_text(old(self).security.api_key)),
            opt_text(final(self).security.namespace) == env_opt_text(env.namespace, opt_text(old(self).security.namespace)),
            opt_text(final(self).security.jwt_secret) == env_opt_text(env.jwt_secret, opt_text(old(self).security.jwt_secret)),
            opt_text(final(self).security.mcp_ws_token) == env_opt_text(env.mcp_ws_token, opt_text(old(self).security.mcp_ws_token)),
            strings_view(final(self).security.allowed_origins@) == env_list(env.allowed_origins, true, strings_view(old(self).security.allowed_origins@)),
            final(self).security.rate_limit_enabled == old(self).security.rate_limit_enabled,
            final(self).security.rate_limit_per_minute == old(self).security.rate_limit_per_minute,
            final(self).engine.gas_limit as int == env_number(env.gas_limit, u64::MAX as int, old(self).engine.gas_limit as int),
            final(self).engine.memory_limit_mb as int == env_number(env.memory_limit, u64::MAX as int, old(self).engine.memory_limit_mb as int),
            final(self).engine.timeout_ms as int == env_number(env.timeout, u64::MAX as int, old(self).engine.timeout_ms as int),
            strings_view(final(self).engine.allowed_policy_hashes@) == env_list(env.policy_hashes, false, strings_view(old(self).engine.allowed_policy_hashes@)),
            opt_text(final(self).engine.signing_public_key) == env_opt_text(env.signing_public_key, opt_text(old(self).engine.signing_public_key)),
            final(self).engine.policy_dir == old(self).engine.policy_dir,
            final(self).audit.db_path@ == env_text(env.db_path, old(self).audit.db_path@),
            opt_text(final(self).audit.encryption_key) == env_opt_text(env.db_key, opt_text(old(self).audit.encryption_key)),
            final(self).audit.encryption_enabled == (env.db_key is Some || old(self).audit.encryption_enabled),
            final(self).audit.max_logs_in_memory == old(self).audit.max_logs_in_memory,
            opt_text(final(self).siem.endpoint) == env_opt_text(env.siem_endpoint, opt_text(old(self).siem.endpoint)),
            opt_text(final(self).siem.token) == env_opt_text(env.siem_token, opt_text(old(self).siem.token)),
            final(self).siem.batch_size == old(self).siem.batch_size,
            final(self).kms.kms_type@ == env_text(env.kms_type, old(self).kms.kms_type@),
            opt_text(final(self).kms.key_id) == env_opt_text(env.kms_key_id, opt_text(old(self).kms.key_id)),
            final(self).kms.region == old(self).kms.region,
            final(self).neural.enabled == env_flag(env.neural_enabled, true, old(self).neural.enabled),
            final(self).neural.active_blocking == env_flag(env.neural_blocking, false, old(self).neural.active_blocking),
            final(self).neural.model_id == old(self).neural.model_id,
            final(self).neural.model_path == old(self).neural.model_path,
            final(self).neural.dim == old(self).neural.dim,
            final(self).guardrails.alert_only == env_flag(env.alert_only, true, old(self).guardrails.alert_only),
            final(self).guardrails.paranoia_level as int == env_paranoia(env.paranoia_level, old(self).guardrails.paranoia_level as int),
            final(self).guardrails.min_samples as int == env_number(env.min_samples, u64::MAX as int, old(self).guardrails.min_samples as int),
            final(self).guardrails.nearest_neighbor_audit == env_flag(env.nearest_neighbor_audit, true, old(self).guardrails.nearest_neighbor_audit),
            final(self).webhooks == old(self).webhooks,
            final(self).fusion == old(self).fusion,
            final(self).managed_rules == old(self).managed_rules,
            final(self).loop_breaker == old(self).loop_breaker,
            final(self).caching == old(self).caching,
            final(self).consensus == old(self).consensus,
    {
        if let Some(v) = &env.env {
            self.environment = copy_str(v.as_str());
        }
        self.server.port = number_or(&env.port, 65535, self.server.port as u64) as u16;
        override_security(&mut self.security, env);
        override_engine(&mut self.engine, env);
        override_stores(&mut self.audit, &mut self.siem, &mut self.kms, env);
        self.neural.enabled = flag_or(&env.neural_enabled, true, self.neural.enabled);
        self.neural.active_blocking = flag_or(&env.neural_blocking, false, self.neural.active_blocking);
        override_guardrails(&mut self.guardrails, env);
    }

    /// Validates the settings: audit log encryption with a key is mandatory
    /// in production.
    pub fn validate(&self) -> (r: Result<(), ConfigError>)
        ensures
            r is Ok <==> settings_valid(
                self.environment@,
                self.audit.encryption_enabled,
                self.audit.encryption_key is Some,
            ),
            r matches Err(e) ==> e == ConfigError::AuditEncryptionRequired,
    {
        validate_settings(self.environment.as_str(), &self.audit)
    }

    /// Whether the neural layer blocks rather than only alerts.
    pub fn is_neural_blocking(&self) -> (r: bool)
        ensures
            r == (!self.guardrails.alert_only && self.neural.active_blocking),
    {
        neural_blocking(self.guardrails.alert_only, self.neural.active_blocking)
    }
}

} // verus!
