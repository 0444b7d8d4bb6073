use zn::a2a::{is_a2a_method, resolve_policy_context};
use std::collections::HashMap;
use zn::proxy::{
    admit_server_entry, check_command_name, is_safe_env_var, plan_connection, retry_delay,
    should_cache_response, validate_command, CommandError, ConnectError, McpServerConfig,
    Transport,
};
use zn::scrubber::Scrubber;
use zn::shield::canary::is_shodan_probe;
use zn::shield::McpShield;

#[test]
fn test_validate_command_allowed() {
    assert!(validate_command("node").is_ok());
    assert!(validate_command("python").is_ok());
    assert!(validate_command("npx").is_ok());
}

#[test]
fn test_validate_command_blocked() {
    assert!(validate_command("bash").is_err());
    assert!(validate_command("rm").is_err());
}

#[test]
fn command_paths_case_and_extensions() {
    assert!(validate_command("/usr/bin/python3").is_ok());
    assert!(validate_command("/usr/bin/node").is_ok());
    assert!(validate_command("./tools/NODE.EXE").is_ok());
    assert!(validate_command("/bin/bash").is_err());
    assert!(validate_command("/usr/bin/").is_err());
    assert!(validate_command("node/").is_ok());
    assert!(validate_command("/usr/bin/python3//").is_ok());
    assert!(validate_command("..").is_err());
    assert!(validate_command("/usr/bin/..").is_err());
    assert!(check_command_name("NODE.EXE").is_ok());
    assert!(check_command_name("npx.cmd").is_ok());
    assert!(check_command_name("uv.exe.exe").is_ok());
    assert_eq!(check_command_name("sh"), Err(CommandError::NotAllowed));
}

#[test]
fn command_refusal_message() {
    assert_eq!(
        CommandError::NotAllowed.message("bash"),
        "Command 'bash' is not in the allowed list. Allowed: [\"node\", \"npx\", \"python\", \"python3\", \"uvx\", \"uv\", \"cargo\", \"deno\", \"bun\"]"
    );
}

#[test]
fn env_var_blocklist() {
    assert!(!is_safe_env_var("LD_PRELOAD"));
    assert!(!is_safe_env_var("path"));
    assert!(!is_safe_env_var("Home"));
    assert!(is_safe_env_var("NODE_ENV"));
    assert!(is_safe_env_var("PATHS"));
}

#[test]
fn test_contains_pii() {
    assert!(Scrubber::contains_pii("email: test@example.com"));
    assert!(!Scrubber::contains_pii("This has no PII"));
}

#[test]
fn test_scrub_email() {
    let scrubbed = Scrubber::scrub("Contact user@example.com for help");
    assert!(scrubbed.contains("[EMAIL_REDACTED]"));
    assert!(!scrubbed.contains("user@example.com"));
}

#[test]
fn test_scrub_api_key() {
    let scrubbed = Scrubber::scrub("api_key=fakekeyfakekeyfakekey");
    assert!(scrubbed.contains("[SECRET_REDACTED]"));
    assert!(!scrubbed.contains("fakekeyfakekeyfakekey"));
}

#[test]
fn test_scrub_credit_card() {
    assert!(Scrubber::scrub("Card: 4111-1111-1111-1111").contains("[CARD_REDACTED]"));
}

#[test]
fn test_scrub_ssn() {
    assert!(Scrubber::scrub("SSN: 123-45-6789").contains("[SSN_REDACTED]"));
}

#[test]
fn test_scrub_phone() {
    assert!(Scrubber::scrub("Call me at (555) 123-4567").contains("[PHONE_REDACTED]"));
}

#[test]
fn test_scrub_jwt() {
    let input = format!(
        "Authorization: Bearer {}",
        ["eyJhbGciOiJIUzI1NiJ9", "eyJzdWIiOiJ1c2VyIn0", "signature123"].join(".")
    );
    assert!(Scrubber::scrub(&input).contains("[JWT_REDACTED]"));
}

#[test]
fn test_detect_pii_types() {
    let types = Scrubber::detect_pii_types("Email: user@test.com, SSN: 123-45-6789");
    assert!(types.contains(&"email"));
    assert!(types.contains(&"ssn"));
}

#[test]
fn test_preserves_safe_content() {
    let input = "This is a safe message with no PII";
    assert_eq!(input, Scrubber::scrub(input));
}

#[test]
fn scrub_secret_keeps_name() {
    assert_eq!(Scrubber::scrub("password = hunter2hunter2"), "password: [SECRET_REDACTED]");
}

#[test]
fn pii_type_order() {
    assert_eq!(
        Scrubber::pii_types_from_matches(true, false, true, true, false, true),
        vec!["email", "credit_card", "ssn", "jwt"]
    );
    assert!(Scrubber::pii_types_from_matches(false, false, false, false, false, false).is_empty());
}

#[test]
fn origins() {
    assert!(McpShield::validate_origin("http://localhost:3000", &[]));
    assert!(McpShield::validate_origin("http://127.0.0.1", &[]));
    assert!(!McpShield::validate_origin("https://evil.com", &[]));
    let allowed = vec!["https://app.example".to_string()];
    assert!(McpShield::validate_origin("https://app.example", &allowed));
    assert!(!McpShield::validate_origin("http://localhost", &allowed));
}

#[test]
fn exposure_report_lists_open_ports() {
    assert_eq!(McpShield::common_ports(), vec![3000, 8000, 8080, 9090, 50051]);
    let r = McpShield::exposure_report(&vec![(3000, false), (8000, true), (50051, true)]);
    assert_eq!(r.len(), 2);
    assert_eq!(r[0].port, 8000);
    assert_eq!(r[1].port, 50051);
    assert!(r.iter().all(|s| s.is_open && s.vulnerable && s.service == "Potential MCP/Web"));
}

#[test]
fn ws_token_shape() {
    let t1 = McpShield::generate_ws_token();
    let t2 = McpShield::generate_ws_token();
    assert_eq!(t1.len(), 36);
    assert_ne!(t1, t2);
}

#[test]
fn shodan_probe_detection() {
    assert!(is_shodan_probe(r#"{"jsonrpc":"2.0","method":"initialize","id":1}"#));
    assert!(!is_shodan_probe(r#"{"jsonrpc": "2.0", "method": "initialize"}"#));
    assert!(!is_shodan_probe(r#"{"method":"initialize"}"#));
}

#[test]
fn a2a_methods_and_context() {
    assert!(is_a2a_method("tasks/send"));
    assert!(is_a2a_method("tasks/cancel"));
    assert!(!is_a2a_method("tools/call"));
    assert_eq!(resolve_policy_context("tasks/send", Some("finance-agent")), "a2a:send:finance-agent");
    assert_eq!(resolve_policy_context("tasks/get", Some("")), "a2a:get");
    assert_eq!(resolve_policy_context("tasks/tasks/list", None), "a2a:list");
    let params = serde_json::from_str::<serde_json::Value>(r#"{"recipient":"ops"}"#).unwrap();
    let recipient = params.get("recipient").and_then(|v| v.as_str());
    assert_eq!(resolve_policy_context("tasks/send", recipient), "a2a:send:ops");
    let params = serde_json::from_str::<serde_json::Value>(r#"{"recipient":7}"#).unwrap();
    let recipient = params.get("recipient").and_then(|v| v.as_str());
    assert_eq!(resolve_policy_context("tasks/send", recipient), "a2a:send");
}

fn server(command: Option<&str>, url: Option<&str>) -> McpServerConfig {
    McpServerConfig {
        command: command.map(|c| c.to_string()),
        args: vec![],
        env: HashMap::new(),
        url: url.map(|u| u.to_string()),
    }
}

#[test]
fn connection_prefers_url_then_allowed_command() {
    assert_eq!(
        plan_connection(&server(Some("bash"), Some("ws://localhost:1"))),
        Ok(Transport::WebSocket("ws://localhost:1".to_string()))
    );
    assert_eq!(
        plan_connection(&server(Some("npx"), None)),
        Ok(Transport::Stdio("npx".to_string()))
    );
    assert_eq!(plan_connection(&server(Some("bash"), None)), Err(ConnectError::NotAllowed));
    assert_eq!(plan_connection(&server(None, None)), Err(ConnectError::NoTransport));
}

#[test]
fn websocket_retries_double_the_wait_five_times() {
    let mut delay = 500u64;
    let mut waits = vec![];
    let mut attempt = 1u32;
    while let Some(next) = retry_delay(attempt, delay) {
        waits.push(delay);
        delay = next;
        attempt += 1;
    }
    assert_eq!(waits, vec![500, 1000, 2000, 4000]);
    assert_eq!(attempt, 5);
}

#[test]
fn config_file_entries_need_an_allowed_transport() {
    assert_eq!(admit_server_entry(Some("node"), None), Ok(()));
    assert_eq!(admit_server_entry(None, Some("ws://x")), Ok(()));
    assert_eq!(admit_server_entry(Some("bash"), Some("ws://x")), Err(ConnectError::NotAllowed));
    assert_eq!(admit_server_entry(None, None), Err(ConnectError::NoTransport));
}

#[test]
fn only_results_for_agents_are_cached() {
    let ok = "{\"jsonrpc\":\"2.0\",\"result\":{},\"id\":1}";
    assert!(should_cache_response(Some("agent"), ok));
    assert!(!should_cache_response(None, ok));
    assert!(!should_cache_response(Some("agent"), ""));
    assert!(!should_cache_response(Some("agent"), "{\"error\":{}}"));
}
