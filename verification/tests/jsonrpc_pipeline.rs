use zn::config::{CachingConfig, ConsensusConfig, LoopBreakerConfig, ManagedRulesConfig};
use zn::engine::cache::ResultCache;
use zn::engine::consensus::ConsensusManager;
use zn::engine::loop_breaker::LoopBreaker;
use zn::engine::reputation::ReputationSystem;
use zn::jsonrpc::{jsonrpc_error_response, validate_request, JsonRpcRequest, JsonRpcValidation, RpcParams};
use zn::pipeline::{
    check_prompt_text, denied_response, vision_screen, Admission, Defenses, PromptParamError,
};

fn params(name: Option<&str>, arguments: Option<&str>) -> RpcParams {
    RpcParams {
        name: name.map(|s| s.to_string()),
        arguments: arguments.map(|s| s.to_string()),
        args: None,
        input: None,
        recipient: None,
        text: "{}".to_string(),
    }
}

fn request(jsonrpc: Option<&str>, method: &str, p: Option<RpcParams>) -> JsonRpcRequest {
    JsonRpcRequest {
        jsonrpc: jsonrpc.map(|s| s.to_string()),
        id: Some("1".to_string()),
        method: method.to_string(),
        params: p,
        agent_id: Some("agent-7".to_string()),
    }
}

#[test]
fn jsonrpc_tool_call_extracted() {
    match validate_request(Some(request(Some("2.0"), "tools/call", Some(params(Some("read_file"), Some(r#"{"path":"/tmp"}"#)))))) {
        JsonRpcValidation::ToolCall { id, tool_name, arguments, agent_id } => {
            assert_eq!(id, Some("1".to_string()));
            assert_eq!(tool_name, "read_file");
            assert_eq!(arguments, r#"{"path":"/tmp"}"#);
            assert_eq!(agent_id, Some("agent-7".to_string()));
        }
        _ => panic!("expected a tool call"),
    }
    // Without arguments the call carries an empty object.
    match validate_request(Some(request(None, "tools/call", Some(params(Some("t"), None))))) {
        JsonRpcValidation::ToolCall { arguments, .. } => assert_eq!(arguments, "{}"),
        _ => panic!("expected a tool call"),
    }
}

#[test]
fn jsonrpc_errors() {
    match validate_request(None) {
        JsonRpcValidation::Error { id, code, message } => {
            assert_eq!(id, None);
            assert_eq!(code, -32700);
            assert_eq!(message, "Parse error: Invalid JSON");
        }
        _ => panic!("expected an error"),
    }
    match validate_request(Some(request(Some("1.0"), "tools/call", None))) {
        JsonRpcValidation::Error { code, message, .. } => {
            assert_eq!(code, -32600);
            assert_eq!(message, "Invalid Request: jsonrpc must be '2.0', got '1.0'");
        }
        _ => panic!("expected an error"),
    }
    match validate_request(Some(request(Some("2.0"), "", None))) {
        JsonRpcValidation::Error { message, .. } => assert_eq!(message, "Invalid Request: method is required"),
        _ => panic!("expected an error"),
    }
    match validate_request(Some(request(Some("2.0"), "tools/call", None))) {
        JsonRpcValidation::Error { code, message, .. } => {
            assert_eq!(code, -32602);
            assert_eq!(message, "Invalid params: params object required");
        }
        _ => panic!("expected an error"),
    }
    match validate_request(Some(request(Some("2.0"), "tools/call", Some(params(Some(""), None))))) {
        JsonRpcValidation::Error { message, .. } => assert_eq!(message, "Invalid params: tool name is required"),
        _ => panic!("expected an error"),
    }
}

#[test]
fn jsonrpc_a2a_and_pass_through() {
    let mut p = params(None, None);
    p.recipient = Some("finance".to_string());
    p.text = r#"{"recipient":"finance"}"#.to_string();
    match validate_request(Some(request(Some("2.0"), "tasks/send", Some(p)))) {
        JsonRpcValidation::ToolCall { tool_name, arguments, .. } => {
            assert_eq!(tool_name, "a2a:send:finance");
            assert_eq!(arguments, r#"{"recipient":"finance"}"#);
        }
        _ => panic!("expected a tool call"),
    }
    match validate_request(Some(request(Some("2.0"), "tasks/list", None))) {
        JsonRpcValidation::ToolCall { tool_name, arguments, .. } => {
            assert_eq!(tool_name, "a2a:list");
            assert_eq!(arguments, "{}");
        }
        _ => panic!("expected a tool call"),
    }
    assert!(matches!(
        validate_request(Some(request(Some("2.0"), "initialize", None))),
        JsonRpcValidation::PassThrough
    ));
}

#[test]
fn error_response_text() {
    assert_eq!(
        jsonrpc_error_response(Some("7"), -32001, "bad \"x\"\n"),
        r#"{"error":{"code":-32001,"message":"bad \"x\"\n"},"id":7,"jsonrpc":"2.0"}"#
    );
    assert_eq!(
        jsonrpc_error_response(None, -32700, "a\u{1}b"),
        r#"{"error":{"code":-32700,"message":"a\u0001b"},"id":null,"jsonrpc":"2.0"}"#
    );
    assert_eq!(
        denied_response(Some("\"r1\""), "rm"),
        r#"{"error":{"code":-32000,"message":"Tool call 'rm' denied by security policy"},"id":"r1","jsonrpc":"2.0"}"#
    );
}

fn defenses(consensus: ConsensusConfig) -> Defenses {
    Defenses {
        rules: ManagedRulesConfig::default(),
        cache: ResultCache::new(CachingConfig { enabled: true, ttl_seconds: 60 }),
        reputation: ReputationSystem::new(),
        loop_breaker: LoopBreaker::new(LoopBreakerConfig::default()),
        consensus: ConsensusManager::new(consensus),
    }
}

#[test]
fn screening_order_and_codes() {
    let mut d = defenses(ConsensusConfig::default());
    let now = 1_000_000_000_000_000_000i64;
    assert!(matches!(
        d.screen_call("a", "read_file", r#"{"path":"notes.txt"}"#, "id-1".to_string(), now, 0),
        Admission::Proceed
    ));
    match d.screen_call("a", "read_file", r#"{"path":"../../etc/passwd"}"#, "id-2".to_string(), now, 0) {
        Admission::Refused { code, message } => {
            assert_eq!(code, -32001);
            assert_eq!(message, "Local File Inclusion (LFI) attempt detected");
        }
        _ => panic!("expected a refusal"),
    }
    assert_eq!(d.reputation.all_scores()[0].score, 40);
    // A cached result answers before anything else.
    d.cache.set("a", "read_file", "{}", "cached!".to_string(), 0);
    match d.screen_call("a", "read_file", "{}", "id-3".to_string(), now, 1) {
        Admission::Cached(t) => assert_eq!(t, "cached!"),
        _ => panic!("expected the cached result"),
    }
}

#[test]
fn screening_loop_and_ban() {
    let mut d = defenses(ConsensusConfig::default());
    let now = 1_000_000_000_000_000_000i64;
    for k in 0..3u64 {
        assert!(matches!(d.screen_call("b", "t", "{}", String::new(), now, k), Admission::Proceed));
    }
    match d.screen_call("b", "t", "{}", String::new(), now, 3) {
        Admission::Refused { code, .. } => assert_eq!(code, -32002),
        _ => panic!("expected the loop breaker"),
    }
    assert_eq!(d.reputation.all_scores()[0].score, 35);
    // Four more rule violations bring the agent below zero: banned.
    for _ in 0..4 {
        let _ = d.screen_call("b", "exec", "rm -rf /", String::new(), now, 10);
    }
    assert!(d.reputation.check_agent_status("b", now).is_err());
    match d.screen_call("b", "other", "{}", String::new(), now, 20) {
        Admission::Refused { code, message } => {
            assert_eq!(code, -32003);
            assert!(message.starts_with("Agent BANNED active defense system until "));
        }
        _ => panic!("expected the ban"),
    }
}

#[test]
fn screening_consensus() {
    let cfg = ConsensusConfig {
        enabled: true,
        critical_tools: vec!["drop_db".to_string()],
        required_signatures: 1,
        neural_as_witness: true,
    };
    let mut d = defenses(cfg);
    let now = 1_000_000_000_000_000_000i64;
    match d.screen_call("c", "drop_db", "{}", "act-1".to_string(), now, 0) {
        Admission::Refused { code, message } => {
            assert_eq!(code, -32004);
            assert_eq!(message, "Action 'drop_db' requires multi-sig consensus. Correlation ID: act-1");
        }
        _ => panic!("expected consensus"),
    }
    assert_eq!(
        d.consensus.sign_action("act-1", zn::engine::consensus::WitnessType::NeuralJudge),
        Ok(zn::engine::consensus::ActionStatus::Approved)
    );
    assert!(matches!(d.screen_call("c", "drop_db", "{}", "act-2".to_string(), now, 1), Admission::Proceed));
}

#[test]
fn conclusions() {
    let mut d = defenses(ConsensusConfig::default());
    let v = d.conclude("x", false, Ok(true), 0);
    assert!(v.allowed);
    assert_eq!(v.status(), "ALLOWED");
    assert_eq!(v.policy_match, None);
    let v = d.conclude("x", true, Ok(true), 0);
    assert_eq!(v.status(), "DENIED");
    assert_eq!(v.policy_match, Some("neural_engine".to_string()));
    let v = d.conclude("x", false, Ok(false), 0);
    assert_eq!(v.policy_match, Some("wasm_policy".to_string()));
    let v = d.conclude("x", false, Err("trap".to_string()), 0);
    assert_eq!(v.policy_match, Some("error: trap".to_string()));
    assert_eq!(d.reputation.all_scores()[0].score, 51 - 10 - 5);
}

#[test]
fn vision_screen_passes_plain_arguments() {
    let on = ManagedRulesConfig { visual_pii_redaction: true, ..Default::default() };
    assert_eq!(vision_screen("{}", &on, &Vec::new()), Ok("{}".to_string()));
    assert_eq!(
        vision_screen(r#"{"i":"data:image/png;base64,abcd"}"#, &on, &Vec::new()),
        Err("unsupported image format".to_string())
    );
}

#[test]
fn prompt_text_is_trimmed_and_bounded() {
    assert_eq!(check_prompt_text("  hello \n"), Ok("hello".to_string()));
    assert_eq!(check_prompt_text(" \t\n"), Err(PromptParamError::Empty));
    let big = "a".repeat(65537);
    assert_eq!(check_prompt_text(&big), Err(PromptParamError::TooLong(65537)));
    assert!(check_prompt_text(&"a".repeat(65536)).is_ok());
    assert_eq!(
        PromptParamError::TooLong(65537).message(),
        "text exceeds 65536 byte limit (65537 bytes)"
    );
    assert_eq!(PromptParamError::Empty.message(), "text must not be empty");
}

#[test]
fn readiness_checks_before_screening_and_concluding() {
    let mut d = defenses(ConsensusConfig::default());
    assert!(d.ready_to_screen("a", 1_000));
    assert!(d.ready_to_conclude("a", 1_000));
    // The end of a ban would not fit in the clock's range.
    assert!(!d.ready_to_screen("a", i64::MAX));
    assert!(!d.ready_to_conclude("a", i64::MAX - 1));
}

#[test]
fn prompt_text_within_limit_is_accepted_trimmed() {
    assert_eq!(check_prompt_text("  what is 2+2?  "), Ok("what is 2+2?".to_string()));
}

#[test]
fn vision_screen_without_images_passes_with_redaction_on() {
    let on = ManagedRulesConfig { visual_pii_redaction: true, ..ManagedRulesConfig::default() };
    let args = r#"{"path":"notes.txt","note":"data:image/png;base64,"}"#;
    assert_eq!(vision_screen(args, &on, &Vec::new()), Ok(args.to_string()));
}
