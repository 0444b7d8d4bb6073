use zn::config::{CachingConfig, ConsensusConfig, LoopBreakerConfig};
use zn::engine::cache::ResultCache;
use zn::engine::consensus::{ActionStatus, ConsensusManager, WitnessType};
use zn::engine::loop_breaker::LoopBreaker;
use zn::engine::reputation::{AgentStatus, ReputationSystem, BAN_DURATION_NANOS};

const SEC: u64 = 1_000_000_000;

#[test]
fn reputation_success_raises_score() {
    let mut r = ReputationSystem::new();
    r.record_success("a", 0);
    let all = r.all_scores();
    assert_eq!(all.len(), 1);
    assert_eq!(all[0].agent_id, "a");
    assert_eq!(all[0].score, 51);
    assert_eq!(all[0].total_calls, 1);
    assert_eq!(all[0].status, AgentStatus::Neutral);
    for _ in 0..100 {
        r.record_success("a", 0);
    }
    let all = r.all_scores();
    assert_eq!(all[0].score, 100);
    assert_eq!(all[0].status, AgentStatus::Trusted);
}

#[test]
fn reputation_violations_ban_for_ten_minutes() {
    let mut r = ReputationSystem::new();
    let now: i64 = 1_700_000_000_000_000_000;
    for k in 0..5 {
        r.record_violation("bad", &format!("reason {k}"), 10, now);
    }
    assert!(r.check_agent_status("bad", now).is_err());
    let all = r.all_scores();
    assert_eq!(all[0].score, 0);
    assert_eq!(all[0].status, AgentStatus::Banned);
    assert_eq!(all[0].blocked_calls, 5);
    assert_eq!(all[0].banned_until, Some(now + BAN_DURATION_NANOS));
    let err = r.check_agent_status("bad", now + 1).unwrap_err();
    assert!(err.starts_with("Agent BANNED active defense system until 2023-11-14"));
    assert!(r.check_agent_status("bad", now + BAN_DURATION_NANOS - 1).is_err());
    assert!(r.check_agent_status("bad", now + BAN_DURATION_NANOS).is_ok());
    assert!(r.check_agent_status("someone-else", now).is_ok());
}

#[test]
fn reputation_keeps_last_five_reasons_and_unbans() {
    let mut r = ReputationSystem::new();
    let now: i64 = 1_000;
    for k in 0..7 {
        r.record_violation("x", &format!("r{k}"), 10, now);
    }
    let all = r.all_scores();
    assert_eq!(all[0].violations, vec!["r2", "r3", "r4", "r5", "r6"]);
    assert_eq!(all[0].score, -20);
    // After the ban has run out a clean call lifts it.
    r.record_success("x", now + BAN_DURATION_NANOS + 1);
    let all = r.all_scores();
    assert_eq!(all[0].status, AgentStatus::Suspicious);
    assert_eq!(all[0].score, 11);
    assert_eq!(all[0].banned_until, None);
}

#[test]
fn loop_breaker_refuses_repeats_within_window() {
    let mut b = LoopBreaker::new(LoopBreakerConfig::default());
    assert!(b.check_and_record("a", "t", r#"{"x": 1, "y": 2}"#, 0).is_ok());
    assert!(b.check_and_record("a", "t", r#"{"y":2,"x":1}"#, SEC).is_ok());
    assert!(b.check_and_record("a", "t", r#"{"x":1,"y":2}"#, 2 * SEC).is_ok());
    let err = b.check_and_record("a", "t", r#"{"x":1,"y":2}"#, 3 * SEC).unwrap_err();
    assert_eq!(
        err,
        "Recursive loop detected: Tool 't' called 4 times with identical arguments in 60s"
    );
    // Other agents, tools and arguments are counted apart.
    assert!(b.check_and_record("b", "t", r#"{"x":1,"y":2}"#, 3 * SEC).is_ok());
    assert!(b.check_and_record("a", "u", r#"{"x":1,"y":2}"#, 3 * SEC).is_ok());
    assert!(b.check_and_record("a", "t", r#"{"x":2}"#, 3 * SEC).is_ok());
    // Once the window has passed the calls are forgotten.
    assert!(b.check_and_record("a", "t", r#"{"x":1,"y":2}"#, 63 * SEC + 1).is_ok());
}

#[test]
fn loop_breaker_off_allows_everything() {
    let cfg = LoopBreakerConfig { enabled: false, max_repeats: 0, window_seconds: 60 };
    let mut b = LoopBreaker::new(cfg);
    for _ in 0..10 {
        assert!(b.check_and_record("a", "t", "same", 0).is_ok());
    }
}

#[test]
fn cache_read_after_write_until_expiry() {
    let mut c = ResultCache::new(CachingConfig { enabled: true, ttl_seconds: 10 });
    assert_eq!(c.get("a", "t", "{}", 0), None);
    c.set("a", "t", "{}", "result".to_string(), 0);
    assert_eq!(c.get("a", "t", "{}", 5 * SEC), Some("result".to_string()));
    assert_eq!(c.get("b", "t", "{}", 5 * SEC), None);
    assert_eq!(c.get("a", "t", "{}", 10 * SEC), None);
    // The expired entry is gone even when asked at an earlier time.
    assert_eq!(c.get("a", "t", "{}", 0), None);
}

#[test]
fn cache_disabled_stores_nothing() {
    let mut c = ResultCache::new(CachingConfig::default());
    c.set("a", "t", "{}", "result".to_string(), 0);
    assert_eq!(c.get("a", "t", "{}", 0), None);
}

fn consensus_cfg() -> ConsensusConfig {
    ConsensusConfig {
        enabled: true,
        critical_tools: vec!["delete_db".to_string(), "admin:*".to_string()],
        required_signatures: 2,
        neural_as_witness: true,
    }
}

#[test]
fn consensus_only_for_critical_tools() {
    let mut m = ConsensusManager::new(consensus_cfg());
    assert_eq!(m.propose_action("a", "read_file", "{}"), None);
    assert_eq!(m.propose_action("a", "admin", "{}"), None);
    assert!(m.propose_action("a", "admin:reset", "{}").is_some());
    let id = m.propose_action("a", "delete_db", "{}").unwrap();
    assert_eq!(id.len(), 36);
    assert_eq!(m.get_status(&id), Some(ActionStatus::Pending));
    assert_eq!(m.list_pending().len(), 2);
    let mut off = ConsensusManager::new(ConsensusConfig::default());
    assert_eq!(off.propose_action("a", "delete_db", "{}"), None);
}

#[test]
fn consensus_needs_distinct_witnesses_and_is_consumed_once() {
    let mut m = ConsensusManager::new(consensus_cfg());
    let id = m.propose_action("a", "delete_db", r#"{"db":"prod"}"#).unwrap();
    assert!(!m.check_approval("a", "delete_db", r#"{"db":"prod"}"#));
    assert_eq!(
        m.sign_action(&id, WitnessType::HumanAdmin("alice".to_string())),
        Ok(ActionStatus::Pending)
    );
    assert_eq!(
        m.sign_action(&id, WitnessType::HumanAdmin("alice".to_string())),
        Ok(ActionStatus::Pending)
    );
    assert_eq!(m.sign_action(&id, WitnessType::NeuralJudge), Ok(ActionStatus::Approved));
    // A different call is not covered by the approval.
    assert!(!m.check_approval("a", "delete_db", r#"{"db":"dev"}"#));
    assert!(!m.check_approval("b", "delete_db", r#"{"db":"prod"}"#));
    assert!(m.check_approval("a", "delete_db", r#"{"db":"prod"}"#));
    assert!(!m.check_approval("a", "delete_db", r#"{"db":"prod"}"#));
    assert_eq!(m.get_status(&id), None);
    assert_eq!(
        m.sign_action(&id, WitnessType::NeuralJudge),
        Err("Action not found or already processed".to_string())
    );
}

#[test]
fn consensus_deny() {
    let mut m = ConsensusManager::new(consensus_cfg());
    let id = m.propose_action("a", "admin:wipe", "{}").unwrap();
    assert_eq!(m.deny_action(&id, "no"), Ok(()));
    assert_eq!(m.get_status(&id), Some(ActionStatus::Denied));
    assert!(m.list_pending().is_empty());
    assert_eq!(m.deny_action("missing", "no"), Err("Action not found".to_string()));
}
