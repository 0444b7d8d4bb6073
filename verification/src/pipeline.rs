//! The screening of one MCP tool call, stage by stage, as the proxy runs
//! it: the vision guard on embedded images, then the result cache, the ban
//! list, the managed rule sets, the loop breaker and M-of-N consensus
//! (admission); after the neural layer and the policy engine have spoken,
//! the verdict and its effect on the agent's reputation (conclusion).
//!
//! Clock readings are passed in: wall-clock time in nanoseconds since the
//! Unix epoch for reputation, monotonic time in nanoseconds for the cache
//! and the loop breaker.
use vstd::prelude::*;
use vstd::string::StringExecFns;
use crate::config::ManagedRulesConfig;
use crate::engine::cache::{cache_key, cache_probe, ResultCache};
use crate::engine::consensus::{
    approves, is_critical, proposed_action, ActionView, ConsensusManager,
};
use crate::engine::loop_breaker::{loop_check, prior_history, LoopBreaker};
use crate::engine::reputation::{
    after_success, after_violation, banned_at, can_count, current_score, utc_text, BAN_DURATION_NANOS,
    ReputationSystem, ScoreView,
};
use crate::engine::rules::{evaluate_spec, ManagedRuleset};
use crate::engine::vision::{
    budget_error, image_uris, ocr_threat, sanitized_arguments, string_opts_view,
    vision_error_text, VisionEngine, VisionError,
};
use crate::jsonrpc::{error_response_text, jsonrpc_error_response, POLICY_DENIED};
use crate::text::{copy_str, decimal, decimal_string, trim, trim_str};
use vstd::utf8::encode_utf8;

verus! {

/// Code of a call refused by the vision guard or the managed rule sets.
pub const BLOCKED: i32 = -32001;

/// Code of a call refused by the loop breaker.
pub const LOOP_DETECTED: i32 = -32002;

/// Code of a call of a banned agent.
pub const AGENT_BANNED: i32 = -32003;

/// Code of a call that waits for consensus.
pub const CONSENSUS_REQUIRED: i32 = -32004;

/// The message of a call refused for malicious text in an image.
pub open spec fn image_text_message(rule: Seq<char>) -> Seq<char> {
    "Blocked: image contains "@ + rule + " text"@
}

/// Runs the vision guard on the arguments of a tool call: refuses images
/// with malicious text layers (`ocr_texts[k]` being what recognition read
/// from image `k`), then strips the metadata of every image. Returns the
/// sanitized arguments, or the message refusing the call. With visual
/// redaction off, or without images, the arguments pass unchanged; the
/// time budget, checked between images, is the clock's to decide.
pub fn vision_screen(arguments: &str, rules: &ManagedRulesConfig, ocr_texts: &Vec<Option<String>>) -> (r:
    Result<String, String>)
    ensures
        !rules.visual_pii_redaction ==> (r matches Ok(a) && a@ == arguments@),
        rules.visual_pii_redaction ==> {
            let threat = ocr_threat(arguments@, string_opts_view(ocr_texts@));
            &&& budget_error(image_uris(arguments@), 0) matches Some(e) ==> (r matches Err(m) && m@
                == vision_error_text(e))
            &&& r matches Ok(a) ==> threat == Ok::<Option<(Seq<char>, Seq<char>)>, VisionError>(None)
                && sanitized_arguments(arguments@) == Ok::<Seq<char>, VisionError>(a@)
            &&& image_uris(arguments@).len() == 0 ==> (r matches Ok(a) && a@ == arguments@)
            &&& r matches Err(m) ==> {
                ||| m@ == vision_error_text(VisionError::ParseTimeout) && image_uris(arguments@).len() > 1
                ||| threat matches Ok(Some((t, rule))) && m@ == image_text_message(rule)
                ||| threat matches Err(e) && m@ == vision_error_text(e)
                ||| threat == Ok::<Option<(Seq<char>, Seq<char>)>, VisionError>(None) && (
                sanitized_arguments(arguments@) matches Err(e) && m@ == vision_error_text(e))
            }
        },
{
    match VisionEngine::detect_malicious_ocr(arguments, rules, ocr_texts) {
        Ok(Some((_text, rule))) => {
            let mut m = copy_str("Blocked: image contains ");
            m.append(rule);
            m.append(" text");
            return Err(m);
        },
        Ok(None) => {},
        Err(e) => {
            return Err(copy_str(e.as_str()));
        },
    }
    match VisionEngine::sanitize_multimodal(arguments, rules) {
        Ok(a) => Ok(a),
        Err(e) => Err(copy_str(e.as_str())),
    }
}

/// What admission decides for a tool call.
pub enum Admission {
    /// Answer with this cached result.
    Cached(String),
    /// Refuse with this JSON-RPC error code and message.
    Refused { code: i32, message: String },
    /// Go on to the neural layer and the policy engine.
    Proceed,
}

/// The abstract decision of admission.
pub enum AdmissionView {
    /// Answer with a cached result.
    Cached(Seq<char>),
    /// Refuse with a code and message.
    Refused(i32, Seq<char>),
    /// Go on.
    Proceed,
}

/// The abstract decision of an admission.
pub open spec fn admission_view(a: Admission) -> AdmissionView {
    match a {
        Admission::Cached(t) => AdmissionView::Cached(t@),
        Admission::Refused { code, message } => AdmissionView::Refused(code, message@),
        Admission::Proceed => AdmissionView::Proceed,
    }
}

/// The message of a call of a banned agent.
pub open spec fn ban_message(end: i64) -> Seq<char> {
    "Agent BANNED active defense system until "@ + utc_text(end)
}

/// The message of a call that waits for consensus under `action_id`.
pub open spec fn consensus_message(tool: Seq<char>, action_id: Seq<char>) -> Seq<char> {
    "Action '"@ + tool + "' requires multi-sig consensus. Correlation ID: "@ + action_id
}

/// Whether some action of `actions` approves this very call.
pub open spec fn approval_exists(
    actions: Map<Seq<char>, ActionView>,
    agent_id: Seq<char>,
    tool: Seq<char>,
    arguments: Seq<char>,
) -> bool {
    exists|k: Seq<char>| #[trigger] actions.contains_key(k) && approves(actions[k], agent_id, tool, arguments)
}

/// The defenses that screen tool calls before the neural layer.
pub struct Defenses {
    /// The managed rule sets.
    pub rules: ManagedRulesConfig,
    /// The tool result cache.
    pub cache: ResultCache,
    /// Agent reputation.
    pub reputation: ReputationSystem,
    /// The recursive loop breaker.
    pub loop_breaker: LoopBreaker,
    /// M-of-N consensus.
    pub consensus: ConsensusManager,
}

/// Whether screening a call of the agent can record what it may record: a
/// violation of severity up to 15 at `now_utc`, and one more call in the
/// agent's loop history.
pub open spec fn can_screen(d: Defenses, agent_id: Seq<char>, now_utc: i64) -> bool {
    &&& d.reputation.wf()
    &&& d.consensus.wf()
    &&& can_count(d.reputation@, agent_id, now_utc as int)
    &&& current_score(d.reputation@, agent_id).score >= i32::MIN + 15
    &&& prior_history(d.loop_breaker.history_spec(), agent_id).len() < usize::MAX
}

/// Whether the outcome of a call by the agent at `now_utc` can be counted
/// against its record without a counter or its score overflowing.
pub open spec fn can_conclude(d: Defenses, agent_id: Seq<char>, now_utc: i64) -> bool {
    &&& can_count(d.reputation@, agent_id, now_utc as int)
    &&& current_score(d.reputation@, agent_id).score >= i32::MIN + 10
    &&& current_score(d.reputation@, agent_id).score < i32::MAX
}

impl Defenses {
    /// Whether a call by the agent at `now_utc` can be screened: its
    /// counters, its score, the end of a ban it could get and its recorded
    /// calls leave room for one more call.
    pub fn ready_to_screen(&mut self, agent_id: &str, now_utc: i64) -> (r: bool)
        requires
            old(self).reputation.wf(),
            old(self).consensus.wf(),
        ensures
            r == can_screen(*old(self), agent_id@, now_utc),
            final(self).rules == old(self).rules,
            final(self).cache == old(self).cache,
            final(self).reputation == old(self).reputation,
            final(self).consensus == old(self).consensus,
            final(self).loop_breaker.history_spec() == old(self).loop_breaker.history_spec(),
            final(self).loop_breaker.enabled_spec() == old(self).loop_breaker.enabled_spec(),
            final(self).loop_breaker.max_repeats_spec() == old(self).loop_breaker.max_repeats_spec(),
            final(self).loop_breaker.window_spec() == old(self).loop_breaker.window_spec(),
    {
        let s = self.reputation.current(agent_id);
        let n = self.loop_breaker.recorded_calls(agent_id);
        s.total_calls < u64::MAX && s.blocked_calls < u64::MAX && now_utc <= i64::MAX
            - BAN_DURATION_NANOS && s.score >= i32::MIN + 15 && n < usize::MAX
    }

    /// Whether the outcome of a call by the agent at `now_utc` can be
    /// counted: its counters, its score and the end of a ban it could get
    /// leave room.
    pub fn ready_to_conclude(&self, agent_id: &str, now_utc: i64) -> (r: bool)
        requires
            self.reputation.wf(),
        ensures
            r == can_conclude(*self, agent_id@, now_utc),
    {
        let s = self.reputation.current(agent_id);
        s.total_calls < u64::MAX && s.blocked_calls < u64::MAX && now_utc <= i64::MAX
            - BAN_DURATION_NANOS && s.score >= i32::MIN + 10 && s.score < i32::MAX
    }

    /// Admission of a tool call by `agent_id`, in order: a live cached
    /// result answers it; a banned agent is refused (-32003); a call the
    /// managed rule sets refuse is refused (-32001) and costs the agent 10
    /// points; a call repeated too often is refused (-32002) and costs 15
    /// points; a call of a critical tool without an approval is registered
    /// for consensus under `fresh_id` and refused (-32004), while an
    /// approval, when there is one, is consumed; any other call proceeds.
    pub fn screen_call(
        &mut self,
        agent_id: &str,
        tool_name: &str,
        arguments: &str,
        fresh_id: String,
        now_utc: i64,
        now_mono: u64,
    ) -> (r: Admission)
        requires
            can_screen(*old(self), agent_id@, now_utc),
        ensures
            final(self).reputation.wf(),
            final(self).consensus.wf(),
            final(self).rules == old(self).rules,
            ({
                let key = cache_key(agent_id@, tool_name@, arguments@);
                let probe = cache_probe(
                    old(self).cache.entries(),
                    old(self).cache.enabled_spec(),
                    key,
                    now_mono,
                );
                let rep = old(self).reputation@;
                let actions = old(self).consensus.actions();
                let hist = old(self).loop_breaker.history_spec();
                let lb = old(self).loop_breaker;
                let lc = loop_check(
                    hist,
                    lb.enabled_spec(),
                    lb.max_repeats_spec(),
                    lb.window_spec(),
                    agent_id@,
                    tool_name@,
                    arguments@,
                    now_mono,
                );
                &&& final(self).cache.entries() == probe.0
                &&& if probe.1 is Some {
                    &&& admission_view(r) == AdmissionView::Cached(probe.1->0)
                    &&& final(self).reputation@ == rep
                    &&& final(self).loop_breaker.history_spec() == hist
                    &&& final(self).consensus.actions() == actions
                } else if banned_at(rep, agent_id@, now_utc as int) {
                    &&& admission_view(r) == AdmissionView::Refused(
                        AGENT_BANNED,
                        ban_message(rep[agent_id@].banned_until->0),
                    )
                    &&& final(self).reputation@ == rep
                    &&& final(self).loop_breaker.history_spec() == hist
                    &&& final(self).consensus.actions() == actions
                } else if evaluate_spec(old(self).rules, tool_name@, arguments@) is Err {
                    &&& admission_view(r) == AdmissionView::Refused(
                        BLOCKED,
                        evaluate_spec(old(self).rules, tool_name@, arguments@)->Err_0,
                    )
                    &&& final(self).reputation@ == rep.insert(
                        agent_id@,
                        after_violation(
                            current_score(rep, agent_id@),
                            "Managed Rules Violation"@,
                            10,
                            now_utc as int,
                        ),
                    )
                    &&& final(self).loop_breaker.history_spec() == hist
                    &&& final(self).consensus.actions() == actions
                } else if lc.1 is Some {
                    &&& admission_view(r) == AdmissionView::Refused(LOOP_DETECTED, lc.1->0)
                    &&& final(self).reputation@ == rep.insert(
                        agent_id@,
                        after_violation(
                            current_score(rep, agent_id@),
                            "Recursive Loop Detected"@,
                            15,
                            now_utc as int,
                        ),
                    )
                    &&& final(self).loop_breaker.history_spec() == lc.0
                    &&& final(self).consensus.actions() == actions
                } else {
                    &&& final(self).reputation@ == rep
                    &&& final(self).loop_breaker.history_spec() == lc.0
                    &&& if approval_exists(actions, agent_id@, tool_name@, arguments@) {
                        &&& admission_view(r) == AdmissionView::Proceed
                        &&& exists|k: Seq<char>|
                            #[trigger] actions.contains_key(k) && approves(
                                actions[k],
                                agent_id@,
                                tool_name@,
                                arguments@,
                            ) && final(self).consensus.actions() == actions.remove(k)
                    } else if old(self).consensus.enabled_spec() && is_critical(
                        old(self).consensus.critical_spec(),
                        tool_name@,
                    ) {
                        &&& admission_view(r) == AdmissionView::Refused(
                            CONSENSUS_REQUIRED,
                            consensus_message(tool_name@, fresh_id@),
                        )
                        &&& final(self).consensus.actions() == actions.insert(
                            fresh_id@,
                            proposed_action(
                                fresh_id@,
                                agent_id@,
                                tool_name@,
                                arguments@,
                                now_utc,
                                old(self).consensus.required_spec(),
                            ),
                        )
                    } else {
                        &&& admission_view(r) == AdmissionView::Proceed
                        &&& final(self).consensus.actions() == actions
                    }
                }
            }),
    {
        if let Some(cached) = self.cache.get(agent_id, tool_name, arguments, now_mono) {
            return Admission::Cached(cached);
        }
        if let Err(message) = self.reputation.check_agent_status(agent_id, now_utc) {
            return Admission::Refused { code: AGENT_BANNED, message };
        }
        proof {
            if self.reputation@.contains_key(agent_id@) {
                self.reputation.lemma_wf_records(agent_id@);
            }
        }
        if let Err(message) = ManagedRuleset::evaluate(&self.rules, tool_name, arguments) {
            self.reputation.record_violation(agent_id, "Managed Rules Violation", 10, now_utc);
            return Admission::Refused { code: BLOCKED, message };
        }
        if let Err(message) = self.loop_breaker.check_and_record(agent_id, tool_name, arguments, now_mono) {
            self.reputation.record_violation(agent_id, "Recursive Loop Detected", 15, now_utc);
            return Admission::Refused { code: LOOP_DETECTED, message };
        }
        if !self.consensus.check_approval(agent_id, tool_name, arguments) {
            if let Some(action_id) = self.consensus.register_action(
                fresh_id,
                agent_id,
                tool_name,
                arguments,
                now_utc,
            ) {
                let mut message = copy_str("Action '");
                message.append(tool_name);
                message.append("' requires multi-sig consensus. Correlation ID: ");
                message.append(action_id.as_str());
                return Admission::Refused { code: CONSENSUS_REQUIRED, message };
            }
        }
        Admission::Proceed
    }

    /// The verdict on a call that passed screening, and its effect on the
    /// agent's reputation: a neural veto denies it (`neural_engine`, 10
    /// points); otherwise the policy engine decides: allowed (one point
    /// up), denied (`wasm_policy`, 5 points), or denied by default when it
    /// failed (`error: ...`, no change).
    pub fn conclude(
        &mut self,
        agent_id: &str,
        neural_veto: bool,
        policy: Result<bool, String>,
        now_utc: i64,
    ) -> (v: Verdict)
        requires
            old(self).reputation.wf(),
            can_conclude(*old(self), agent_id@, now_utc),
        ensures
            final(self).reputation.wf(),
            final(self).rules == old(self).rules,
            final(self).cache.entries() == old(self).cache.entries(),
            final(self).loop_breaker.history_spec() == old(self).loop_breaker.history_spec(),
            final(self).consensus.actions() == old(self).consensus.actions(),
            ({
                let rep = old(self).reputation@;
                let cur = current_score(rep, agent_id@);
                if neural_veto {
                    &&& !v.allowed
                    &&& v.policy_match matches Some(p) && p@ == "neural_engine"@
                    &&& final(self).reputation@ == rep.insert(
                        agent_id@,
                        after_violation(cur, "Neural Anomaly Detection"@, 10, now_utc as int),
                    )
                } else {
                    match policy {
                        Ok(true) => {
                            &&& v.allowed
                            &&& v.policy_match is None
                            &&& final(self).reputation@ == rep.insert(
                                agent_id@,
                                after_success(cur, now_utc as int),
                            )
                        },
                        Ok(false) => {
                            &&& !v.allowed
                            &&& v.policy_match matches Some(p) && p@ == "wasm_policy"@
                            &&& final(self).reputation@ == rep.insert(
                                agent_id@,
                                after_violation(cur, "Policy Violation"@, 5, now_utc as int),
                            )
                        },
                        Err(e) => {
                            &&& !v.allowed
                            &&& v.policy_match matches Some(p) && p@ == "error: "@ + e@
                            &&& final(self).reputation@ == rep
                        },
                    }
                }
            }),
    {
        proof {
            if self.reputation@.contains_key(agent_id@) {
                self.reputation.lemma_wf_records(agent_id@);
            }
        }
        if neural_veto {
            self.reputation.record_violation(agent_id, "Neural Anomaly Detection", 10, now_utc);
            return Verdict { allowed: false, policy_match: Some(copy_str("neural_engine")) };
        }
        match policy {
            Ok(true) => {
                self.reputation.record_success(agent_id, now_utc);
                Verdict { allowed: true, policy_match: None }
            },
            Ok(false) => {
                self.reputation.record_violation(agent_id, "Policy Violation", 5, now_utc);
                Verdict { allowed: false, policy_match: Some(copy_str("wasm_policy")) }
            },
            Err(e) => {
                let mut p = copy_str("error: ");
                p.append(e.as_str());
                Verdict { allowed: false, policy_match: Some(p) }
            },
        }
    }
}

/// The verdict on a tool call.
pub struct Verdict {
    /// Whether the call is allowed.
    pub allowed: bool,
    /// What denied it, if it was denied.
    pub policy_match: Option<String>,
}

impl Verdict {
    /// The audit status: "ALLOWED" or "DENIED".
    pub fn status(&self) -> (s: &'static str)
        ensures
            s@ == (if self.allowed {
                "ALLOWED"@
            } else {
                "DENIED"@
            }),
    {
        if self.allowed {
            "ALLOWED"
        } else {
            "DENIED"
        }
    }
}

/// The response to a denied tool call with the JSON id text `id`.
pub fn denied_response(id: Option<&str>, tool_name: &str) -> (s: String)
    ensures
        s@ == error_response_text(
            match id {
                Some(t) => Some(t@),
                None => None,
            },
            POLICY_DENIED,
            "Tool call '"@ + tool_name@ + "' denied by security policy"@,
        ),
{
    let mut m = copy_str("Tool call '");
    m.append(tool_name);
    m.append("' denied by security policy");
    jsonrpc_error_response(id, POLICY_DENIED, m.as_str())
}


/// Largest text the `analyze_prompt` tool takes, in bytes.
pub const PROMPT_LIMIT: usize = 65536;

/// Why the `analyze_prompt` tool refuses its text.
#[derive(Debug, PartialEq, Eq)]
pub enum PromptParamError {
    /// The text is empty or white space.
    Empty,
    /// The text is longer than [`PROMPT_LIMIT`] bytes; its length.
    TooLong(usize),
}

/// The message of a refused text.
pub open spec fn prompt_error_message(e: PromptParamError) -> Seq<char> {
    match e {
        PromptParamError::Empty => "text must not be empty"@,
        PromptParamError::TooLong(n) => "text exceeds 65536 byte limit ("@ + decimal(n as nat)
            + " bytes)"@,
    }
}

impl PromptParamError {
    /// The message of the error.
    pub fn message(&self) -> (s: String)
        ensures
            s@ == prompt_error_message(*self),
    {
        match self {
            PromptParamError::Empty => copy_str("text must not be empty"),
            PromptParamError::TooLong(n) => {
                let mut s = copy_str("text exceeds 65536 byte limit (");
                let d = decimal_string(*n as u64);
                s.append(d.as_str());
                s.append(" bytes)");
                s
            },
        }
    }
}

/// The text the `analyze_prompt` tool analyzes: the given text trimmed,
/// refused when nothing is left or when the given text is longer than the
/// limit.
pub fn check_prompt_text(text: &str) -> (r: Result<String, PromptParamError>)
    ensures
        trim(text@).len() == 0 ==> r == Err::<String, PromptParamError>(PromptParamError::Empty),
        trim(text@).len() > 0 && encode_utf8(text@).len() > PROMPT_LIMIT ==> r == Err::<String, PromptParamError>(PromptParamError::TooLong(encode_utf8(text@).len() as usize)),
        trim(text@).len() > 0 && encode_utf8(text@).len() <= PROMPT_LIMIT ==> (r matches Ok(t) && t@ == trim(text@)),
        r matches Ok(t) ==> t@ == trim(text@) && trim(text@).len() > 0 && encode_utf8(text@).len() <= PROMPT_LIMIT,
{
    let t = trim_str(text);
    if t.as_str().unicode_len() == 0 {
        return Err(PromptParamError::Empty);
    }
    let n = text.as_bytes().len();
    if n > PROMPT_LIMIT {
        return Err(PromptParamError::TooLong(n));
    }
    Ok(t)
}

} // verus!
