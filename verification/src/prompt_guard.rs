//! Prompt injection guard: an exact, ASCII case-insensitive phrase search
//! followed by flexible regular-expression heuristics.
use vstd::prelude::*;
use crate::matcher::{
    ac_find, ac_is_match, any_match_ci, lemma_leftmost_is_named, leftmost_pattern,
    regex_set_first, regex_set_first_match, regex_set_is_match, small_pattern_set,
};
use crate::text::{copy_str, decimal, decimal_string, strs_view};
use vstd::string::StringExecFns;

verus! {

/// Prompt injection and jailbreak phrases, in priority order.
pub open spec fn prompt_pattern_seq() -> Seq<Seq<char>> {
    seq![
        "ignore all previous instructions"@,
        "ignore previous instructions"@,
        "ignore everything above"@,
        "disregard all previous instructions"@,
        "forget all previous instructions"@,
        "ignore the instructions"@,
        "stop what you are doing"@,
        "new instructions:"@,
        "actually, do this instead"@,
        "system message:"@,
        "user message:"@,
        "assistant message:"@,
        "end of conversation"@,
        "end of transmission"@,
        "ignore everything before"@,
        "respond as a"@,
        "act as a"@,
        "bypass the filter"@,
        "ignore safety guidelines"@,
        "ignore security policies"@,
        "forget your training"@,
        "into developer mode"@,
        "debug mode"@,
        "root access"@,
        "shell access"@,
        "prompt injection"@,
        "jailbreak"@,
        "forget everything"@,
        "override system"@,
        "as an unrestricted"@,
        "without any restrictions"@,
        "do anything now"@,
        "stay in character"@,
    ]
}

/// The patterns of [`prompt_pattern_seq`], as string slices.
pub fn prompt_patterns() -> (v: Vec<&'static str>)
    ensures
        strs_view(v@) == prompt_pattern_seq(),
{
    let v = vec![
        "ignore all previous instructions",
        "ignore previous instructions",
        "ignore everything above",
        "disregard all previous instructions",
        "forget all previous instructions",
        "ignore the instructions",
        "stop what you are doing",
        "new instructions:",
        "actually, do this instead",
        "system message:",
        "user message:",
        "assistant message:",
        "end of conversation",
        "end of transmission",
        "ignore everything before",
        "respond as a",
        "act as a",
        "bypass the filter",
        "ignore safety guidelines",
        "ignore security policies",
        "forget your training",
        "into developer mode",
        "debug mode",
        "root access",
        "shell access",
        "prompt injection",
        "jailbreak",
        "forget everything",
        "override system",
        "as an unrestricted",
        "without any restrictions",
        "do anything now",
        "stay in character",
    ];
    assert(strs_view(v@) =~= prompt_pattern_seq());
    v
}

/// The patterns of [`prompt_pattern_seq`] are few and short.
pub proof fn lemma_prompt_pattern_seq_small()
    ensures
        small_pattern_set(prompt_pattern_seq()),
{
    reveal_strlit("ignore all previous instructions");
    reveal_strlit("ignore previous instructions");
    reveal_strlit("ignore everything above");
    reveal_strlit("disregard all previous instructions");
    reveal_strlit("forget all previous instructions");
    reveal_strlit("ignore the instructions");
    reveal_strlit("stop what you are doing");
    reveal_strlit("new instructions:");
    reveal_strlit("actually, do this instead");
    reveal_strlit("system message:");
    reveal_strlit("user message:");
    reveal_strlit("assistant message:");
    reveal_strlit("end of conversation");
    reveal_strlit("end of transmission");
    reveal_strlit("ignore everything before");
    reveal_strlit("respond as a");
    reveal_strlit("act as a");
    reveal_strlit("bypass the filter");
    reveal_strlit("ignore safety guidelines");
    reveal_strlit("ignore security policies");
    reveal_strlit("forget your training");
    reveal_strlit("into developer mode");
    reveal_strlit("debug mode");
    reveal_strlit("root access");
    reveal_strlit("shell access");
    reveal_strlit("prompt injection");
    reveal_strlit("jailbreak");
    reveal_strlit("forget everything");
    reveal_strlit("override system");
    reveal_strlit("as an unrestricted");
    reveal_strlit("without any restrictions");
    reveal_strlit("do anything now");
    reveal_strlit("stay in character");
}

/// Flexible prompt injection heuristics (regular expressions), in order.
pub open spec fn prompt_regex_seq() -> Seq<Seq<char>> {
    seq![
        "(?i)ignore\\s+(\\w+\\s+){0,20}instructions?"@,
        "(?i)disregard\\s+(\\w+\\s+){0,20}instructions?"@,
        "(?i)forget\\s+(\\w+\\s+){0,20}instructions?"@,
        "(?i)switch\\s+to\\s+developer\\s+mode"@,
        "(?i)act\\s+as\\s+an?\\s+unrestricted"@,
        "(?i)you\\s+are\\s+now\\s+in\\s+.*mode"@,
        "(?i)starting\\s+now,?\\s+you\\s+are"@,
        "(?i)imagine\\s+you\\s+are\\s+a"@,
    ]
}

/// The patterns of [`prompt_regex_seq`], as string slices.
pub fn prompt_regexes() -> (v: Vec<&'static str>)
    ensures
        strs_view(v@) == prompt_regex_seq(),
{
    let v = vec![
        "(?i)ignore\\s+(\\w+\\s+){0,20}instructions?",
        "(?i)disregard\\s+(\\w+\\s+){0,20}instructions?",
        "(?i)forget\\s+(\\w+\\s+){0,20}instructions?",
        "(?i)switch\\s+to\\s+developer\\s+mode",
        "(?i)act\\s+as\\s+an?\\s+unrestricted",
        "(?i)you\\s+are\\s+now\\s+in\\s+.*mode",
        "(?i)starting\\s+now,?\\s+you\\s+are",
        "(?i)imagine\\s+you\\s+are\\s+a",
    ];
    assert(strs_view(v@) =~= prompt_regex_seq());
    v
}

/// Result of prompt injection detection.
pub struct PromptDetectionResult {
    /// Whether prompt injection was detected.
    pub is_attack: bool,
    /// The pattern that matched (if any).
    pub matched_pattern: Option<String>,
}

/// The label reported for heuristic number `idx`.
pub open spec fn heuristic_label(idx: nat) -> Seq<char> {
    "Heuristic Pattern #"@ + decimal(idx)
}

/// What prompt injection detection reports for `input`: the phrase of the
/// leftmost-first phrase match, else the label of the first matching
/// heuristic, else nothing.
pub open spec fn prompt_match(input: Seq<char>) -> Option<Seq<char>> {
    match leftmost_pattern(input, prompt_pattern_seq()) {
        Some(j) => Some(prompt_pattern_seq()[j]),
        None => match regex_set_first(prompt_regex_seq(), input) {
            Some(idx) => Some(heuristic_label(idx)),
            None => None,
        },
    }
}

/// Whether `input` looks like prompt injection: a listed phrase occurs
/// (ASCII letters compared without regard to case) or a heuristic matches.
pub open spec fn is_prompt_injection(input: Seq<char>) -> bool {
    any_match_ci(input, prompt_pattern_seq()) || regex_set_first(prompt_regex_seq(), input) is Some
}

/// Checks `input` for prompt injection: first the exact phrases (reporting
/// the leftmost match), then the heuristics (reporting the first matching
/// one by number).
pub fn detect_prompt_injection(input: &str) -> (r: PromptDetectionResult)
    ensures
        r.is_attack == is_prompt_injection(input@),
        r.is_attack == r.matched_pattern is Some,
        r.matched_pattern matches Some(p) ==> prompt_match(input@) == Some(p@),
        r.matched_pattern is None ==> prompt_match(input@) is None,
{
    let pats = prompt_patterns();
    proof {
        lemma_prompt_pattern_seq_small();
    }
    match ac_find(pats.as_slice(), input) {
        Some((j, _start)) => {
            proof {
                let i = choose|i: int| crate::matcher::leftmost_first(input@, strs_view(pats@), j as int, i);
                lemma_leftmost_is_named(input@, prompt_pattern_seq(), j as int, i);
            }
            return PromptDetectionResult { is_attack: true, matched_pattern: Some(copy_str(pats[j])) };
        },
        None => {},
    }
    let regexes = prompt_regexes();
    match regex_set_first_match(regexes.as_slice(), input) {
        Some(idx) => {
            let mut label = String::from_str("Heuristic Pattern #");
            let digits = decimal_string(idx as u64);
            label.append(digits.as_str());
            proof {
                reveal_strlit("Heuristic Pattern #");
            }
            PromptDetectionResult { is_attack: true, matched_pattern: Some(label) }
        },
        None => PromptDetectionResult { is_attack: false, matched_pattern: None },
    }
}

/// Quick check whether `input` looks like prompt injection.
pub fn contains_prompt_injection(input: &str) -> (r: bool)
    ensures
        r == is_prompt_injection(input@),
{
    let pats = prompt_patterns();
    proof {
        lemma_prompt_pattern_seq_small();
    }
    if ac_is_match(pats.as_slice(), input) {
        return true;
    }
    let regexes = prompt_regexes();
    regex_set_is_match(regexes.as_slice(), input)
}

} // verus!
