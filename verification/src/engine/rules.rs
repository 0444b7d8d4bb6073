//! Managed rule sets: restricted commands, path traversal, SQL injection and
//! prompt injection, evaluated on folded (normalised) text.
use vstd::prelude::*;
use crate::config::ManagedRulesConfig;
use crate::lfi_guard::{contains_lfi, lfi_pattern_seq};
use crate::matcher::{any_match_ci, leftmost_match, regex_set_first};
use crate::prompt_guard::{detect_prompt_injection, is_prompt_injection, prompt_match};
use crate::sql_guard::{detect_sql_injection, sql_match, sql_pattern_seq};
use crate::text::{
    char_from_u32, chars_of, contains, contains_chars, is_alnum, is_ascii_alnum, join2,
    occurs_ci, occurs_ci_at, push_char, strs_view,
};

verus! {

// ---------------------------------------------------------------------------
// Folding
// ---------------------------------------------------------------------------

/// Characters removed by folding: NUL, zero-width characters, the byte
/// order mark and the bidirectional embedding, override and isolate marks.
pub open spec fn is_stripped(c: char) -> bool {
    c == '\u{0000}' || c == '\u{200B}' || c == '\u{200C}' || c == '\u{200D}' || c == '\u{FEFF}'
        || ('\u{202A}' <= c && c <= '\u{202E}') || ('\u{2066}' <= c && c <= '\u{2069}')
}

/// What folding makes of one character: `None` when it is removed, else
/// the character it stands for. Fullwidth Latin letters and digits map to
/// ASCII, and Cyrillic and Greek homoglyphs of Latin letters map to the
/// Latin letter; every other character is kept.
pub open spec fn fold_char(c: char) -> Option<char> {
    if is_stripped(c) {
        None
    } else if '\u{FF21}' <= c && c <= '\u{FF3A}' {
        Some(((c as u32) - 0xFF21 + 65) as char)
    } else if '\u{FF41}' <= c && c <= '\u{FF5A}' {
        Some(((c as u32) - 0xFF41 + 97) as char)
    } else if '\u{FF10}' <= c && c <= '\u{FF19}' {
        Some(((c as u32) - 0xFF10 + 48) as char)
    } else if c == '\u{0430}' {
        Some('a')
    } else if c == '\u{0435}' {
        Some('e')
    } else if c == '\u{043E}' {
        Some('o')
    } else if c == '\u{0440}' {
        Some('p')
    } else if c == '\u{0441}' {
        Some('c')
    } else if c == '\u{0443}' {
        Some('y')
    } else if c == '\u{0445}' {
        Some('x')
    } else if c == '\u{0456}' {
        Some('i')
    } else if c == '\u{0391}' || c == '\u{0410}' {
        Some('A')
    } else if c == '\u{0412}' {
        Some('B')
    } else if c == '\u{0415}' {
        Some('E')
    } else if c == '\u{041A}' {
        Some('K')
    } else if c == '\u{041C}' {
        Some('M')
    } else if c == '\u{041D}' {
        Some('H')
    } else if c == '\u{041E}' {
        Some('O')
    } else if c == '\u{0420}' {
        Some('P')
    } else if c == '\u{0421}' {
        Some('C')
    } else if c == '\u{0422}' {
        Some('T')
    } else if c == '\u{0425}' {
        Some('X')
    } else {
        Some(c)
    }
}

/// The folded form of a character sequence, character by character.
pub open spec fn fold(s: Seq<char>) -> Seq<char>
    decreases s.len(),
{
    if s.len() == 0 {
        Seq::empty()
    } else {
        fold(s.drop_last()) + match fold_char(s.last()) {
            Some(c) => seq![c],
            None => Seq::empty(),
        }
    }
}

fn fold_one(c: char) -> (r: Option<char>)
    ensures
        r == fold_char(c),
{
    if c == '\u{0000}' || c == '\u{200B}' || c == '\u{200C}' || c == '\u{200D}' || c == '\u{FEFF}'
        || ('\u{202A}' <= c && c <= '\u{202E}') || ('\u{2066}' <= c && c <= '\u{2069}') {
        None
    } else if '\u{FF21}' <= c && c <= '\u{FF3A}' {
        char_from_u32((c as u32) - 0xFF21 + 65)
    } else if '\u{FF41}' <= c && c <= '\u{FF5A}' {
        char_from_u32((c as u32) - 0xFF41 + 97)
    } else if '\u{FF10}' <= c && c <= '\u{FF19}' {
        char_from_u32((c as u32) - 0xFF10 + 48)
    } else if c == '\u{0430}' {
        Some('a')
    } else if c == '\u{0435}' {
        Some('e')
    } else if c == '\u{043E}' {
        Some('o')
    } else if c == '\u{0440}' {
        Some('p')
    } else if c == '\u{0441}' {
        Some('c')
    } else if c == '\u{0443}' {
        Some('y')
    } else if c == '\u{0445}' {
        Some('x')
    } else if c == '\u{0456}' {
        Some('i')
    } else if c == '\u{0391}' || c == '\u{0410}' {
        Some('A')
    } else if c == '\u{0412}' {
        Some('B')
    } else if c == '\u{0415}' {
        Some('E')
    } else if c == '\u{041A}' {
        Some('K')
    } else if c == '\u{041C}' {
        Some('M')
    } else if c == '\u{041D}' {
        Some('H')
    } else if c == '\u{041E}' {
        Some('O')
    } else if c == '\u{0420}' {
        Some('P')
    } else if c == '\u{0421}' {
        Some('C')
    } else if c == '\u{0422}' {
        Some('T')
    } else if c == '\u{0425}' {
        Some('X')
    } else {
        Some(c)
    }
}

/// Folds untrusted text before System 1 matching: strips NUL, zero-width
/// and bidirectional control characters and maps fullwidth forms and common
/// homoglyphs to ASCII.
pub fn fold_system1(input: &str) -> (out: String)
    ensures
        out@ == fold(input@),
{
    let v = chars_of(input);
    let mut out = String::new();
    let mut i: usize = 0;
    while i < v.len()
        invariant
            i <= v.len(),
            v@ == input@,
            out@ == fold(v@.take(i as int)),
        decreases v.len() - i,
    {
        assert(v@.take(i + 1).drop_last() =~= v@.take(i as int));
        match fold_one(v[i]) {
            Some(c) => push_char(&mut out, c),
            None => {},
        }
        i = i + 1;
        assert(out@ =~= fold(v@.take(i as int)));
    }
    assert(v@.take(v.len() as int) =~= v@);
    out
}

/// Folding distributes over concatenation.
pub proof fn lemma_fold_concat(a: Seq<char>, b: Seq<char>)
    ensures
        fold(a + b) == fold(a) + fold(b),
    decreases b.len(),
{
    if b.len() == 0 {
        assert(a + b =~= a);
        assert(fold(a) + fold(b) =~= fold(a));
    } else {
        lemma_fold_concat(a, b.drop_last());
        assert((a + b).drop_last() =~= a + b.drop_last());
        assert((a + b).last() == b.last());
    }
}

/// Every character that folding produces is left alone by folding.
pub proof fn lemma_fold_char_fixed(c: char)
    ensures
        fold_char(c) matches Some(d) ==> fold_char(d) == Some(d),
{
}

/// Law: folding is idempotent; folded text folds to itself.
pub proof fn lemma_fold_idempotent(s: Seq<char>)
    ensures
        fold(fold(s)) == fold(s),
    decreases s.len(),
{
    if s.len() > 0 {
        lemma_fold_idempotent(s.drop_last());
        let tail = match fold_char(s.last()) {
            Some(c) => seq![c],
            None => Seq::<char>::empty(),
        };
        lemma_fold_concat(fold(s.drop_last()), tail);
        lemma_fold_char_fixed(s.last());
        assert(fold(Seq::<char>::empty()) =~= Seq::<char>::empty());
        if tail.len() == 1 {
            assert(tail.drop_last() =~= Seq::<char>::empty());
            assert(fold(tail) =~= fold(tail.drop_last()) + tail);
        } else {
            assert(tail =~= Seq::<char>::empty());
        }
    }
}

/// Law: folded text holds none of the stripped characters.
pub proof fn lemma_fold_strips(s: Seq<char>)
    ensures
        forall|k: int| 0 <= k < fold(s).len() ==> !is_stripped(#[trigger] fold(s)[k]),
    decreases s.len(),
{
    if s.len() > 0 {
        lemma_fold_strips(s.drop_last());
        let prev = fold(s.drop_last());
        assert forall|k: int| 0 <= k < fold(s).len() implies !is_stripped(#[trigger] fold(s)[k]) by {
            if k < prev.len() {
                assert(fold(s)[k] == prev[k]);
            }
        }
    }
}

/// Law: folding leaves ASCII text unchanged except for the removal of NUL.
pub proof fn lemma_fold_keeps_ascii(s: Seq<char>)
    requires
        forall|k: int| 0 <= k < s.len() ==> '\u{0001}' <= #[trigger] s[k] && s[k] <= '\u{007F}',
    ensures
        fold(s) == s,
    decreases s.len(),
{
    if s.len() > 0 {
        lemma_fold_keeps_ascii(s.drop_last());
        assert(s.drop_last() + seq![s.last()] =~= s);
    }
}

// ---------------------------------------------------------------------------
// Restricted commands
// ---------------------------------------------------------------------------

/// Dangerous system commands.
pub open spec fn dangerous_seq() -> Seq<Seq<char>> {
    seq!["rm"@, "format"@, "mkfs"@, "dd"@, "chmod"@, "chown"@, "shutdown"@, "reboot"@]
}

fn dangerous() -> (v: Vec<&'static str>)
    ensures
        strs_view(v@) == dangerous_seq(),
{
    let v = vec!["rm", "format", "mkfs", "dd", "chmod", "chown", "shutdown", "reboot"];
    assert(strs_view(v@) =~= dangerous_seq());
    v
}

/// A tool name hits when it contains a dangerous command anywhere (tool
/// names are server-controlled tokens).
pub open spec fn tool_hit(tool: Seq<char>) -> bool {
    exists|j: int| 0 <= j < dangerous_seq().len() && contains(tool, #[trigger] dangerous_seq()[j])
}

/// `h[i..i + n]` is a whole word: a non-empty maximal run of ASCII letters
/// and digits.
pub open spec fn word_at(h: Seq<char>, i: int, n: int) -> bool {
    &&& 0 <= i
    &&& 0 < n
    &&& i + n <= h.len()
    &&& (i == 0 || !is_alnum(h[i - 1]))
    &&& (i + n == h.len() || !is_alnum(h[i + n]))
    &&& forall|k: int| i <= k < i + n ==> is_alnum(#[trigger] h[k])
}

/// Argument text hits when one of its whole words equals a dangerous
/// command, ASCII letters compared without regard to case.
pub open spec fn args_hit(args: Seq<char>) -> bool {
    exists|j: int, i: int|
        0 <= j < dangerous_seq().len() && word_at(args, i, dangerous_seq()[j].len() as int)
            && #[trigger] occurs_ci(args, dangerous_seq()[j], i)
}

fn is_word_at(h: &Vec<char>, i: usize, n: usize) -> (r: bool)
    ensures
        r == word_at(h@, i as int, n as int),
{
    if n == 0 || i > h.len() || n > h.len() - i {
        return false;
    }
    if i > 0 && is_ascii_alnum(h[i - 1]) {
        return false;
    }
    if i + n < h.len() && is_ascii_alnum(h[i + n]) {
        return false;
    }
    let mut k = i;
    while k < i + n
        invariant
            i <= k <= i + n <= h.len(),
            forall|m: int| i <= m < k ==> is_alnum(#[trigger] h@[m]),
        decreases i + n - k,
    {
        if !is_ascii_alnum(h[k]) {
            return false;
        }
        k = k + 1;
    }
    true
}

fn tool_contains_dangerous(tool: &Vec<char>) -> (r: bool)
    ensures
        r == tool_hit(tool@),
{
    let cmds = dangerous();
    let mut j: usize = 0;
    while j < cmds.len()
        invariant
            strs_view(cmds@) == dangerous_seq(),
            j <= cmds.len(),
            forall|m: int| 0 <= m < j ==> !contains(tool@, #[trigger] dangerous_seq()[m]),
        decreases cmds.len() - j,
    {
        let cmd = chars_of(cmds[j]);
        if contains_chars(tool, &cmd) {
            assert(contains(tool@, dangerous_seq()[j as int]));
            return true;
        }
        j = j + 1;
    }
    false
}

fn args_contain_dangerous(args: &Vec<char>) -> (r: bool)
    ensures
        r == args_hit(args@),
{
    let cmds = dangerous();
    let mut j: usize = 0;
    while j < cmds.len()
        invariant
            strs_view(cmds@) == dangerous_seq(),
            j <= cmds.len(),
            forall|m: int, i: int|
                0 <= m < j ==> !(word_at(args@, i, dangerous_seq()[m].len() as int)
                    && #[trigger] occurs_ci(args@, dangerous_seq()[m], i)),
        decreases cmds.len() - j,
    {
        let cmd = chars_of(cmds[j]);
        let mut i: usize = 0;
        while i < args.len()
            invariant
                strs_view(cmds@) == dangerous_seq(),
                j < cmds.len(),
                cmd@ == dangerous_seq()[j as int],
                i <= args.len(),
                forall|m: int, q: int|
                    0 <= m < j ==> !(word_at(args@, q, dangerous_seq()[m].len() as int)
                        && #[trigger] occurs_ci(args@, dangerous_seq()[m], q)),
                forall|q: int|
                    0 <= q < i ==> !(word_at(args@, q, cmd@.len() as int)
                        && #[trigger] occurs_ci(args@, cmd@, q)),
            decreases args.len() - i,
        {
            if is_word_at(args, i, cmd.len()) && occurs_ci_at(args, &cmd, i) {
                assert(word_at(args@, i as int, dangerous_seq()[j as int].len() as int)
                    && occurs_ci(args@, dangerous_seq()[j as int], i as int));
                return true;
            }
            i = i + 1;
        }
        assert forall|m: int, q: int|
            0 <= m < j + 1 implies !(word_at(args@, q, dangerous_seq()[m].len() as int)
                && #[trigger] occurs_ci(args@, dangerous_seq()[m], q)) by {
            if m == j && word_at(args@, q, dangerous_seq()[m].len() as int) {
                assert(0 <= q < args.len());
            }
        }
        j = j + 1;
    }
    false
}

// ---------------------------------------------------------------------------
// Evaluation
// ---------------------------------------------------------------------------

/// What the managed rule sets decide for a tool call: the first rule set,
/// in the order restricted commands, LFI, SQL injection, prompt injection,
/// that is enabled and hits gives the block message; otherwise the call
/// passes. All matching is on folded text; the restricted-command message
/// names the tool as given.
pub open spec fn evaluate_spec(
    config: ManagedRulesConfig,
    tool: Seq<char>,
    args: Seq<char>,
) -> Result<(), Seq<char>> {
    let ft = fold(tool);
    let fa = fold(args);
    if config.restricted_commands && (tool_hit(ft) || args_hit(fa)) {
        Err("Restricted command detected: "@ + tool)
    } else if config.lfi_protection && any_match_ci(fa, lfi_pattern_seq()) {
        Err("Local File Inclusion (LFI) attempt detected"@)
    } else if config.sql_injection && sql_match(fa) is Some {
        Err("SQL Injection blocked: "@ + sql_match(fa).unwrap())
    } else if config.prompt_injection && is_prompt_injection(fa) {
        Err("Prompt Injection blocked: "@ + prompt_match(fa).unwrap())
    } else {
        Ok(())
    }
}

/// Law: once the rule sets checked before it let a call through, the
/// prompt injection rule set refuses it exactly when the prompt guard
/// flags the folded arguments, by a listed phrase or by a heuristic
/// pattern. A phrase is reported by the leftmost-first match; without one,
/// the first matching heuristic is reported by number.
pub proof fn lemma_prompt_rule_follows_guard(config: ManagedRulesConfig, tool: Seq<char>, args: Seq<char>)
    requires
        config.prompt_injection,
        !(config.restricted_commands && (tool_hit(fold(tool)) || args_hit(fold(args)))),
        !(config.lfi_protection && any_match_ci(fold(args), lfi_pattern_seq())),
        !(config.sql_injection && sql_match(fold(args)) is Some),
    ensures
        evaluate_spec(config, tool, args) is Err <==> (any_match_ci(
            fold(args),
            crate::prompt_guard::prompt_pattern_seq(),
        ) || regex_set_first(crate::prompt_guard::prompt_regex_seq(), fold(args)) is Some),
        any_match_ci(fold(args), crate::prompt_guard::prompt_pattern_seq()) ==> evaluate_spec(
            config,
            tool,
            args,
        ) == Err::<(), Seq<char>>(
            "Prompt Injection blocked: "@ + crate::prompt_guard::prompt_pattern_seq()[leftmost_match(
                fold(args),
                crate::prompt_guard::prompt_pattern_seq(),
            ).0],
        ),
        !any_match_ci(fold(args), crate::prompt_guard::prompt_pattern_seq()) ==> (regex_set_first(
            crate::prompt_guard::prompt_regex_seq(),
            fold(args),
        ) matches Some(idx) ==> evaluate_spec(config, tool, args) == Err::<(), Seq<char>>(
            "Prompt Injection blocked: "@ + crate::prompt_guard::heuristic_label(idx),
        )),
{
}

/// The view of a rule-set decision.
pub open spec fn decision_view(r: Result<(), String>) -> Result<(), Seq<char>> {
    match r {
        Ok(()) => Ok(()),
        Err(s) => Err(s@),
    }
}

/// Managed ruleset engine.
pub struct ManagedRuleset;

impl ManagedRuleset {
    /// Evaluates a tool call against the managed security rules. Tool names
    /// hit on any dangerous command they contain; argument text hits only
    /// on whole words ("confirm", "address" and "odd" do not hold "rm",
    /// "dd").
    pub fn evaluate(config: &ManagedRulesConfig, tool_name: &str, arguments: &str) -> (r: Result<
        (),
        String,
    >)
        ensures
            decision_view(r) == evaluate_spec(*config, tool_name@, arguments@),
    {
        let folded = fold_system1(arguments);
        if config.restricted_commands {
            let folded_tool = fold_system1(tool_name);
            let tool_chars = chars_of(folded_tool.as_str());
            let arg_chars = chars_of(folded.as_str());
            let tool_hit = tool_contains_dangerous(&tool_chars);
            let args_hit = args_contain_dangerous(&arg_chars);
            if tool_hit || args_hit {
                return Err(join2("Restricted command detected: ", tool_name));
            }
        }
        if config.lfi_protection && contains_lfi(folded.as_str()) {
            return Err(crate::text::copy_str("Local File Inclusion (LFI) attempt detected"));
        }
        if config.sql_injection {
            let result = detect_sql_injection(folded.as_str());
            if result.is_attack {
                match result.matched_pattern {
                    Some(p) => {
                        return Err(join2("SQL Injection blocked: ", p.as_str()));
                    },
                    None => {},
                }
            }
        }
        if config.prompt_injection {
            let result = detect_prompt_injection(folded.as_str());
            if result.is_attack {
                match result.matched_pattern {
                    Some(p) => {
                        return Err(join2("Prompt Injection blocked: ", p.as_str()));
                    },
                    None => {},
                }
            }
        }
        Ok(())
    }
}

/// Law: with every rule set switched off, every tool call passes.
pub proof fn lemma_all_rules_off_passes(config: ManagedRulesConfig, tool: Seq<char>, args: Seq<char>)
    requires
        !config.restricted_commands,
        !config.lfi_protection,
        !config.sql_injection,
        !config.prompt_injection,
    ensures
        evaluate_spec(config, tool, args) == Ok::<(), Seq<char>>(()),
{
}

/// Law: a tool whose name contains a dangerous command is blocked whatever
/// its arguments, when restricted commands are on.
pub proof fn lemma_dangerous_tool_blocked(config: ManagedRulesConfig, tool: Seq<char>, args: Seq<char>)
    requires
        config.restricted_commands,
        tool_hit(fold(tool)),
    ensures
        evaluate_spec(config, tool, args) == Err::<(), Seq<char>>("Restricted command detected: "@ + tool),
{
}

} // verus!
