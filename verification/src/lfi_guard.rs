//! Local File Inclusion (LFI) guard: detection of path traversal and
//! sensitive file access patterns with an ASCII case-insensitive
//! multi-pattern search.
use vstd::prelude::*;
use crate::matcher::{
    ac_find, ac_is_match, any_match_ci, lemma_leftmost_is_named, leftmost_pattern,
    small_pattern_set,
};
use crate::text::{copy_str, strs_view};

verus! {

/// Path traversal and sensitive file patterns, in priority order.
pub open spec fn lfi_pattern_seq() -> Seq<Seq<char>> {
    seq![
        "../"@,
        "..\\"@,
        "/etc/passwd"@,
        "/etc/shadow"@,
        "/etc/group"@,
        "/etc/hosts"@,
        "/proc/self"@,
        "/var/log/"@,
        "C:\\Windows\\"@,
        "C:/Windows/"@,
        ".ssh/id_rsa"@,
        ".ssh/id_dsa"@,
        ".ssh/authorized_keys"@,
        "config.php"@,
        "wp-config.php"@,
        ".env"@,
        ".git/"@,
        "htaccess"@,
    ]
}

/// The patterns of [`lfi_pattern_seq`], as string slices.
pub fn lfi_patterns() -> (v: Vec<&'static str>)
    ensures
        strs_view(v@) == lfi_pattern_seq(),
{
    let v = vec![
        "../",
        "..\\",
        "/etc/passwd",
        "/etc/shadow",
        "/etc/group",
        "/etc/hosts",
        "/proc/self",
        "/var/log/",
        "C:\\Windows\\",
        "C:/Windows/",
        ".ssh/id_rsa",
        ".ssh/id_dsa",
        ".ssh/authorized_keys",
        "config.php",
        "wp-config.php",
        ".env",
        ".git/",
        "htaccess",
    ];
    assert(strs_view(v@) =~= lfi_pattern_seq());
    v
}

/// The patterns of [`lfi_pattern_seq`] are few and short.
pub proof fn lemma_lfi_pattern_seq_small()
    ensures
        small_pattern_set(lfi_pattern_seq()),
{
    reveal_strlit("../");
    reveal_strlit("..\\");
    reveal_strlit("/etc/passwd");
    reveal_strlit("/etc/shadow");
    reveal_strlit("/etc/group");
    reveal_strlit("/etc/hosts");
    reveal_strlit("/proc/self");
    reveal_strlit("/var/log/");
    reveal_strlit("C:\\Windows\\");
    reveal_strlit("C:/Windows/");
    reveal_strlit(".ssh/id_rsa");
    reveal_strlit(".ssh/id_dsa");
    reveal_strlit(".ssh/authorized_keys");
    reveal_strlit("config.php");
    reveal_strlit("wp-config.php");
    reveal_strlit(".env");
    reveal_strlit(".git/");
    reveal_strlit("htaccess");
}

/// Result of LFI detection.
pub struct LfiDetectionResult {
    /// Whether LFI was detected.
    pub is_attack: bool,
    /// The pattern that matched (if any).
    pub matched_pattern: Option<String>,
}

/// The pattern of the leftmost-first LFI match in `input`, if any.
pub open spec fn lfi_match(input: Seq<char>) -> Option<Seq<char>> {
    match leftmost_pattern(input, lfi_pattern_seq()) {
        Some(j) => Some(lfi_pattern_seq()[j]),
        None => None,
    }
}

/// Checks whether `input` contains an LFI pattern (ASCII letters compared
/// without regard to case) and reports the pattern of the leftmost match,
/// the earliest listed pattern when several start there.
pub fn detect_lfi(input: &str) -> (r: LfiDetectionResult)
    ensures
        r.is_attack == any_match_ci(input@, lfi_pattern_seq()),
        r.is_attack == r.matched_pattern is Some,
        r.matched_pattern matches Some(p) ==> lfi_match(input@) == Some(p@),
        r.matched_pattern is None ==> lfi_match(input@) is None,
{
    let pats = lfi_patterns();
    proof {
        lemma_lfi_pattern_seq_small();
    }
    match ac_find(pats.as_slice(), input) {
        Some((j, _start)) => {
            proof {
                let i = choose|i: int| crate::matcher::leftmost_first(input@, strs_view(pats@), j as int, i);
                lemma_leftmost_is_named(input@, lfi_pattern_seq(), j as int, i);
            }
            LfiDetectionResult { is_attack: true, matched_pattern: Some(copy_str(pats[j])) }
        },
        None => LfiDetectionResult { is_attack: false, matched_pattern: None },
    }
}

/// Quick check whether `input` contains an LFI pattern.
pub fn contains_lfi(input: &str) -> (r: bool)
    ensures
        r == any_match_ci(input@, lfi_pattern_seq()),
{
    let pats = lfi_patterns();
    proof {
        lemma_lfi_pattern_seq_small();
    }
    ac_is_match(pats.as_slice(), input)
}

/// Law: the quick check and the detailed detection agree on every input.
pub proof fn lemma_contains_lfi_agrees_with_detect(input: Seq<char>)
    ensures
        (lfi_match(input) is Some) == any_match_ci(input, lfi_pattern_seq()),
{
}

} // verus!
