//! SQL injection guard: an ASCII case-insensitive multi-pattern search for
//! tautologies, comments, UNION queries, destructive and stacked statements
//! and well-known injection functions.
use vstd::prelude::*;
use crate::matcher::{
    ac_find, ac_is_match, any_match_ci, byte_offset, lemma_leftmost_is_named, leftmost_match,
    leftmost_pattern, small_pattern_set,
};
use crate::text::{copy_str, strs_view};

verus! {

/// SQL injection patterns, in priority order.
pub open spec fn sql_pattern_seq() -> Seq<Seq<char>> {
    seq![
        "' or '1'='1"@,
        "' or 1=1"@,
        "\" or \"1\"=\"1"@,
        "\" or 1=1"@,
        "or 1=1--"@,
        "or 1=1#"@,
        "' or ''='"@,
        "' or 'x'='x"@,
        "') or ('1'='1"@,
        "') or ('1'='1"@,
        "') or ('x'='x"@,
        " or 1=1"@,
        " or 0=0"@,
        " or true"@,
        "--"@,
        "/*"@,
        "*/"@,
        "#"@,
        "union select"@,
        "union all select"@,
        "union distinct select"@,
        "drop table"@,
        "drop database"@,
        "truncate table"@,
        "delete from"@,
        "insert into"@,
        "update set"@,
        "information_schema"@,
        "sysobjects"@,
        "syscolumns"@,
        "pg_tables"@,
        "pg_catalog"@,
        "concat("@,
        "char("@,
        "chr("@,
        "substr("@,
        "substring("@,
        "ascii("@,
        "hex("@,
        "unhex("@,
        "benchmark("@,
        "sleep("@,
        "waitfor delay"@,
        "pg_sleep("@,
        "; drop"@,
        "; delete"@,
        "; insert"@,
        "; update"@,
        "; truncate"@,
        "; exec"@,
        "; execute"@,
        "' and '1'='1"@,
        "' and '1'='2"@,
        "and 1=1"@,
        "and 1=2"@,
        "' and sleep("@,
        "' and benchmark("@,
        "extractvalue("@,
        "updatexml("@,
        "floor(rand("@,
        "admin'--"@,
        "admin'#"@,
        "' or 'a'='a"@,
        "') or 'a'='a"@,
        "'; waitfor delay"@,
    ]
}

/// The patterns of [`sql_pattern_seq`], as string slices.
pub fn sql_patterns() -> (v: Vec<&'static str>)
    ensures
        strs_view(v@) == sql_pattern_seq(),
{
    let v = vec![
        "' or '1'='1",
        "' or 1=1",
        "\" or \"1\"=\"1",
        "\" or 1=1",
        "or 1=1--",
        "or 1=1#",
        "' or ''='",
        "' or 'x'='x",
        "') or ('1'='1",
        "') or ('1'='1",
        "') or ('x'='x",
        " or 1=1",
        " or 0=0",
        " or true",
        "--",
        "/*",
        "*/",
        "#",
        "union select",
        "union all select",
        "union distinct select",
        "drop table",
        "drop database",
        "truncate table",
        "delete from",
        "insert into",
        "update set",
        "information_schema",
        "sysobjects",
        "syscolumns",
        "pg_tables",
        "pg_catalog",
        "concat(",
        "char(",
        "chr(",
        "substr(",
        "substring(",
        "ascii(",
        "hex(",
        "unhex(",
        "benchmark(",
        "sleep(",
        "waitfor delay",
        "pg_sleep(",
        "; drop",
        "; delete",
        "; insert",
        "; update",
        "; truncate",
        "; exec",
        "; execute",
        "' and '1'='1",
        "' and '1'='2",
        "and 1=1",
        "and 1=2",
        "' and sleep(",
        "' and benchmark(",
        "extractvalue(",
        "updatexml(",
        "floor(rand(",
        "admin'--",
        "admin'#",
        "' or 'a'='a",
        "') or 'a'='a",
        "'; waitfor delay",
    ];
    assert(strs_view(v@) =~= sql_pattern_seq());
    v
}

/// The patterns of [`sql_pattern_seq`] are few and short.
pub proof fn lemma_sql_pattern_seq_small()
    ensures
        small_pattern_set(sql_pattern_seq()),
{
    reveal_strlit("' or '1'='1");
    reveal_strlit("' or 1=1");
    reveal_strlit("\" or \"1\"=\"1");
    reveal_strlit("\" or 1=1");
    reveal_strlit("or 1=1--");
    reveal_strlit("or 1=1#");
    reveal_strlit("' or ''='");
    reveal_strlit("' or 'x'='x");
    reveal_strlit("') or ('1'='1");
    reveal_strlit("') or ('1'='1");
    reveal_strlit("') or ('x'='x");
    reveal_strlit(" or 1=1");
    reveal_strlit(" or 0=0");
    reveal_strlit(" or true");
    reveal_strlit("--");
    reveal_strlit("/*");
    reveal_strlit("*/");
    reveal_strlit("#");
    reveal_strlit("union select");
    reveal_strlit("union all select");
    reveal_strlit("union distinct select");
    reveal_strlit("drop table");
    reveal_strlit("drop database");
    reveal_strlit("truncate table");
    reveal_strlit("delete from");
    reveal_strlit("insert into");
    reveal_strlit("update set");
    reveal_strlit("information_schema");
    reveal_strlit("sysobjects");
    reveal_strlit("syscolumns");
    reveal_strlit("pg_tables");
    reveal_strlit("pg_catalog");
    reveal_strlit("concat(");
    reveal_strlit("char(");
    reveal_strlit("chr(");
    reveal_strlit("substr(");
    reveal_strlit("substring(");
    reveal_strlit("ascii(");
    reveal_strlit("hex(");
    reveal_strlit("unhex(");
    reveal_strlit("benchmark(");
    reveal_strlit("sleep(");
    reveal_strlit("waitfor delay");
    reveal_strlit("pg_sleep(");
    reveal_strlit("; drop");
    reveal_strlit("; delete");
    reveal_strlit("; insert");
    reveal_strlit("; update");
    reveal_strlit("; truncate");
    reveal_strlit("; exec");
    reveal_strlit("; execute");
    reveal_strlit("' and '1'='1");
    reveal_strlit("' and '1'='2");
    reveal_strlit("and 1=1");
    reveal_strlit("and 1=2");
    reveal_strlit("' and sleep(");
    reveal_strlit("' and benchmark(");
    reveal_strlit("extractvalue(");
    reveal_strlit("updatexml(");
    reveal_strlit("floor(rand(");
    reveal_strlit("admin'--");
    reveal_strlit("admin'#");
    reveal_strlit("' or 'a'='a");
    reveal_strlit("') or 'a'='a");
    reveal_strlit("'; waitfor delay");
}

/// Result of SQL injection detection.
pub struct SqlDetectionResult {
    /// Whether SQL injection was detected.
    pub is_attack: bool,
    /// The pattern that matched (if any).
    pub matched_pattern: Option<String>,
    /// Byte offset in the input where the matched pattern starts.
    pub position: Option<usize>,
}

/// The pattern of the leftmost-first SQL injection match in `input`, if any.
pub open spec fn sql_match(input: Seq<char>) -> Option<Seq<char>> {
    match leftmost_pattern(input, sql_pattern_seq()) {
        Some(j) => Some(sql_pattern_seq()[j]),
        None => None,
    }
}

/// Checks `input` for SQL injection patterns (ASCII letters compared without
/// regard to case). On a hit, reports the pattern of the leftmost match (the
/// earliest listed pattern when several start there) and the byte offset
/// where it starts.
pub fn detect_sql_injection(input: &str) -> (r: SqlDetectionResult)
    ensures
        r.is_attack == any_match_ci(input@, sql_pattern_seq()),
        r.is_attack == r.matched_pattern is Some,
        r.is_attack == r.position is Some,
        r.matched_pattern matches Some(p) ==> sql_match(input@) == Some(p@),
        r.matched_pattern is None ==> sql_match(input@) is None,
        r.position matches Some(b) ==> b as nat == byte_offset(
            input@,
            leftmost_match(input@, sql_pattern_seq()).1,
        ),
{
    let pats = sql_patterns();
    proof {
        lemma_sql_pattern_seq_small();
    }
    match ac_find(pats.as_slice(), input) {
        Some((j, start)) => {
            proof {
                let i = choose|i: int| crate::matcher::leftmost_first(input@, strs_view(pats@), j as int, i)
                    && start as nat == byte_offset(input@, i);
                lemma_leftmost_is_named(input@, sql_pattern_seq(), j as int, i);
            }
            SqlDetectionResult {
                is_attack: true,
                matched_pattern: Some(copy_str(pats[j])),
                position: Some(start),
            }
        },
        None => SqlDetectionResult { is_attack: false, matched_pattern: None, position: None },
    }
}

/// Quick check whether `input` contains an SQL injection pattern.
pub fn contains_sql_injection(input: &str) -> (r: bool)
    ensures
        r == any_match_ci(input@, sql_pattern_seq()),
{
    let pats = sql_patterns();
    proof {
        lemma_sql_pattern_seq_small();
    }
    ac_is_match(pats.as_slice(), input)
}

} // verus!
