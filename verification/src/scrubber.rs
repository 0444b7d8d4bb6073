//! PII scrubber: removal of personally identifiable information and
//! secrets from text before it is logged or processed.
//!
//! Supported patterns, each replaced by a redaction marker: JSON Web Tokens
//! (`[JWT_REDACTED]`), e-mail addresses (`[EMAIL_REDACTED]`), API keys,
//! secrets, passwords and tokens (`{name}: [SECRET_REDACTED]`), credit card
//! numbers (`[CARD_REDACTED]`), US social security numbers
//! (`[SSN_REDACTED]`) and phone numbers (`[PHONE_REDACTED]`). The patterns
//! are regular expressions, applied in that order, most specific first.
use vstd::prelude::*;
use crate::matcher::{regex_is_match, regex_matches, regex_replace_all, regex_replaced};
use crate::text::str_eq;

verus! {

/// E-mail addresses.
pub open spec fn email_pattern() -> Seq<char> {
    r"[a-zA-Z0-9._%+-]+@[a-zA-Z0-9.-]+\.[a-zA-Z]{2,}"@
}

/// Assignments of API keys, secrets, passwords and tokens with a value of
/// at least eight characters; group 1 is the name.
pub open spec fn secret_pattern() -> Seq<char> {
    r#"(?i)(api[_-]?key|secret[_-]?key|password|token|auth[_-]?token|access[_-]?token|bearer)[ ]*[:=][ ]*['"]?([a-zA-Z0-9_\-.]{8,})['"]?"#@
}

/// Credit card numbers: four groups of four digits, optionally separated by
/// dashes or spaces.
pub open spec fn card_pattern() -> Seq<char> {
    r"\b(?:\d{4}[- ]?){3}\d{4}\b"@
}

/// US social security numbers, `XXX-XX-XXXX`.
pub open spec fn ssn_pattern() -> Seq<char> {
    r"\b\d{3}-\d{2}-\d{4}\b"@
}

/// Phone numbers, including `(XXX) XXX-XXXX` and an optional `+1`.
pub open spec fn phone_pattern() -> Seq<char> {
    r"(?:\+?1[-.\s]?)?\(?[0-9]{3}\)?[-.\s]?[0-9]{3}[-.\s]?[0-9]{4}"@
}

/// JSON Web Tokens: `eyJ` header, `.eyJ` payload and a signature.
pub open spec fn jwt_pattern() -> Seq<char> {
    r"eyJ[a-zA-Z0-9_-]*\.eyJ[a-zA-Z0-9_-]*\.[a-zA-Z0-9_-]*"@
}

/// `input` with each kind of sensitive data replaced by its marker: JWTs,
/// then e-mail addresses, secrets, card numbers, SSNs and phone numbers.
pub open spec fn scrubbed(input: Seq<char>) -> Seq<char> {
    let o1 = regex_replaced(jwt_pattern(), input, "[JWT_REDACTED]"@);
    let o2 = regex_replaced(email_pattern(), o1, "[EMAIL_REDACTED]"@);
    let o3 = regex_replaced(secret_pattern(), o2, "$1: [SECRET_REDACTED]"@);
    let o4 = regex_replaced(card_pattern(), o3, "[CARD_REDACTED]"@);
    let o5 = regex_replaced(ssn_pattern(), o4, "[SSN_REDACTED]"@);
    regex_replaced(phone_pattern(), o5, "[PHONE_REDACTED]"@)
}

/// The names of the kinds of PII found, in the order email, secret, card,
/// SSN, phone, JWT, given whether each pattern matched.
pub open spec fn pii_type_names(
    email: bool,
    secret: bool,
    card: bool,
    ssn: bool,
    phone: bool,
    jwt: bool,
) -> Seq<Seq<char>> {
    (if email { seq!["email"@] } else { Seq::empty() }) + (if secret {
        seq!["api_key_or_secret"@]
    } else {
        Seq::empty()
    }) + (if card { seq!["credit_card"@] } else { Seq::empty() }) + (if ssn {
        seq!["ssn"@]
    } else {
        Seq::empty()
    }) + (if phone { seq!["phone"@] } else { Seq::empty() }) + (if jwt {
        seq!["jwt"@]
    } else {
        Seq::empty()
    })
}

/// The kinds of PII found in `input`.
pub open spec fn pii_types(input: Seq<char>) -> Seq<Seq<char>> {
    pii_type_names(
        regex_matches(email_pattern(), input),
        regex_matches(secret_pattern(), input),
        regex_matches(card_pattern(), input),
        regex_matches(ssn_pattern(), input),
        regex_matches(phone_pattern(), input),
        regex_matches(jwt_pattern(), input),
    )
}

/// The scrubbing stages after the secret stage: card numbers, SSNs and
/// phone numbers.
pub open spec fn after_secret_stage(t: Seq<char>) -> Seq<char> {
    regex_replaced(
        phone_pattern(),
        regex_replaced(ssn_pattern(), regex_replaced(card_pattern(), t, "[CARD_REDACTED]"@), "[SSN_REDACTED]"@),
        "[PHONE_REDACTED]"@,
    )
}

/// The scrubbing stages before the secret stage: JWTs and e-mail addresses.
pub open spec fn before_secret_stage(t: Seq<char>) -> Seq<char> {
    regex_replaced(email_pattern(), regex_replaced(jwt_pattern(), t, "[JWT_REDACTED]"@), "[EMAIL_REDACTED]"@)
}

/// The detector reports a secret exactly when its secret flag is set.
proof fn lemma_secret_name_reported(email: bool, secret: bool, card: bool, ssn: bool, phone: bool, jwt: bool)
    ensures
        pii_type_names(email, secret, card, ssn, phone, jwt).contains("api_key_or_secret"@) == secret,
{
    reveal_strlit("email");
    reveal_strlit("api_key_or_secret");
    reveal_strlit("credit_card");
    reveal_strlit("ssn");
    reveal_strlit("phone");
    reveal_strlit("jwt");
    let v = pii_type_names(email, secret, card, ssn, phone, jwt);
    let k = "api_key_or_secret"@;
    assert("email"@ != k && "credit_card"@ != k && "ssn"@ != k && "phone"@ != k && "jwt"@ != k) by {
        assert("email"@[0] != k[0]);
        assert("credit_card"@[0] != k[0]);
        assert("ssn"@[0] != k[0]);
        assert("phone"@[0] != k[0]);
        assert("jwt"@[0] != k[0]);
    }
    if secret {
        let pre = if email { seq!["email"@] } else { Seq::<Seq<char>>::empty() };
        assert(v[pre.len() as int] == k);
    } else {
        assert forall|i: int| 0 <= i < v.len() implies v[i] != k by {}
    }
}

/// Law: scrubbing removes secrets case-insensitively, with the very pattern
/// PII detection reports secrets by. There is a pattern `p`, marked
/// case-insensitive by a leading `(?i)`, such that detection reports
/// `api_key_or_secret` exactly when `p` matches the input, and the secret
/// stage of scrubbing rewrites every match of `p` as its key name followed
/// by `: [SECRET_REDACTED]`.
pub proof fn lemma_secret_stage_case_insensitive(input: Seq<char>)
    ensures
        exists|p: Seq<char>|
            {
                &&& p.take(4) == "(?i)"@
                &&& pii_types(input).contains("api_key_or_secret"@) == regex_matches(p, input)
                &&& scrubbed(input) == after_secret_stage(
                    regex_replaced(p, before_secret_stage(input), "$1: [SECRET_REDACTED]"@),
                )
            },
{
    let p = secret_pattern();
    reveal_strlit(r#"(?i)(api[_-]?key|secret[_-]?key|password|token|auth[_-]?token|access[_-]?token|bearer)[ ]*[:=][ ]*['"]?([a-zA-Z0-9_\-.]{8,})['"]?"#);
    reveal_strlit("(?i)");
    assert(p.take(4) =~= "(?i)"@);
    lemma_secret_name_reported(
        regex_matches(email_pattern(), input),
        regex_matches(secret_pattern(), input),
        regex_matches(card_pattern(), input),
        regex_matches(ssn_pattern(), input),
        regex_matches(phone_pattern(), input),
        regex_matches(jwt_pattern(), input),
    );
}

/// The PII scrubber.
pub struct Scrubber;

impl Scrubber {
    /// Scrubs all PII and sensitive data from `input`, replacing each
    /// match by its redaction marker.
    pub fn scrub(input: &str) -> (s: String)
        ensures
            s@ == scrubbed(input@),
    {
        let o1 = regex_replace_all(
            r"eyJ[a-zA-Z0-9_-]*\.eyJ[a-zA-Z0-9_-]*\.[a-zA-Z0-9_-]*",
            input,
            "[JWT_REDACTED]",
        );
        let o2 = regex_replace_all(
            r"[a-zA-Z0-9._%+-]+@[a-zA-Z0-9.-]+\.[a-zA-Z]{2,}",
            o1.as_str(),
            "[EMAIL_REDACTED]",
        );
        let o3 = regex_replace_all(
            r#"(?i)(api[_-]?key|secret[_-]?key|password|token|auth[_-]?token|access[_-]?token|bearer)[ ]*[:=][ ]*['"]?([a-zA-Z0-9_\-.]{8,})['"]?"#,
            o2.as_str(),
            "$1: [SECRET_REDACTED]",
        );
        let o4 = regex_replace_all(r"\b(?:\d{4}[- ]?){3}\d{4}\b", o3.as_str(), "[CARD_REDACTED]");
        let o5 = regex_replace_all(r"\b\d{3}-\d{2}-\d{4}\b", o4.as_str(), "[SSN_REDACTED]");
        regex_replace_all(
            r"(?:\+?1[-.\s]?)?\(?[0-9]{3}\)?[-.\s]?[0-9]{3}[-.\s]?[0-9]{4}",
            o5.as_str(),
            "[PHONE_REDACTED]",
        )
    }

    /// Whether `input` contains detectable PII: whether scrubbing changes
    /// it.
    pub fn contains_pii(input: &str) -> (r: bool)
        ensures
            r == (scrubbed(input@) != input@),
    {
        let s = Self::scrub(input);
        !str_eq(s.as_str(), input)
    }

    /// The names of the kinds of PII found, given whether each pattern
    /// matched, in the order email, secret, card, SSN, phone, JWT.
    pub fn pii_types_from_matches(
        email: bool,
        secret: bool,
        card: bool,
        ssn: bool,
        phone: bool,
        jwt: bool,
    ) -> (v: Vec<&'static str>)
        ensures
            v@.map_values(|t: &str| t@) == pii_type_names(email, secret, card, ssn, phone, jwt),
    {
        let mut v: Vec<&'static str> = Vec::new();
        if email {
            v.push("email");
        }
        if secret {
            v.push("api_key_or_secret");
        }
        if card {
            v.push("credit_card");
        }
        if ssn {
            v.push("ssn");
        }
        if phone {
            v.push("phone");
        }
        if jwt {
            v.push("jwt");
        }
        assert(v@.map_values(|t: &str| t@) =~= pii_type_names(email, secret, card, ssn, phone, jwt));
        v
    }

    /// The kinds of PII found in `input`: "email", "api_key_or_secret",
    /// "credit_card", "ssn", "phone", "jwt", in that order.
    pub fn detect_pii_types(input: &str) -> (v: Vec<&'static str>)
        ensures
            v@.map_values(|t: &str| t@) == pii_types(input@),
    {
        let email = regex_is_match(r"[a-zA-Z0-9._%+-]+@[a-zA-Z0-9.-]+\.[a-zA-Z]{2,}", input);
        let secret = regex_is_match(
            r#"(?i)(api[_-]?key|secret[_-]?key|password|token|auth[_-]?token|access[_-]?token|bearer)[ ]*[:=][ ]*['"]?([a-zA-Z0-9_\-.]{8,})['"]?"#,
            input,
        );
        let card = regex_is_match(r"\b(?:\d{4}[- ]?){3}\d{4}\b", input);
        let ssn = regex_is_match(r"\b\d{3}-\d{2}-\d{4}\b", input);
        let phone = regex_is_match(
            r"(?:\+?1[-.\s]?)?\(?[0-9]{3}\)?[-.\s]?[0-9]{3}[-.\s]?[0-9]{4}",
            input,
        );
        let jwt = regex_is_match(r"eyJ[a-zA-Z0-9_-]*\.eyJ[a-zA-Z0-9_-]*\.[a-zA-Z0-9_-]*", input);
        Self::pii_types_from_matches(email, secret, card, ssn, phone, jwt)
    }
}

} // verus!
