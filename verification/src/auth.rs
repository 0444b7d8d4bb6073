//! Authentication for the management API: the super-admin context of the
//! legacy API key, constant-time key comparison, extraction of the token
//! from a request, and the decision between the legacy key, the tenant
//! store and JWT validation.
use vstd::prelude::*;
use crate::tenants::{TenantContext, TenantRole};
use crate::text::{
    chars_of, copy_str, string_from_chars, strip_prefixes, trim, trim_start_matches, trim_str,
};

verus! {

/// Super-admin context for the legacy API key.
pub fn super_admin_context() -> (c: TenantContext)
    ensures
        c.id@ == "super-admin"@,
        c.name@ == "Super Admin"@,
        c.namespace@ == "global"@,
        c.role == TenantRole::SuperAdmin,
{
    TenantContext {
        id: copy_str("super-admin"),
        name: copy_str("Super Admin"),
        namespace: copy_str("global"),
        role: TenantRole::SuperAdmin,
    }
}

proof fn lemma_or_xor_zero(r: u8, x: u8, y: u8)
    ensures
        ((r | (x ^ y)) == 0) == (r == 0 && x == y),
{
    assert(((r | (x ^ y)) == 0) == (r == 0 && x == y)) by (bit_vector);
}

/// Constant-time string comparison (against timing attacks): compares the
/// UTF-8 bytes of both strings, folding every difference into one
/// accumulator so that the running time does not depend on where the first
/// difference is.
pub fn constant_time_compare(a: &str, b: &str) -> (r: bool)
    ensures
        r == (a@ == b@),
{
    let ab = a.as_bytes();
    let bb = b.as_bytes();
    proof {
        vstd::utf8::encode_utf8_decode_utf8(a@);
        vstd::utf8::encode_utf8_decode_utf8(b@);
    }
    if ab.len() != bb.len() {
        return false;
    }
    let mut result: u8 = 0;
    let mut i: usize = 0;
    while i < ab.len()
        invariant
            ab.len() == bb.len(),
            i <= ab.len(),
            (result == 0) == (forall|k: int| 0 <= k < i ==> ab@[k] == bb@[k]),
        decreases ab.len() - i,
    {
        proof {
            lemma_or_xor_zero(result, ab@[i as int], bb@[i as int]);
        }
        let x = ab[i];
        let y = bb[i];
        result = result | (x ^ y);
        i = i + 1;
        assert((result == 0) == (forall|k: int| 0 <= k < i ==> ab@[k] == bb@[k])) by {
            if result == 0 {
                assert forall|k: int| 0 <= k < i implies ab@[k] == bb@[k] by {
                    if k < i - 1 {
                    }
                }
            }
        }
    }
    if result == 0 {
        assert(ab@ =~= bb@);
    }
    result == 0
}

// ---------------------------------------------------------------------------
// Token extraction
// ---------------------------------------------------------------------------

/// `k` is the position of the first `c` in `s`.
pub open spec fn is_first(s: Seq<char>, c: char, k: int) -> bool {
    0 <= k < s.len() && s[k] == c && forall|j: int| 0 <= j < k ==> #[trigger] s[j] != c
}

/// The position of the first `c` in `s`, if any.
pub open spec fn first_pos(s: Seq<char>, c: char) -> Option<int> {
    if exists|k: int| #[trigger] is_first(s, c, k) {
        Some(choose|k: int| #[trigger] is_first(s, c, k))
    } else {
        None
    }
}

/// The first `&`-separated pair of a query string.
pub open spec fn first_pair(q: Seq<char>) -> Seq<char> {
    match first_pos(q, '&') {
        Some(a) => q.take(a),
        None => q,
    }
}

/// The value of a `key=value` pair whose key is `api_key` or `token`.
pub open spec fn token_value(pair: Seq<char>) -> Option<Seq<char>> {
    match first_pos(pair, '=') {
        Some(e) => if pair.take(e) == "api_key"@ || pair.take(e) == "token"@ {
            Some(pair.skip(e + 1))
        } else {
            None
        },
        None => None,
    }
}

/// The value of the first `api_key=` or `token=` pair of a query string
/// (pairs separated by `&`, key and value by the first `=`).
pub open spec fn query_token(q: Seq<char>) -> Option<Seq<char>>
    decreases q.len(),
{
    match token_value(first_pair(q)) {
        Some(v) => Some(v),
        None => match first_pos(q, '&') {
            Some(a) => if 0 <= a < q.len() {
                query_token(q.skip(a + 1))
            } else {
                None
            },
            None => None,
        },
    }
}

/// The token a request carries: the authorization header (the `X-API-Key`
/// header, else `Authorization`) with every leading `Bearer ` removed and
/// then trimmed; without a header, the `api_key` or `token` query
/// parameter.
pub open spec fn request_token(header: Option<Seq<char>>, query: Option<Seq<char>>) -> Option<
    Seq<char>,
> {
    match header {
        Some(h) => Some(trim(strip_prefixes(h, "Bearer "@))),
        None => match query {
            Some(q) => query_token(q),
            None => None,
        },
    }
}

fn find_first(v: &Vec<char>, from: usize, to: usize, c: char) -> (r: Option<usize>)
    requires
        from <= to <= v.len(),
    ensures
        r matches Some(k) ==> from <= k < to && is_first(v@.subrange(from as int, to as int), c, k - from),
        r is None ==> forall|k: int| from <= k < to ==> v@[k] != c,
{
    let mut i = from;
    while i < to
        invariant
            from <= i <= to <= v.len(),
            forall|k: int| from <= k < i ==> v@[k] != c,
        decreases to - i,
    {
        if v[i] == c {
            proof {
                let s = v@.subrange(from as int, to as int);
                assert forall|j: int| 0 <= j < i - from implies #[trigger] s[j] != c by {
                    assert(s[j] == v@[from + j]);
                }
            }
            return Some(i);
        }
        i = i + 1;
    }
    None
}

fn range_eq(v: &Vec<char>, from: usize, to: usize, w: &str) -> (r: bool)
    requires
        from <= to <= v.len(),
    ensures
        r == (v@.subrange(from as int, to as int) == w@),
{
    let wv = chars_of(w);
    if to - from != wv.len() {
        return false;
    }
    let mut i: usize = 0;
    while i < wv.len()
        invariant
            to - from == wv.len(),
            from <= to <= v.len(),
            wv@ == w@,
            i <= wv.len(),
            forall|k: int| 0 <= k < i ==> v@[from + k] == wv@[k],
        decreases wv.len() - i,
    {
        if v[from + i] != wv[i] {
            assert(v@.subrange(from as int, to as int)[i as int] != w@[i as int]);
            return false;
        }
        i = i + 1;
    }
    assert(v@.subrange(from as int, to as int) =~= w@);
    true
}

proof fn lemma_first_unique(s: Seq<char>, c: char, k1: int, k2: int)
    requires
        is_first(s, c, k1),
        is_first(s, c, k2),
    ensures
        k1 == k2,
{
    if k1 < k2 {
        assert(s[k1] != c);
    }
    if k2 < k1 {
        assert(s[k2] != c);
    }
}

fn query_token_from(q: &Vec<char>, start: usize) -> (r: Option<String>)
    requires
        start <= q.len(),
    ensures
        r matches Some(t) ==> query_token(q@.skip(start as int)) == Some(t@),
        r is None ==> query_token(q@.skip(start as int)) is None,
    decreases q.len() - start,
{
    let n = q.len();
    let ghost sq = q@.skip(start as int);
    let amp = find_first(q, start, n, '&');
    let pair_end = match amp {
        Some(k) => k,
        None => n,
    };
    let eq = find_first(q, start, pair_end, '=');
    proof {
        assert(q@.subrange(start as int, n as int) =~= sq);
        match amp {
            Some(k) => {
                assert(is_first(sq, '&', k - start));
                let a = choose|k: int| #[trigger] is_first(sq, '&', k);
                lemma_first_unique(sq, '&', a, k - start);
                assert(first_pos(sq, '&') == Some(k - start));
            },
            None => {
                assert forall|k: int| !#[trigger] is_first(sq, '&', k) by {
                    if 0 <= k < sq.len() {
                        assert(sq[k] == q@[start + k]);
                    }
                }
                assert(first_pos(sq, '&') is None);
            },
        }
        assert(first_pair(sq) =~= q@.subrange(start as int, pair_end as int));
    }
    let ghost sp = first_pair(sq);
    let mut found: Option<String> = None;
    match eq {
        Some(e) => {
            proof {
                assert(is_first(sp, '=', e - start));
                let e2 = choose|k: int| #[trigger] is_first(sp, '=', k);
                lemma_first_unique(sp, '=', e2, e - start);
                assert(first_pos(sp, '=') == Some(e - start));
                assert(sp.take(e - start) =~= q@.subrange(start as int, e as int));
                assert(sp.skip(e - start + 1) =~= q@.subrange(e + 1, pair_end as int));
            }
            if range_eq(q, start, e, "api_key") || range_eq(q, start, e, "token") {
                found = Some(string_from_chars(q, e + 1, pair_end));
            }
        },
        None => {
            proof {
                assert forall|k: int| !#[trigger] is_first(sp, '=', k) by {
                    if 0 <= k < sp.len() {
                        assert(sp[k] == q@[start + k]);
                    }
                }
                assert(first_pos(sp, '=') is None);
            }
        },
    }
    if found.is_some() {
        return found;
    }
    match amp {
        Some(k) => {
            let r = query_token_from(q, k + 1);
            proof {
                assert(sq.skip(k - start + 1) =~= q@.skip(k + 1));
            }
            r
        },
        None => None,
    }
}

fn header_token(h: &str) -> (t: String)
    ensures
        t@ == trim(strip_prefixes(h@, "Bearer "@)),
{
    let stripped = trim_start_matches(h, "Bearer ");
    trim_str(stripped.as_str())
}

/// Extracts the token from a request: the header value when there is one,
/// else the query string's `api_key` or `token` parameter.
pub fn request_token_of(header: Option<&str>, query: Option<&str>) -> (t: Option<String>)
    ensures
        request_token(
            match header {
                Some(h) => Some(h@),
                None => None,
            },
            match query {
                Some(q) => Some(q@),
                None => None,
            },
        ) == match t {
            Some(s) => Some(s@),
            None => None,
        },
{
    match header {
        Some(h) => Some(header_token(h)),
        None => match query {
            Some(q) => {
                let qv = chars_of(q);
                let r = query_token_from(&qv, 0);
                proof {
                    assert(qv@.skip(0) =~= q@);
                }
                r
            },
            None => None,
        },
    }
}

// ---------------------------------------------------------------------------
// Decision
// ---------------------------------------------------------------------------

/// Outcome of authenticating one management API request.
pub enum AuthDecision {
    /// No authentication is configured: the request passes without a
    /// tenant context.
    Open,
    /// The request passes as the given tenant.
    Grant(TenantContext),
    /// The tenant is blocked (HTTP 403).
    Forbidden,
    /// No or an unknown token (HTTP 401).
    Unauthorized,
}

/// Decides a request: with authentication configured, a token equal to the
/// legacy key grants super-admin; else a tenant found for the token is
/// granted unless blocked; else a valid JWT grants super-admin; else the
/// request is unauthorized. `tenant` is what the tenant store returned for
/// the token and `jwt_valid` whether the token decoded as a JWT under the
/// configured secret.
pub fn decide_auth(
    auth_required: bool,
    token: Option<&str>,
    legacy_key: Option<&str>,
    tenant: Option<TenantContext>,
    jwt_valid: bool,
) -> (d: AuthDecision)
    ensures
        !auth_required ==> d is Open,
        auth_required && token is None ==> d is Unauthorized,
        auth_required && token is Some ==> {
            let t = token.unwrap()@;
            if legacy_key is Some && legacy_key.unwrap()@ == t {
                d matches AuthDecision::Grant(c) && c.role == TenantRole::SuperAdmin
                    && c.id@ == "super-admin"@ && c.namespace@ == "global"@
            } else if tenant is Some {
                if tenant.unwrap().role == TenantRole::Blocked {
                    d is Forbidden
                } else {
                    d == AuthDecision::Grant(tenant.unwrap())
                }
            } else if jwt_valid {
                d matches AuthDecision::Grant(c) && c.role == TenantRole::SuperAdmin
                    && c.id@ == "super-admin"@ && c.namespace@ == "global"@
            } else {
                d is Unauthorized
            }
        },
{
    if !auth_required {
        return AuthDecision::Open;
    }
    match token {
        None => AuthDecision::Unauthorized,
        Some(t) => {
            match legacy_key {
                Some(k) => {
                    if constant_time_compare(t, k) {
                        return AuthDecision::Grant(super_admin_context());
                    }
                },
                None => {},
            }
            match tenant {
                Some(ctx) => {
                    if ctx.role == TenantRole::Blocked {
                        AuthDecision::Forbidden
                    } else {
                        AuthDecision::Grant(ctx)
                    }
                },
                None => {
                    if jwt_valid {
                        AuthDecision::Grant(super_admin_context())
                    } else {
                        AuthDecision::Unauthorized
                    }
                },
            }
        },
    }
}

} // verus!
