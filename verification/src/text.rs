//! Character-level helpers shared by the guards: views of `&str` as
//! character sequences, ASCII case folding, substring search and decimal
//! rendering of integers.
use vstd::prelude::*;
use vstd::std_specs::iter::IteratorSpec;
use vstd::string::StringExecFns;

verus! {

// ---------------------------------------------------------------------------
// Specifications
// ---------------------------------------------------------------------------

/// ASCII lowercase of one character; every other character is unchanged.
pub open spec fn ascii_lower(c: char) -> char {
    if 'A' <= c && c <= 'Z' {
        ((c as u32) + 32) as char
    } else {
        c
    }
}

/// `c` is an ASCII letter or digit.
pub open spec fn is_alnum(c: char) -> bool {
    ('a' <= c && c <= 'z') || ('A' <= c && c <= 'Z') || ('0' <= c && c <= '9')
}

/// `pat` occurs in `h` at character position `i`, ASCII letters compared
/// without regard to case.
pub open spec fn occurs_ci(h: Seq<char>, pat: Seq<char>, i: int) -> bool {
    &&& 0 <= i
    &&& i + pat.len() <= h.len()
    &&& forall|k: int| 0 <= k < pat.len() ==> ascii_lower(#[trigger] h[i + k]) == ascii_lower(pat[k])
}

/// `pat` occurs in `h` at character position `i`, exactly.
pub open spec fn occurs_at(h: Seq<char>, pat: Seq<char>, i: int) -> bool {
    &&& 0 <= i
    &&& i + pat.len() <= h.len()
    &&& forall|k: int| 0 <= k < pat.len() ==> #[trigger] h[i + k] == pat[k]
}

/// `h` contains `pat` (case sensitive), as `str::contains` decides.
pub open spec fn contains(h: Seq<char>, pat: Seq<char>) -> bool {
    exists|i: int| occurs_at(h, pat, i)
}

/// The decimal digit character for `d < 10`.
pub open spec fn digit_char(d: nat) -> char {
    if d == 0 {
        '0'
    } else if d == 1 {
        '1'
    } else if d == 2 {
        '2'
    } else if d == 3 {
        '3'
    } else if d == 4 {
        '4'
    } else if d == 5 {
        '5'
    } else if d == 6 {
        '6'
    } else if d == 7 {
        '7'
    } else if d == 8 {
        '8'
    } else {
        '9'
    }
}

/// Decimal rendering of a natural number, without leading zeros.
pub open spec fn decimal(n: nat) -> Seq<char>
    decreases n,
{
    if n < 10 {
        seq![digit_char(n)]
    } else {
        decimal(n / 10).push(digit_char(n % 10))
    }
}

/// Decimal rendering of an integer, with a leading `-` when negative.
pub open spec fn decimal_int(n: int) -> Seq<char> {
    if n < 0 {
        seq!['-'] + decimal((-n) as nat)
    } else {
        decimal(n as nat)
    }
}

/// The decimal rendering of a number is nonempty, starts with a digit, and
/// has at least two digits from ten on.
pub proof fn lemma_decimal_shape(n: nat)
    ensures
        decimal(n).len() >= 1,
        decimal(n)[0] != '-',
        n >= 10 ==> decimal(n).len() >= 2,
    decreases n,
{
    if n >= 10 {
        lemma_decimal_shape(n / 10);
    }
}

/// Distinct numbers have distinct decimal renderings.
pub proof fn lemma_decimal_injective(a: nat, b: nat)
    requires
        decimal(a) == decimal(b),
    ensures
        a == b,
    decreases a,
{
    lemma_decimal_shape(a);
    lemma_decimal_shape(b);
    if a >= 10 && b >= 10 {
        assert(decimal(a).last() == digit_char(a % 10));
        assert(decimal(b).last() == digit_char(b % 10));
        assert(decimal(a).drop_last() =~= decimal(a / 10));
        assert(decimal(b).drop_last() =~= decimal(b / 10));
        lemma_decimal_injective(a / 10, b / 10);
    }
}

/// Distinct integers have distinct renderings.
pub proof fn lemma_decimal_int_injective(a: int, b: int)
    requires
        decimal_int(a) == decimal_int(b),
    ensures
        a == b,
{
    if a < 0 && b < 0 {
        assert(decimal_int(a).drop_first() =~= decimal((-a) as nat));
        assert(decimal_int(b).drop_first() =~= decimal((-b) as nat));
        lemma_decimal_injective((-a) as nat, (-b) as nat);
    } else if a < 0 {
        lemma_decimal_shape(b as nat);
    } else if b < 0 {
        lemma_decimal_shape(a as nat);
    } else {
        lemma_decimal_injective(a as nat, b as nat);
    }
}

/// The sequence of the views of a slice of string slices.
pub open spec fn strs_view(v: Seq<&str>) -> Seq<Seq<char>> {
    v.map_values(|s: &str| s@)
}

/// Concatenation of a sequence of character sequences.
pub open spec fn concat_all(parts: Seq<Seq<char>>) -> Seq<char>
    decreases parts.len(),
{
    if parts.len() == 0 {
        Seq::empty()
    } else {
        concat_all(parts.drop_last()) + parts.last()
    }
}

/// `s` with every leading repetition of `p` removed (`trim_start_matches`).
pub open spec fn strip_prefixes(s: Seq<char>, p: Seq<char>) -> Seq<char>
    decreases s.len(),
{
    if p.len() > 0 && p.len() <= s.len() && s.take(p.len() as int) == p {
        strip_prefixes(s.skip(p.len() as int), p)
    } else {
        s
    }
}

/// `s` with every trailing repetition of `p` removed (`trim_end_matches`).
pub open spec fn strip_suffixes(s: Seq<char>, p: Seq<char>) -> Seq<char>
    decreases s.len(),
{
    if p.len() > 0 && p.len() <= s.len() && s.skip(s.len() - p.len()) == p {
        strip_suffixes(s.take(s.len() - p.len()), p)
    } else {
        s
    }
}

/// `c` is a Unicode White_Space character (what `char::is_whitespace`
/// tests, and what `str::trim` removes).
pub open spec fn is_unicode_space(c: char) -> bool {
    ('\u{0009}' <= c && c <= '\u{000D}') || c == '\u{0020}' || c == '\u{0085}' || c == '\u{00A0}'
        || c == '\u{1680}' || ('\u{2000}' <= c && c <= '\u{200A}') || c == '\u{2028}' || c
        == '\u{2029}' || c == '\u{202F}' || c == '\u{205F}' || c == '\u{3000}'
}

/// `i` is where `str::trim` starts: the first non-space character of `s`.
pub open spec fn is_trim_start(s: Seq<char>, i: int) -> bool {
    &&& 0 <= i <= s.len()
    &&& forall|k: int| 0 <= k < i ==> is_unicode_space(#[trigger] s[k])
    &&& (i == s.len() || !is_unicode_space(s[i]))
}

/// `j` is where `str::trim` ends, given its start: just after the last
/// non-space character at or after `start`.
pub open spec fn is_trim_end(s: Seq<char>, start: int, j: int) -> bool {
    &&& start <= j <= s.len()
    &&& forall|k: int| j <= k < s.len() ==> is_unicode_space(#[trigger] s[k])
    &&& (j == start || !is_unicode_space(s[j - 1]))
}

/// `s` without leading and trailing Unicode white space (`str::trim`).
pub open spec fn trim(s: Seq<char>) -> Seq<char> {
    let start = choose|i: int| #[trigger] is_trim_start(s, i);
    let end = choose|j: int| #[trigger] is_trim_end(s, start, j);
    s.subrange(start, end)
}


/// What `str::to_lowercase` returns for the characters `s`: the full
/// Unicode lowercase mapping.
pub uninterp spec fn unicode_lowercase(s: Seq<char>) -> Seq<char>;

/// What `str::to_uppercase` returns for the characters `s`: the full
/// Unicode uppercase mapping.
pub uninterp spec fn unicode_uppercase(s: Seq<char>) -> Seq<char>;

// ---------------------------------------------------------------------------
// Trusted std calls that vstd leaves unspecified
// ---------------------------------------------------------------------------

/// Appends one character to a string (`String::push`).
#[verifier::external_body]
pub(crate) fn push_char(s: &mut String, c: char)
    ensures
        final(s)@ == old(s)@.push(c),
{
    s.push(c);
}

/// The characters of `s` are all ASCII.
pub open spec fn all_ascii(s: Seq<char>) -> bool {
    forall|k: int| 0 <= k < s.len() ==> (#[trigger] s[k] as u32) < 128
}

/// ASCII uppercase of one character; every other character is unchanged.
pub open spec fn ascii_upper(c: char) -> char {
    if 'a' <= c && c <= 'z' {
        ((c as u32) - 32) as char
    } else {
        c
    }
}

/// `str::to_lowercase`: the Unicode lowercase of `s`. The contract names the
/// result; of ASCII text it claims what the Unicode case mapping gives
/// there, the ASCII lowercase of each character.
#[verifier::external_body]
pub(crate) fn to_lowercase(s: &str) -> (r: String)
    ensures
        r@ == unicode_lowercase(s@),
        all_ascii(s@) ==> r@ == s@.map_values(|c: char| ascii_lower(c)),
{
    s.to_lowercase()
}

/// `str::to_uppercase`: the Unicode uppercase of `s`. The contract names the
/// result; of ASCII text it claims what the Unicode case mapping gives
/// there, the ASCII uppercase of each character.
#[verifier::external_body]
pub(crate) fn to_uppercase(s: &str) -> (r: String)
    ensures
        r@ == unicode_uppercase(s@),
        all_ascii(s@) ==> r@ == s@.map_values(|c: char| ascii_upper(c)),
{
    s.to_uppercase()
}

/// `char::from_u32`: the character with code point `u`, if `u` is a Unicode
/// scalar value (at most 0x10FFFF and outside the surrogate range).
#[verifier::external_body]
pub(crate) fn char_from_u32(u: u32) -> (r: Option<char>)
    ensures
        (u <= 0x10FFFF && !(0xD800 <= u <= 0xDFFF)) ==> r == Some(u as char),
        !(u <= 0x10FFFF && !(0xD800 <= u <= 0xDFFF)) ==> r is None,
{
    char::from_u32(u)
}

// ---------------------------------------------------------------------------
// Verified helpers
// ---------------------------------------------------------------------------

/// Copies the characters of `s` into a vector, in order.
pub fn chars_of(s: &str) -> (out: Vec<char>)
    ensures
        out@ == s@,
{
    broadcast use vstd::string::group_string_axioms;

    let mut out: Vec<char> = Vec::new();
    for c in it: s.chars()
        invariant
            it.seq() == s@,
            out@ == it.seq().take(it.index() as int),
    {
        out.push(c);
    }
    out
}

/// A string holding exactly the characters `v[from..to]`.
pub fn string_from_chars(v: &Vec<char>, from: usize, to: usize) -> (s: String)
    requires
        from <= to <= v.len(),
    ensures
        s@ == v@.subrange(from as int, to as int),
{
    let mut s = String::new();
    let mut i = from;
    while i < to
        invariant
            from <= i <= to <= v.len(),
            s@ == v@.subrange(from as int, i as int),
        decreases to - i,
    {
        push_char(&mut s, v[i]);
        i = i + 1;
        assert(s@ =~= v@.subrange(from as int, i as int));
    }
    s
}

/// A string holding a copy of `s`.
pub fn copy_str(s: &str) -> (r: String)
    ensures
        r@ == s@,
{
    String::from_str(s)
}

/// `str::trim_start_matches` with a string pattern: `s` without every
/// leading repetition of `p`.
pub fn trim_start_matches(s: &str, p: &str) -> (r: String)
    ensures
        r@ == strip_prefixes(s@, p@),
{
    let v = chars_of(s);
    let pv = chars_of(p);
    let mut start: usize = 0;
    assert(v@.skip(0) =~= v@);
    while pv.len() > 0 && pv.len() <= v.len() - start && occurs_exact_at(&v, &pv, start)
        invariant
            v@ == s@,
            pv@ == p@,
            start <= v.len(),
            strip_prefixes(v@, pv@) == strip_prefixes(v@.skip(start as int), pv@),
        decreases v.len() - start,
    {
        proof {
            let t = v@.skip(start as int);
            assert forall|k: int| 0 <= k < pv@.len() implies #[trigger] t.take(pv@.len() as int)[k]
                == pv@[k] by {
                assert(t.take(pv@.len() as int)[k] == v@[start + k]);
            }
            assert(t.take(pv@.len() as int) =~= pv@);
            assert(t.skip(pv@.len() as int) =~= v@.skip(start + pv@.len()));
        }
        start = start + pv.len();
    }
    proof {
        let t = v@.skip(start as int);
        if pv@.len() > 0 && pv@.len() <= t.len() && t.take(pv@.len() as int) == pv@ {
            assert forall|k: int| 0 <= k < pv@.len() implies #[trigger] v@[start + k] == pv@[k] by {
                assert(t.take(pv@.len() as int)[k] == v@[start + k]);
            }
        }
        assert(v@.subrange(start as int, v@.len() as int) =~= t);
    }
    string_from_chars(&v, start, v.len())
}

/// `str::trim_end_matches` with a string pattern: `s` without every
/// trailing repetition of `p`.
pub fn trim_end_matches(s: &str, p: &str) -> (r: String)
    ensures
        r@ == strip_suffixes(s@, p@),
{
    let v = chars_of(s);
    let pv = chars_of(p);
    let mut end: usize = v.len();
    assert(v@.take(v@.len() as int) =~= v@);
    while pv.len() > 0 && pv.len() <= end && occurs_exact_at(&v, &pv, end - pv.len())
        invariant
            v@ == s@,
            pv@ == p@,
            end <= v.len(),
            strip_suffixes(v@, pv@) == strip_suffixes(v@.take(end as int), pv@),
        decreases end,
    {
        proof {
            let t = v@.take(end as int);
            let q = end - pv@.len();
            assert forall|k: int| 0 <= k < pv@.len() implies #[trigger] t.skip(q)[k] == pv@[k] by {
                assert(t.skip(q)[k] == v@[q + k]);
            }
            assert(t.skip(t.len() - pv@.len()) =~= pv@);
            assert(t.take(t.len() - pv@.len()) =~= v@.take(q));
        }
        end = end - pv.len();
    }
    proof {
        let t = v@.take(end as int);
        if pv@.len() > 0 && pv@.len() <= t.len() && t.skip(t.len() - pv@.len()) == pv@ {
            let q = end - pv@.len();
            assert forall|k: int| 0 <= k < pv@.len() implies #[trigger] v@[q + k] == pv@[k] by {
                assert(t.skip(q)[k] == v@[q + k]);
            }
        }
        assert(v@.subrange(0, end as int) =~= t);
    }
    string_from_chars(&v, 0, end)
}

/// `char::is_whitespace`.
pub fn is_space(c: char) -> (r: bool)
    ensures
        r == is_unicode_space(c),
{
    ('\u{0009}' <= c && c <= '\u{000D}') || c == '\u{0020}' || c == '\u{0085}' || c == '\u{00A0}'
        || c == '\u{1680}' || ('\u{2000}' <= c && c <= '\u{200A}') || c == '\u{2028}' || c
        == '\u{2029}' || c == '\u{202F}' || c == '\u{205F}' || c == '\u{3000}'
}

/// `str::trim`: `s` without leading and trailing Unicode white space.
pub fn trim_str(s: &str) -> (t: String)
    ensures
        t@ == trim(s@),
{
    let v = chars_of(s);
    let ghost u = v@;
    let mut lo: usize = 0;
    while lo < v.len() && is_space(v[lo])
        invariant
            lo <= v.len(),
            forall|k: int| 0 <= k < lo ==> is_unicode_space(#[trigger] v@[k]),
        decreases v.len() - lo,
    {
        lo = lo + 1;
    }
    let mut hi = v.len();
    while hi > lo && is_space(v[hi - 1])
        invariant
            lo <= hi <= v.len(),
            forall|k: int| hi <= k < v.len() ==> is_unicode_space(#[trigger] v@[k]),
        decreases hi,
    {
        hi = hi - 1;
    }
    proof {
        let a = lo as int;
        let b = hi as int;
        assert(is_trim_start(u, a));
        let start_c = choose|i: int| #[trigger] is_trim_start(u, i);
        if a < start_c {
            assert(is_unicode_space(u[a]));
        }
        assert(start_c == a);
        assert(is_trim_end(u, a, b));
        let end_c = choose|j: int| #[trigger] is_trim_end(u, a, j);
        if end_c < b {
            assert(is_unicode_space(u[b - 1]));
        }
        if b < end_c {
            assert(is_unicode_space(u[end_c - 1]));
        }
        assert(end_c == b);
    }
    string_from_chars(&v, lo, hi)
}

/// The concatenation of `a` and `b`.
pub fn join2(a: &str, b: &str) -> (r: String)
    ensures
        r@ == a@ + b@,
{
    let mut r = String::from_str(a);
    r.append(b);
    r
}

/// ASCII lowercase of one character.
pub fn to_ascii_lower(c: char) -> (r: char)
    ensures
        r == ascii_lower(c),
{
    if 'A' <= c && c <= 'Z' {
        let u = (c as u32) + 32;
        match char_from_u32(u) {
            Some(l) => l,
            None => c,
        }
    } else {
        c
    }
}

/// `c` is an ASCII letter or digit (`char::is_ascii_alphanumeric`).
pub fn is_ascii_alnum(c: char) -> (r: bool)
    ensures
        r == is_alnum(c),
{
    ('a' <= c && c <= 'z') || ('A' <= c && c <= 'Z') || ('0' <= c && c <= '9')
}

/// Whether `pat` occurs in `h` at `i`, ASCII case-insensitively.
pub fn occurs_ci_at(h: &Vec<char>, pat: &Vec<char>, i: usize) -> (r: bool)
    ensures
        r == occurs_ci(h@, pat@, i as int),
{
    if i > h.len() || pat.len() > h.len() - i {
        return false;
    }
    let mut k: usize = 0;
    while k < pat.len()
        invariant
            i + pat.len() <= h.len(),
            k <= pat.len(),
            forall|j: int| 0 <= j < k ==> ascii_lower(#[trigger] h@[i + j]) == ascii_lower(pat@[j]),
        decreases pat.len() - k,
    {
        if to_ascii_lower(h[i + k]) != to_ascii_lower(pat[k]) {
            assert(ascii_lower(h@[i + k as int]) != ascii_lower(pat@[k as int]));
            return false;
        }
        k = k + 1;
    }
    true
}

/// Whether `pat` occurs in `h` at `i`, exactly.
pub fn occurs_exact_at(h: &Vec<char>, pat: &Vec<char>, i: usize) -> (r: bool)
    ensures
        r == occurs_at(h@, pat@, i as int),
{
    if i > h.len() || pat.len() > h.len() - i {
        return false;
    }
    let mut k: usize = 0;
    while k < pat.len()
        invariant
            i + pat.len() <= h.len(),
            k <= pat.len(),
            forall|j: int| 0 <= j < k ==> #[trigger] h@[i + j] == pat@[j],
        decreases pat.len() - k,
    {
        if h[i + k] != pat[k] {
            assert(h@[i + k as int] != pat@[k as int]);
            return false;
        }
        k = k + 1;
    }
    true
}

/// `str::contains` on character vectors: whether `pat` occurs anywhere in `h`.
pub fn contains_chars(h: &Vec<char>, pat: &Vec<char>) -> (r: bool)
    ensures
        r == contains(h@, pat@),
{
    let mut i: usize = 0;
    loop
        invariant
            i <= h.len(),
            forall|j: int| 0 <= j < i ==> !occurs_at(h@, pat@, j),
        ensures
            forall|j: int| 0 <= j <= h.len() ==> !occurs_at(h@, pat@, j),
        decreases h.len() - i,
    {
        if occurs_exact_at(h, pat, i) {
            return true;
        }
        if i == h.len() {
            break;
        }
        i = i + 1;
    }
    assert forall|j: int| !occurs_at(h@, pat@, j) by {
        if 0 <= j && j <= h@.len() {
        }
    }
    false
}

/// `str::contains` for string slices.
pub fn str_contains(h: &str, pat: &str) -> (r: bool)
    ensures
        r == contains(h@, pat@),
{
    let hv = chars_of(h);
    let pv = chars_of(pat);
    contains_chars(&hv, &pv)
}

/// Whether two character vectors are equal.
pub fn chars_eq(a: &Vec<char>, b: &Vec<char>) -> (r: bool)
    ensures
        r == (a@ == b@),
{
    if a.len() != b.len() {
        return false;
    }
    let mut i: usize = 0;
    while i < a.len()
        invariant
            a.len() == b.len(),
            i <= a.len(),
            forall|k: int| 0 <= k < i ==> a@[k] == b@[k],
        decreases a.len() - i,
    {
        if a[i] != b[i] {
            return false;
        }
        i = i + 1;
    }
    assert(a@ =~= b@);
    true
}

/// Whether two string slices hold the same characters (`==` on `str`).
pub fn str_eq(a: &str, b: &str) -> (r: bool)
    ensures
        r == (a@ == b@),
{
    let av = chars_of(a);
    let bv = chars_of(b);
    chars_eq(&av, &bv)
}

/// The digit character for `d < 10`.
pub fn digit(d: u64) -> (c: char)
    requires
        d < 10,
    ensures
        c == digit_char(d as nat),
{
    if d == 0 {
        '0'
    } else if d == 1 {
        '1'
    } else if d == 2 {
        '2'
    } else if d == 3 {
        '3'
    } else if d == 4 {
        '4'
    } else if d == 5 {
        '5'
    } else if d == 6 {
        '6'
    } else if d == 7 {
        '7'
    } else if d == 8 {
        '8'
    } else {
        '9'
    }
}

/// Decimal rendering of `n`, as `format!("{}", n)` writes it.
pub fn decimal_string(n: u64) -> (s: String)
    ensures
        s@ == decimal(n as nat),
    decreases n,
{
    if n < 10 {
        let mut s = String::new();
        push_char(&mut s, digit(n));
        assert(s@ =~= seq![digit_char(n as nat)]);
        s
    } else {
        let mut s = decimal_string(n / 10);
        push_char(&mut s, digit(n % 10));
        s
    }
}

/// Decimal rendering of a signed 64-bit integer, as `format!("{}", n)`.
pub fn decimal_i64(n: i64) -> (s: String)
    ensures
        s@ == decimal_int(n as int),
{
    if n < 0 {
        let m: u64 = if n == i64::MIN {
            9223372036854775808u64
        } else {
            (-n) as u64
        };
        let mut s = String::new();
        push_char(&mut s, '-');
        let d = decimal_string(m);
        s.append(d.as_str());
        s
    } else {
        decimal_string(n as u64)
    }
}

/// Decimal rendering of a signed 32-bit integer, as `format!("{}", n)`.
pub fn decimal_i32(n: i32) -> (s: String)
    ensures
        s@ == decimal_int(n as int),
{
    if n < 0 {
        let m: u64 = if n == i32::MIN {
            2147483648u64
        } else {
            (-n) as u64
        };
        let mut s = String::new();
        push_char(&mut s, '-');
        let d = decimal_string(m);
        s.append(d.as_str());
        s
    } else {
        decimal_string(n as u64)
    }
}


// ---------------------------------------------------------------------------
// Parsing of configuration values (`str::parse` and `str::split`)
// ---------------------------------------------------------------------------

/// `c` is an ASCII decimal digit.
pub open spec fn is_digit(c: char) -> bool {
    '0' <= c && c <= '9'
}

/// Every character of `s` is an ASCII decimal digit.
pub open spec fn all_digits(s: Seq<char>) -> bool {
    forall|i: int| 0 <= i < s.len() ==> is_digit(#[trigger] s[i])
}

/// The value of the decimal digit `c`.
pub open spec fn digit_value(c: char) -> nat {
    (c as int - '0' as int) as nat
}

/// The number written by the decimal digits `s`, most significant first.
pub open spec fn digits_value(s: Seq<char>) -> nat
    decreases s.len(),
{
    if s.len() == 0 {
        0
    } else {
        digits_value(s.drop_last()) * 10 + digit_value(s.last())
    }
}

/// What `str::parse` gives for an unsigned integer type whose largest value
/// is `max`: an optional `+` followed by one or more ASCII digits (leading
/// zeros allowed) that write a number no larger than `max`; anything else,
/// white space included, is an error.
pub open spec fn parsed_unsigned(s: Seq<char>, max: int) -> Option<nat> {
    let d = if s.len() > 0 && s[0] == '+' {
        s.drop_first()
    } else {
        s
    };
    if d.len() > 0 && all_digits(d) && digits_value(d) <= max {
        Some(digits_value(d))
    } else {
        None
    }
}

/// A prefix of a digit string writes a number no larger than the whole.
pub proof fn lemma_digits_prefix_le(s: Seq<char>, k: int)
    requires
        all_digits(s),
        0 <= k <= s.len(),
    ensures
        digits_value(s.take(k)) <= digits_value(s),
    decreases s.len(),
{
    if k < s.len() {
        let t = s.drop_last();
        lemma_digits_prefix_le(t, k);
        assert(t.take(k) =~= s.take(k));
    } else {
        assert(s.take(k) =~= s);
    }
}

/// `str::parse` for an unsigned integer type whose largest value is `max`.
pub fn parse_unsigned(s: &str, max: u64) -> (r: Option<u64>)
    ensures
        r is Some <==> parsed_unsigned(s@, max as int) is Some,
        r matches Some(v) ==> parsed_unsigned(s@, max as int) == Some(v as nat),
{
    let cs = chars_of(s);
    let n = cs.len();
    let ghost d = if s@.len() > 0 && s@[0] == '+' {
        s@.drop_first()
    } else {
        s@
    };
    let start: usize = if n > 0 && cs[0] == '+' {
        1
    } else {
        0
    };
    assert(d =~= cs@.subrange(start as int, n as int));
    if start >= n {
        return None;
    }
    let mut i = start;
    let mut v: u64 = 0;
    while i < n
        invariant
            start <= i <= n,
            n == cs@.len(),
            cs@ == s@,
            d == cs@.subrange(start as int, n as int),
            d == (if s@.len() > 0 && s@[0] == '+' {
                s@.drop_first()
            } else {
                s@
            }),
            all_digits(cs@.subrange(start as int, i as int)),
            v as nat == digits_value(cs@.subrange(start as int, i as int)),
            v <= max,
        decreases n - i,
    {
        let c = cs[i];
        let ghost k = i - start;
        if !('0' <= c && c <= '9') {
            assert(d[k] == c);
            return None;
        }
        let dv = ((c as u32) - 48u32) as u64;
        let next: u128 = (v as u128) * 10 + (dv as u128);
        let ghost p = cs@.subrange(start as int, i + 1);
        assert(p.drop_last() =~= cs@.subrange(start as int, i as int));
        assert(all_digits(p));
        if next > max as u128 {
            proof {
                if all_digits(d) {
                    assert(d.take(k + 1) =~= p);
                    lemma_digits_prefix_le(d, k + 1);
                }
            }
            return None;
        }
        v = next as u64;
        i = i + 1;
    }
    assert(cs@.subrange(start as int, i as int) =~= d);
    Some(v)
}

/// What `str::parse::<bool>` gives: `true` and `false` exactly, nothing
/// else.
pub open spec fn parsed_bool(s: Seq<char>) -> Option<bool> {
    if s == "true"@ {
        Some(true)
    } else if s == "false"@ {
        Some(false)
    } else {
        None
    }
}

/// `str::parse::<bool>`.
pub fn parse_bool(s: &str) -> (r: Option<bool>)
    ensures
        r == parsed_bool(s@),
{
    if str_eq(s, "true") {
        Some(true)
    } else if str_eq(s, "false") {
        Some(false)
    } else {
        None
    }
}

/// The pieces of `s` between occurrences of `sep`, in order (what
/// `str::split` yields with a character pattern): one more piece than there
/// are separators, empty pieces included.
pub open spec fn split_on(s: Seq<char>, sep: char) -> Seq<Seq<char>>
    decreases s.len(),
{
    if s.len() == 0 {
        seq![Seq::empty()]
    } else {
        let p = split_on(s.drop_last(), sep);
        if s.last() == sep {
            p.push(Seq::empty())
        } else {
            p.update(p.len() - 1, p.last().push(s.last()))
        }
    }
}

/// Splitting always yields at least one piece.
pub proof fn lemma_split_nonempty(s: Seq<char>, sep: char)
    ensures
        split_on(s, sep).len() >= 1,
    decreases s.len(),
{
    if s.len() > 0 {
        lemma_split_nonempty(s.drop_last(), sep);
    }
}

/// `sep` does not occur in `s`.
pub open spec fn lacks(s: Seq<char>, sep: char) -> bool {
    forall|i: int| 0 <= i < s.len() ==> s[i] != sep
}

/// Appending text without separators extends the last piece.
pub proof fn lemma_split_extend(s: Seq<char>, b: Seq<char>, sep: char)
    requires
        lacks(b, sep),
    ensures
        split_on(s + b, sep) == split_on(s, sep).update(
            split_on(s, sep).len() - 1,
            split_on(s, sep).last() + b,
        ),
    decreases b.len(),
{
    let q = split_on(s, sep);
    lemma_split_nonempty(s, sep);
    if b.len() == 0 {
        assert(s + b =~= s);
        assert(q.last() + b =~= q.last());
        assert(q.update(q.len() - 1, q.last() + b) =~= q);
    } else {
        let b1 = b.drop_last();
        lemma_split_extend(s, b1, sep);
        assert((s + b).drop_last() =~= s + b1);
        assert((s + b).last() == b.last());
        assert((q.last() + b1).push(b.last()) =~= q.last() + b);
        assert(split_on(s + b, sep) =~= q.update(q.len() - 1, q.last() + b));
    }
}

/// Two texts without separators, joined by one, split back into the two.
pub proof fn lemma_split_pair(a: Seq<char>, b: Seq<char>, sep: char)
    requires
        lacks(a, sep),
        lacks(b, sep),
    ensures
        split_on(a + seq![sep] + b, sep) == seq![a, b],
{
    lemma_split_extend(Seq::empty(), a, sep);
    assert(Seq::<char>::empty() + a =~= a);
    assert(split_on(a, sep) =~= seq![a]);
    let t = a + seq![sep];
    assert(t.drop_last() =~= a);
    assert(split_on(t, sep) =~= seq![a, Seq::empty()]);
    lemma_split_extend(t, b, sep);
    assert(a + seq![sep] + b =~= t + b);
    assert(split_on(t + b, sep) =~= seq![a, b]);
}

/// The views of a vector of strings.
pub open spec fn strings_view(v: Seq<String>) -> Seq<Seq<char>> {
    v.map_values(|x: String| x@)
}

/// `str::split` with a character pattern, collected into owned strings.
pub fn split_str(s: &str, sep: char) -> (parts: Vec<String>)
    ensures
        strings_view(parts@) == split_on(s@, sep),
{
    let cs = chars_of(s);
    let mut parts: Vec<String> = Vec::new();
    let mut cur = String::new();
    let mut i: usize = 0;
    assert(cs@.take(0) =~= Seq::<char>::empty());
    assert(strings_view(parts@).push(cur@) =~= split_on(cs@.take(0), sep));
    while i < cs.len()
        invariant
            i <= cs.len(),
            cs@ == s@,
            strings_view(parts@).push(cur@) == split_on(cs@.take(i as int), sep),
        decreases cs.len() - i,
    {
        let c = cs[i];
        let ghost before = strings_view(parts@);
        let ghost t = cs@.take(i + 1);
        assert(t.drop_last() =~= cs@.take(i as int));
        assert(t.last() == c);
        proof {
            lemma_split_nonempty(cs@.take(i as int), sep);
        }
        if c == sep {
            let done = cur;
            parts.push(done);
            cur = String::new();
            assert(strings_view(parts@) =~= before.push(done@));
            assert(strings_view(parts@).push(cur@) =~= split_on(t, sep));
        } else {
            push_char(&mut cur, c);
            assert(strings_view(parts@).push(cur@) =~= split_on(t, sep));
        }
        i = i + 1;
    }
    assert(cs@.take(cs@.len() as int) =~= cs@);
    let ghost before = strings_view(parts@);
    let last = cur;
    parts.push(last);
    assert(strings_view(parts@) =~= before.push(last@));
    parts
}

} // verus!
