//! Stable hashing of strings with the standard library's `DefaultHasher`,
//! and lowercase hexadecimal rendering of the resulting 64-bit values.
use vstd::prelude::*;
use std::collections::hash_map::DefaultHasher;
use std::hash::{Hash, Hasher};
use crate::text::push_char;

verus! {

/// What a fresh `DefaultHasher` (as made by `DefaultHasher::new`) finishes
/// with after hashing the string `s`.
pub uninterp spec fn default_hash(s: Seq<char>) -> u64;

/// What a fresh `DefaultHasher` finishes with after hashing the strings
/// `a`, `b` and `c`, in that order.
pub uninterp spec fn default_hash3(a: Seq<char>, b: Seq<char>, c: Seq<char>) -> u64;

/// Hashes a string with a fresh `DefaultHasher::new()` (`str::hash` then
/// `Hasher::finish`). Every hasher made by `new` starts from the same keys,
/// so the result is a function of the string: the contract names it.
#[verifier::external_body]
pub(crate) fn hash_str(s: &str) -> (h: u64)
    ensures
        h == default_hash(s@),
{
    let mut hasher = DefaultHasher::new();
    s.hash(&mut hasher);
    hasher.finish()
}

/// Hashes three strings in order with one fresh `DefaultHasher::new()`.
/// The contract names the result.
#[verifier::external_body]
pub(crate) fn hash_str3(a: &str, b: &str, c: &str) -> (h: u64)
    ensures
        h == default_hash3(a@, b@, c@),
{
    let mut hasher = DefaultHasher::new();
    a.hash(&mut hasher);
    b.hash(&mut hasher);
    c.hash(&mut hasher);
    hasher.finish()
}

/// The lowercase hexadecimal digit of `d < 16`.
pub open spec fn hex_digit_char(d: nat) -> char {
    if d < 10 {
        (('0' as u32) + d) as char
    } else {
        (('a' as u32) + (d - 10)) as char
    }
}

/// Lowercase hexadecimal rendering of `n` without leading zeros, as
/// `format!("{:x}", n)`.
pub open spec fn hex_text(n: nat) -> Seq<char>
    decreases n,
{
    if n < 16 {
        seq![hex_digit_char(n)]
    } else {
        hex_text(n / 16).push(hex_digit_char(n % 16))
    }
}

/// The lowercase hexadecimal digit of `d < 16`.
pub fn hex_digit(d: u64) -> (c: char)
    requires
        d < 16,
    ensures
        c == hex_digit_char(d as nat),
{
    if d < 10 {
        let u: u32 = 48 + (d as u32);
        assert(u == ('0' as u32) + d);
        char_of(u)
    } else {
        let u: u32 = 87 + (d as u32);
        assert(u == ('a' as u32) + (d - 10));
        char_of(u)
    }
}

/// The character with an ASCII code.
fn char_of(u: u32) -> (c: char)
    requires
        u < 128,
    ensures
        c == u as char,
{
    match crate::text::char_from_u32(u) {
        Some(c) => c,
        None => ' ',
    }
}

/// Lowercase hexadecimal rendering of `n`, as `format!("{:x}", n)`.
pub fn hex_string(n: u64) -> (s: String)
    ensures
        s@ == hex_text(n as nat),
    decreases n,
{
    if n < 16 {
        let mut s = String::new();
        push_char(&mut s, hex_digit(n));
        assert(s@ =~= hex_text(n as nat));
        s
    } else {
        let mut s = hex_string(n / 16);
        push_char(&mut s, hex_digit(n % 16));
        s
    }
}

} // verus!
