//! Detection of internet-wide scanner probes.
use vstd::prelude::*;
use crate::text::{contains, str_contains};

verus! {

/// Whether a payload looks like a scanner's MCP probe: a JSON-RPC 2.0
/// `initialize` call, written without spaces.
pub open spec fn shodan_probe(payload: Seq<char>) -> bool {
    contains(payload, "\"method\":\"initialize\""@) && contains(payload, "\"jsonrpc\":\"2.0\""@)
}

/// Detects potential Shodan scans by their JSON-RPC pattern: the payload
/// holds both `"method":"initialize"` and `"jsonrpc":"2.0"`.
pub fn is_shodan_probe(payload: &str) -> (r: bool)
    ensures
        r == shodan_probe(payload@),
{
    str_contains(payload, "\"method\":\"initialize\"") && str_contains(payload, "\"jsonrpc\":\"2.0\"")
}

} // verus!
