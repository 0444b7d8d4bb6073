//! Exposure checks for MCP servers: which WebSocket origins may connect,
//! ephemeral WebSocket tokens, and the report of locally exposed ports.
use vstd::prelude::*;
use crate::text::{contains, str_contains, str_eq};

pub mod canary;

verus! {

/// The outcome of probing one local port.
pub struct ScanResult {
    /// The port.
    pub port: u16,
    /// Whether it accepted a connection.
    pub is_open: bool,
    /// What is likely listening.
    pub service: String,
    /// Whether the exposure is a risk.
    pub vulnerable: bool,
}

/// MCP exposure checks.
pub struct McpShield;

/// The ports on which MCP and web servers commonly listen.
pub open spec fn exposure_ports() -> Seq<u16> {
    seq![3000u16, 8000u16, 8080u16, 9090u16, 50051u16]
}

/// The ports of `probes` that were found open, in order.
pub open spec fn open_ports(probes: Seq<(u16, bool)>) -> Seq<u16>
    decreases probes.len(),
{
    if probes.len() == 0 {
        Seq::empty()
    } else if probes.last().1 {
        open_ports(probes.drop_last()).push(probes.last().0)
    } else {
        open_ports(probes.drop_last())
    }
}

/// Whether a WebSocket origin may connect: one of `allowed` exactly, or,
/// with no list configured, any origin naming `localhost` or `127.0.0.1`.
pub open spec fn origin_allowed(origin: Seq<char>, allowed: Seq<Seq<char>>) -> bool {
    if allowed.len() == 0 {
        contains(origin, "localhost"@) || contains(origin, "127.0.0.1"@)
    } else {
        exists|k: int| 0 <= k < allowed.len() && allowed[k] == origin
    }
}

impl McpShield {
    /// The ports probed for exposed MCP servers.
    pub fn common_ports() -> (v: Vec<u16>)
        ensures
            v@ == exposure_ports(),
    {
        let v = vec![3000u16, 8000u16, 8080u16, 9090u16, 50051u16];
        assert(v@ =~= exposure_ports());
        v
    }

    /// The exposure report of a local scan, given for each probed port
    /// whether it accepted a connection: one result per open port, in
    /// order, each a potential MCP or web server and a risk.
    pub fn exposure_report(probes: &Vec<(u16, bool)>) -> (r: Vec<ScanResult>)
        ensures
            r@.map_values(|s: ScanResult| s.port) == open_ports(probes@),
            forall|k: int|
                0 <= k < r@.len() ==> (#[trigger] r@[k]).is_open && r@[k].vulnerable
                    && r@[k].service@ == "Potential MCP/Web"@,
    {
        let mut r: Vec<ScanResult> = Vec::new();
        let mut k: usize = 0;
        while k < probes.len()
            invariant
                k <= probes@.len(),
                r@.map_values(|s: ScanResult| s.port) == open_ports(probes@.take(k as int)),
                forall|j: int|
                    0 <= j < r@.len() ==> (#[trigger] r@[j]).is_open && r@[j].vulnerable
                        && r@[j].service@ == "Potential MCP/Web"@,
            decreases probes.len() - k,
        {
            let (port, is_open) = probes[k];
            let ghost before = r@.map_values(|s: ScanResult| s.port);
            assert(probes@.take(k + 1).drop_last() =~= probes@.take(k as int));
            if is_open {
                r.push(
                    ScanResult {
                        port,
                        is_open: true,
                        service: String::from_str("Potential MCP/Web"),
                        vulnerable: true,
                    },
                );
                assert(r@.map_values(|s: ScanResult| s.port) =~= before.push(port));
            }
            k = k + 1;
        }
        assert(probes@.take(k as int) =~= probes@);
        r
    }

    /// Whether a WebSocket origin may connect: one of `allowed_origins`
    /// exactly, or, with none configured, only local origins (naming
    /// `localhost` or `127.0.0.1`).
    pub fn validate_origin(origin: &str, allowed_origins: &[String]) -> (r: bool)
        ensures
            r == origin_allowed(origin@, allowed_origins@.map_values(|s: String| s@)),
    {
        let ghost av = allowed_origins@.map_values(|s: String| s@);
        if allowed_origins.len() == 0 {
            return str_contains(origin, "localhost") || str_contains(origin, "127.0.0.1");
        }
        let mut k: usize = 0;
        while k < allowed_origins.len()
            invariant
                k <= allowed_origins@.len(),
                av == allowed_origins@.map_values(|s: String| s@),
                forall|j: int| 0 <= j < k ==> av[j] != origin@,
            decreases allowed_origins.len() - k,
        {
            if str_eq(origin, allowed_origins[k].as_str()) {
                assert(av[k as int] == origin@);
                return true;
            }
            k = k + 1;
        }
        false
    }

    /// A fresh random token for a WebSocket client: a version 4 UUID in
    /// its hyphenated form, 36 characters.
    pub fn generate_ws_token() -> (t: String)
        ensures
            t@.len() == 36,
    {
        crate::clock::new_uuid()
    }
}

} // verus!
