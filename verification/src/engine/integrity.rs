//! Admission of WASM policy modules: the engine's limits and the SHA-256
//! allow-list that a module's bytes must be on before it is compiled.
use vstd::prelude::*;
use crate::tenants::{hex_encode, hex_lower, lemma_hex_len, sha256, sha256_digest};
use crate::engine::signing::{classic_objection, opt_view, pq_objection, signing_message, PolicyVerifier};
use crate::text::copy_str;
use vstd::string::StringExecFns;

verus! {

/// The engine's limits and admission settings.
pub struct ZnEngineConfig {
    /// Fuel (gas) units for one policy run.
    pub gas_limit: u64,
    /// Memory a policy instance may grow to, in bytes.
    pub memory_limit: u64,
    /// Time budget of one policy run, in milliseconds.
    pub timeout_ms: u64,
    /// SHA-256 digests (lowercase hex) of the admitted modules; empty
    /// admits every module.
    pub allowed_hashes: Vec<String>,
    /// Ed25519 public key (hex) for policy signatures.
    pub signing_public_key: Option<String>,
}

/// The digest under which a module is admitted: the lowercase hex SHA-256
/// of its bytes.
pub open spec fn module_hash(data: Seq<u8>) -> Seq<char> {
    hex_lower(sha256(data))
}

/// The lowercase hex SHA-256 of `data`, 64 characters long: the digest
/// that names a policy module.
pub fn compute_hash(data: &[u8]) -> (h: String)
    ensures
        h@ == module_hash(data@),
        h@.len() == 64,
{
    let digest = sha256_digest(data);
    proof {
        lemma_hex_len(digest@);
    }
    hex_encode(digest.as_slice())
}

/// The message of a module refused by the allow-list.
pub open spec fn integrity_message(hash: Seq<char>) -> Seq<char> {
    "Policy integrity check failed: hash "@ + hash + " not allowed"@
}

/// Whether the module `data` is admitted: the allow-list is empty or holds
/// its digest.
pub open spec fn admitted(allowed: Seq<Seq<char>>, data: Seq<u8>) -> bool {
    allowed.len() == 0 || allowed.contains(module_hash(data))
}

fn list_contains(v: &Vec<String>, s: &str) -> (r: bool)
    ensures
        r == v@.map_values(|x: String| x@).contains(s@),
{
    let ghost views = v@.map_values(|x: String| x@);
    let mut i: usize = 0;
    while i < v.len()
        invariant
            i <= v.len(),
            views == v@.map_values(|x: String| x@),
            forall|k: int| 0 <= k < i ==> views[k] != s@,
        decreases v.len() - i,
    {
        if crate::text::str_eq(v[i].as_str(), s) {
            assert(views[i as int] == s@);
            return true;
        }
        i = i + 1;
    }
    assert forall|k: int| 0 <= k < views.len() implies views[k] != s@ by {}
    false
}

impl ZnEngineConfig {
    /// The integrity check of a policy module: admits the module `bytes` when
    /// the allow-list is empty or holds its digest; otherwise refuses it
    /// with a message naming the digest.
    pub fn verify_policy_integrity(&self, bytes: &[u8]) -> (r: Result<(), String>)
        ensures
            r is Ok <==> admitted(self.allowed_hashes@.map_values(|x: String| x@), bytes@),
            r matches Err(m) ==> m@ == integrity_message(module_hash(bytes@)),
    {
        if self.allowed_hashes.len() == 0 {
            return Ok(());
        }
        let hash = compute_hash(bytes);
        if list_contains(&self.allowed_hashes, hash.as_str()) {
            Ok(())
        } else {
            let mut m = copy_str("Policy integrity check failed: hash ");
            m.append(hash.as_str());
            m.append(" not allowed");
            Err(m)
        }
    }

    /// The epoch deadline of one policy run, in 100 ms ticks: the time
    /// budget divided by 100, at least one tick.
    pub fn epoch_deadline_ticks(&self) -> (t: u64)
        ensures
            t == (if self.timeout_ms / 100 >= 1 {
                self.timeout_ms / 100
            } else {
                1
            }),
    {
        let t = self.timeout_ms / 100;
        if t >= 1 {
            t
        } else {
            1
        }
    }

    /// Whether a policy instance may grow its memory to `desired` bytes.
    pub fn memory_growth_allowed(&self, desired: u64) -> (r: bool)
        ensures
            r == (desired <= self.memory_limit),
    {
        desired <= self.memory_limit
    }
}

/// Whether a policy instance may grow a table to `desired` elements: at
/// most 1000.
pub fn table_growth_allowed(desired: u64) -> (r: bool)
    ensures
        r == (desired <= 1000),
{
    desired <= 1000
}


/// The checks a policy module passes before it is compiled, in order: the
/// allow-list, then the classic signature, then the post-quantum one. The
/// error is the message of the first check that fails.
pub fn admit_module(
    config: &ZnEngineConfig,
    verifier: &PolicyVerifier,
    bytes: &[u8],
    classic_sig: Option<&str>,
    pq_sig: Option<&str>,
) -> (r: Result<(), String>)
    requires
        verifier.wf(),
    ensures
        !admitted(config.allowed_hashes@.map_values(|x: String| x@), bytes@) ==> (r matches Err(m)
            && m@ == integrity_message(module_hash(bytes@))),
        admitted(config.allowed_hashes@.map_values(|x: String| x@), bytes@) ==> (r is Ok <==> (
        classic_objection(verifier.classic_key(), bytes@, opt_view(classic_sig)) is None && pq_objection(
            verifier.pq_key(),
            bytes@,
            opt_view(pq_sig),
        ) is None)),
        admitted(config.allowed_hashes@.map_values(|x: String| x@), bytes@) ==> (r matches Err(m)
            ==> m@ == signing_message(
            match classic_objection(verifier.classic_key(), bytes@, opt_view(classic_sig)) {
                Some(e) => e,
                None => pq_objection(verifier.pq_key(), bytes@, opt_view(pq_sig))->Some_0,
            },
        )),
{
    match config.verify_policy_integrity(bytes) {
        Err(m) => Err(m),
        Ok(()) => match verifier.verify(bytes, classic_sig, pq_sig) {
            Ok(()) => Ok(()),
            Err(e) => Err(e.message()),
        },
    }
}

} // verus!
