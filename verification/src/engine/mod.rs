//! The decision engine's building blocks: managed rule sets, input
//! folding, admission and signatures of policy modules, the vision guard, agent reputation, the loop breaker, the tool
//! result cache and M-of-N consensus.
use vstd::prelude::*;
use dashmap::DashMap;

pub mod cache;
pub mod consensus;
pub mod integrity;
pub mod loop_breaker;
pub mod reputation;
pub mod rules;
pub mod signing;
pub mod vision;

verus! {

#[verifier::external_type_specification]
#[verifier::external_body]
#[verifier::reject_recursive_types(K)]
#[verifier::reject_recursive_types(V)]
#[verifier::reject_recursive_types(S)]
pub struct ExDashMap<K, V, S>(DashMap<K, V, S>);

} // verus!
