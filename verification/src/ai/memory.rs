//! Per-agent vector memory: the namespace under which an agent's vectors
//! are stored, kept apart by model and dimension so that vectors of
//! different models never mix. Storage and search go through the vector
//! database and live with the application.
use vstd::prelude::*;
use vstd::string::StringExecFns;
use crate::text::{
    chars_of, decimal_i32, decimal_int, is_alnum, lemma_decimal_int_injective, push_char,
};

verus! {

/// Vector memory rooted at a base path, for one model and dimension.
pub struct VectorMemory {
    base_path: String,
    dim: i32,
    model_id: String,
}

/// A model identifier made safe for a path: every character that is not an
/// ASCII letter or digit becomes `_`.
pub open spec fn safe_model_id(id: Seq<char>) -> Seq<char> {
    id.map_values(|c: char| if is_alnum(c) { c } else { '_' })
}

/// The namespace of an agent's vectors: `{base}/{safe model}_d{dim}/{agent}`.
pub open spec fn namespace_of(base: Seq<char>, model_id: Seq<char>, dim: int, agent_id: Seq<char>) -> Seq<
    char,
> {
    base + seq!['/'] + safe_model_id(model_id) + seq!['_', 'd'] + decimal_int(dim) + seq!['/']
        + agent_id
}

impl VectorMemory {
    /// The base path.
    pub closed spec fn base_spec(&self) -> Seq<char> {
        self.base_path@
    }

    /// The embedding dimension.
    pub closed spec fn dim_spec(&self) -> i32 {
        self.dim
    }

    /// The model identifier.
    pub closed spec fn model_spec(&self) -> Seq<char> {
        self.model_id@
    }

    /// Vector memory at `base_path` for the model `model_id` of dimension
    /// `dim`.
    pub fn new(base_path: &str, dim: i32, model_id: &str) -> (m: Self)
        ensures
            m.base_spec() == base_path@,
            m.dim_spec() == dim,
            m.model_spec() == model_id@,
    {
        VectorMemory {
            base_path: String::from_str(base_path),
            dim,
            model_id: String::from_str(model_id),
        }
    }

    /// The namespace of the agent's vectors for this model and dimension.
    pub fn table_namespace(&self, agent_id: &str) -> (s: String)
        ensures
            s@ == namespace_of(self.base_spec(), self.model_spec(), self.dim_spec() as int, agent_id@),
    {
        let id = chars_of(self.model_id.as_str());
        let mut s = String::from_str(self.base_path.as_str());
        push_char(&mut s, '/');
        let ghost start = s@;
        let mut k: usize = 0;
        while k < id.len()
            invariant
                k <= id@.len(),
                s@ == start + safe_model_id(id@.take(k as int)),
            decreases id.len() - k,
        {
            let c = id[k];
            let ok = ('a' <= c && c <= 'z') || ('A' <= c && c <= 'Z') || ('0' <= c && c <= '9');
            push_char(&mut s, if ok { c } else { '_' });
            k = k + 1;
            assert(safe_model_id(id@.take(k as int)) =~= safe_model_id(id@.take(k - 1)).push(
                if is_alnum(c) { c } else { '_' },
            ));
        }
        assert(id@.take(k as int) =~= id@);
        push_char(&mut s, '_');
        push_char(&mut s, 'd');
        let d = decimal_i32(self.dim);
        s.append(d.as_str());
        push_char(&mut s, '/');
        s.append(agent_id);
        assert(s@ =~= namespace_of(self.base_spec(), self.model_spec(), self.dim_spec() as int, agent_id@));
        s
    }
}

/// Law: memories of the same model that differ in dimension never share a
/// namespace, whatever the base path and agent.
pub proof fn lemma_namespace_separates_dims(
    base: Seq<char>,
    model_id: Seq<char>,
    d1: int,
    d2: int,
    agent_id: Seq<char>,
)
    requires
        d1 != d2,
    ensures
        namespace_of(base, model_id, d1, agent_id) != namespace_of(base, model_id, d2, agent_id),
{
    let x = base + seq!['/'] + safe_model_id(model_id) + seq!['_', 'd'];
    let y = seq!['/'] + agent_id;
    let n1 = namespace_of(base, model_id, d1, agent_id);
    let n2 = namespace_of(base, model_id, d2, agent_id);
    assert(n1 =~= x + decimal_int(d1) + y);
    assert(n2 =~= x + decimal_int(d2) + y);
    if n1 == n2 {
        let lo = x.len() as int;
        let hi1 = lo + decimal_int(d1).len();
        let hi2 = lo + decimal_int(d2).len();
        assert(hi1 == hi2);
        assert(n1.subrange(lo, hi1) =~= decimal_int(d1));
        assert(n2.subrange(lo, hi2) =~= decimal_int(d2));
        lemma_decimal_int_injective(d1, d2);
    }
}

/// Law: memories of the same dimension whose models differ once made safe
/// for a path never share a namespace, whatever the base path and agent.
pub proof fn lemma_namespace_separates_models(
    base: Seq<char>,
    m1: Seq<char>,
    m2: Seq<char>,
    dim: int,
    agent_id: Seq<char>,
)
    requires
        safe_model_id(m1) != safe_model_id(m2),
    ensures
        namespace_of(base, m1, dim, agent_id) != namespace_of(base, m2, dim, agent_id),
{
    let x = base + seq!['/'];
    let y = seq!['_', 'd'] + decimal_int(dim) + seq!['/'] + agent_id;
    let n1 = namespace_of(base, m1, dim, agent_id);
    let n2 = namespace_of(base, m2, dim, agent_id);
    assert(n1 =~= x + safe_model_id(m1) + y);
    assert(n2 =~= x + safe_model_id(m2) + y);
    if n1 == n2 {
        let lo = x.len() as int;
        assert(safe_model_id(m1).len() == safe_model_id(m2).len());
        let hi = lo + safe_model_id(m1).len();
        assert(n1.subrange(lo, hi) =~= safe_model_id(m1));
        assert(n2.subrange(lo, hi) =~= safe_model_id(m2));
    }
}

} // verus!
