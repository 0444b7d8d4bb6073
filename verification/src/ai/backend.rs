//! The fast-boot backend: a zero-cost model for tests and smoke runs. Its
//! embedding (floating point) lives with the application; the library holds
//! its identity and dimension.
use vstd::prelude::*;

verus! {

/// Zero-cost backend for fast boot, of a given embedding dimension.
pub struct FastBootBackend {
    dim: usize,
}

impl FastBootBackend {
    /// The embedding dimension.
    pub closed spec fn dim_spec(&self) -> usize {
        self.dim
    }

    /// A fast-boot backend producing embeddings of dimension `dim`.
    pub fn new(dim: usize) -> (b: Self)
        ensures
            b.dim_spec() == dim,
    {
        FastBootBackend { dim }
    }

    /// The embedding dimension.
    pub fn dim(&self) -> (d: usize)
        ensures
            d == self.dim_spec(),
    {
        self.dim
    }

    /// The backend's name: "fast-boot".
    pub fn name(&self) -> (s: &'static str)
        ensures
            s@ == "fast-boot"@,
    {
        "fast-boot"
    }
}

} // verus!
