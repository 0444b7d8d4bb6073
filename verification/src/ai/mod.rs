//! Model backends around the neural core: staged rollout of a new model
//! (canary), the zero-cost fast-boot backend, and the per-agent vector
//! memory namespace, and the order in which the model registry lists its
//! entries.
pub mod backend;
pub mod canary;
pub mod memory;
pub mod registry;
