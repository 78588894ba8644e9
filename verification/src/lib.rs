//! A local, on-device English/Japanese translation engine built around a
//! small autoregressive language model.
//!
//! The crate verifies the logic of the translation pipeline: direction
//! routing and prompt composition, the lifecycle of the cached model
//! artifact (two-tier download policy), idempotent model loading, and the
//! per-request generation session with its incremental UTF-8 decoder and
//! termination policy.  The native inference backend, the HTTP client and
//! the model-hub client are external collaborators driven by the binary.

pub mod direction;
pub mod engine;
pub mod errors;
pub mod fetch;
pub mod generation;
pub mod paths;
pub mod service;
pub mod text;
pub mod utf8dec;

use vstd::prelude::*;

verus! {

/// Number of tokens the per-request batch can hold; prompt plus generated
/// tokens never exceed this window.
pub const TOKEN_WINDOW: usize = 512;

} // verus!
