//! The loaded/unloaded state of the native inference engine.
//!
//! The process owns exactly one such state.  It starts unloaded, flips to
//! loaded on the first fully successful native load, and never flips back;
//! a failed load commits nothing.  The native backend handle and the model
//! weights themselves live with the caller that performs the load.

use vstd::prelude::*;

verus! {

/// Whether the model weights are resident in the native backend.
#[derive(Debug, Clone, Copy, PartialEq, Eq, Structural)]
pub struct ModelState {
    pub is_loaded: bool,
}

/// The state after a load attempt is committed: loaded exactly when it
/// already was, or the attempt fully succeeded.
pub open spec fn spec_commit_load(s: ModelState, success: bool) -> ModelState {
    ModelState { is_loaded: s.is_loaded || success }
}

/// A native load call is planned exactly when the model is not loaded.
pub open spec fn spec_needs_load(s: ModelState) -> bool {
    !s.is_loaded
}

impl ModelState {
    /// A fresh engine state: backend initialized, no model resident.
    pub fn new() -> (s: Self)
        ensures
            !s.is_loaded,
    {
        ModelState { is_loaded: false }
    }

    /// Decides whether a native load call must be issued.
    pub fn needs_load(&self) -> (b: bool)
        ensures
            b == spec_needs_load(*self),
    {
        !self.is_loaded
    }

    /// Commits the outcome of a native load attempt.  A failure leaves the
    /// state exactly as it was: a load is never partially committed.
    pub fn commit_load(&mut self, success: bool)
        ensures
            *final(self) == spec_commit_load(*old(self), success),
    {
        if success {
            self.is_loaded = true;
        }
    }

    /// Reads whether the model is loaded; no side effect.
    pub fn loaded(&self) -> (b: bool)
        ensures
            b == self.is_loaded,
    {
        self.is_loaded
    }
}

/// Law: loading is idempotent.  After one successful load the state is
/// loaded, a repeated call plans no second native load call, and no later
/// outcome — success or failure — ever takes the state back to unloaded.
pub proof fn lemma_load_idempotent(s: ModelState, later: bool)
    ensures
        spec_commit_load(s, true).is_loaded,
        !spec_needs_load(spec_commit_load(s, true)),
        spec_commit_load(spec_commit_load(s, true), later).is_loaded,
        spec_commit_load(s, false) == s,
{
}

} // verus!
