//! The two-tier model download policy.
//!
//! The artifact is fetched only when no file exists at the cache path: the
//! file's presence alone gates re-download.  A miss first tries a direct
//! streamed HTTP download of a fixed URL; any failure of that tier falls
//! back to the model-hub client; only when both tiers fail does the fetch
//! surface a download error carrying the last cause.  The policy is a pure
//! transition function; the caller performs the network actions it asks
//! for and feeds their outcomes back as events.

use vstd::prelude::*;
use crate::errors::TranslationError;
use crate::text::append_str;

verus! {

/// Where a fetch stands.
#[derive(Debug, Clone, PartialEq, Eq)]
pub enum FetchPhase {
    /// Nothing decided yet; the cache has not been consulted.
    Idle,
    /// The direct HTTP download is in flight.
    TryingDirect,
    /// The model-hub fallback is in flight.
    TryingHub,
    /// The artifact is present at the cache path.
    Complete,
    /// Both tiers failed.
    Failed,
}

/// What the caller observed and reports back to the policy.
#[derive(Debug, Clone, PartialEq, Eq)]
pub enum FetchEvent {
    /// A file exists at the cache path.
    CacheHit,
    /// No file exists at the cache path.
    CacheMiss,
    /// The direct download wrote the file completely.
    DirectSucceeded,
    /// The direct download failed: bad status, transport error or timeout.
    DirectFailed { cause: String },
    /// The hub client delivered the file within its timeout.
    HubSucceeded,
    /// The hub fallback failed or timed out.
    HubFailed { cause: String },
}

/// What the policy asks the caller to do next.
#[derive(Debug, Clone, PartialEq, Eq)]
pub enum FetchAction {
    /// The artifact is in place; nothing to do.
    Done,
    /// Issue the direct streamed HTTP download.
    StartDirect,
    /// Issue the model-hub fallback download.
    StartHub,
    /// Give up and surface this error.
    ReportFailure { error: TranslationError },
    /// The event does not apply to the phase; do nothing.
    Ignore,
}

/// True of the actions that perform network I/O.
pub open spec fn is_network_action(a: FetchAction) -> bool {
    a is StartDirect || a is StartHub
}

/// The fetch policy's transition function.
pub open spec fn spec_fetch_step(p: FetchPhase, e: FetchEvent) -> (FetchPhase, FetchAction) {
    match (p, e) {
        (FetchPhase::Idle, FetchEvent::CacheHit) => (FetchPhase::Complete, FetchAction::Done),
        (FetchPhase::Idle, FetchEvent::CacheMiss) => (
            FetchPhase::TryingDirect,
            FetchAction::StartDirect,
        ),
        (FetchPhase::TryingDirect, FetchEvent::DirectSucceeded) => (
            FetchPhase::Complete,
            FetchAction::Done,
        ),
        (FetchPhase::TryingDirect, FetchEvent::DirectFailed { .. }) => (
            FetchPhase::TryingHub,
            FetchAction::StartHub,
        ),
        (FetchPhase::TryingHub, FetchEvent::HubSucceeded) => (
            FetchPhase::Complete,
            FetchAction::Done,
        ),
        (FetchPhase::TryingHub, FetchEvent::HubFailed { cause }) => (
            FetchPhase::Failed,
            FetchAction::ReportFailure { error: TranslationError::Download { cause } },
        ),
        (q, _) => (q, FetchAction::Ignore),
    }
}

/// Advances the fetch policy by one observed event.
pub fn fetch_step(p: FetchPhase, e: FetchEvent) -> (r: (FetchPhase, FetchAction))
    ensures
        r == spec_fetch_step(p, e),
{
    match (p, e) {
        (FetchPhase::Idle, FetchEvent::CacheHit) => (FetchPhase::Complete, FetchAction::Done),
        (FetchPhase::Idle, FetchEvent::CacheMiss) => (
            FetchPhase::TryingDirect,
            FetchAction::StartDirect,
        ),
        (FetchPhase::TryingDirect, FetchEvent::DirectSucceeded) => (
            FetchPhase::Complete,
            FetchAction::Done,
        ),
        (FetchPhase::TryingDirect, FetchEvent::DirectFailed { .. }) => (
            FetchPhase::TryingHub,
            FetchAction::StartHub,
        ),
        (FetchPhase::TryingHub, FetchEvent::HubSucceeded) => (
            FetchPhase::Complete,
            FetchAction::Done,
        ),
        (FetchPhase::TryingHub, FetchEvent::HubFailed { cause }) => (
            FetchPhase::Failed,
            FetchAction::ReportFailure { error: TranslationError::Download { cause } },
        ),
        (q, _) => (q, FetchAction::Ignore),
    }
}

/// Law: the download is idempotent.  When a file already exists at the
/// cache path — as it does after any completed download — the very first
/// event is a cache hit, the fetch finishes at once, and no network action
/// is ever requested; re-download is gated by the file's presence alone.
pub proof fn lemma_download_idempotent(e: FetchEvent)
    ensures
        spec_fetch_step(FetchPhase::Idle, FetchEvent::CacheHit) == (
            FetchPhase::Complete,
            FetchAction::Done,
        ),
        !is_network_action(spec_fetch_step(FetchPhase::Idle, FetchEvent::CacheHit).1),
        !is_network_action(spec_fetch_step(FetchPhase::Complete, e).1),
        spec_fetch_step(FetchPhase::Complete, e).0 == FetchPhase::Complete,
{
}

/// Law: both tiers failing surfaces a download error that carries the last
/// underlying cause, and only the hub tier's failure ends the fetch — a
/// direct-download failure alone never does, it falls back instead.
pub proof fn lemma_download_fallback(direct_cause: String, hub_cause: String)
    ensures
        spec_fetch_step(FetchPhase::Idle, FetchEvent::CacheMiss) == (
            FetchPhase::TryingDirect,
            FetchAction::StartDirect,
        ),
        spec_fetch_step(
            FetchPhase::TryingDirect,
            FetchEvent::DirectFailed { cause: direct_cause },
        ) == (FetchPhase::TryingHub, FetchAction::StartHub),
        spec_fetch_step(FetchPhase::TryingHub, FetchEvent::HubFailed { cause: hub_cause }) == (
            FetchPhase::Failed,
            FetchAction::ReportFailure {
                error: TranslationError::Download { cause: hub_cause },
            },
        ),
{
}

/// The fixed repository the model artifact is published under.
pub fn model_repo() -> (r: &'static str)
    ensures
        r@ == "LiquidAI/LFM2-350M-ENJP-MT-GGUF"@,
{
    "LiquidAI/LFM2-350M-ENJP-MT-GGUF"
}

/// The fixed file name of the model artifact.
pub fn model_file_name() -> (r: &'static str)
    ensures
        r@ == "lfm2-350m-enjp-mt-q4_k_m.gguf"@,
{
    "lfm2-350m-enjp-mt-q4_k_m.gguf"
}

/// The URL the direct download tier fetches.
pub open spec fn spec_model_download_url() -> Seq<char> {
    "https://huggingface.co/"@ + "LiquidAI/LFM2-350M-ENJP-MT-GGUF"@ + "/resolve/main/"@
        + "lfm2-350m-enjp-mt-q4_k_m.gguf"@
}

/// Builds the URL the direct download tier fetches.
pub fn model_download_url() -> (r: String)
    ensures
        r@ == spec_model_download_url(),
{
    let mut s = "https://huggingface.co/".to_owned();
    append_str(&mut s, model_repo());
    append_str(&mut s, "/resolve/main/");
    append_str(&mut s, model_file_name());
    s
}

/// The cache path of the model artifact under the per-user cache root.
pub fn model_cache_path(cache_root: &str) -> (r: String)
    ensures
        r@ == cache_root@ + "/models/"@ + "lfm2-350m-enjp-mt-q4_k_m.gguf"@,
{
    let mut s = cache_root.to_owned();
    append_str(&mut s, "/models/");
    append_str(&mut s, model_file_name());
    s
}

/// The manual-recovery instructions emitted when both tiers fail.
pub fn manual_download_instructions(dest_path: &str) -> (r: String)
    ensures
        r@ == "Please try downloading the model manually:\n1. Download from: "@
            + spec_model_download_url() + "\n2. Save to: "@ + dest_path@,
{
    let mut s = "Please try downloading the model manually:\n1. Download from: ".to_owned();
    let url = model_download_url();
    append_str(&mut s, url.as_str());
    append_str(&mut s, "\n2. Save to: ");
    append_str(&mut s, dest_path);
    s
}

} // verus!
