use konnyaku::engine::ModelState;
use konnyaku::errors::TranslationError;
use konnyaku::fetch::{
    fetch_step, manual_download_instructions, model_cache_path, model_download_url,
    model_file_name, model_repo, FetchAction, FetchEvent, FetchPhase,
};
use konnyaku::service::failure_response;

#[test]
fn cache_hit_downloads_nothing() {
    let (phase, action) = fetch_step(FetchPhase::Idle, FetchEvent::CacheHit);
    assert_eq!(phase, FetchPhase::Complete);
    assert_eq!(action, FetchAction::Done);
}

#[test]
fn cache_hit_gates_second_call() {
    // first call: miss, direct succeeds; second call: the file now exists,
    // so the fetch finishes without any network action
    let (p1, a1) = fetch_step(FetchPhase::Idle, FetchEvent::CacheMiss);
    assert_eq!(a1, FetchAction::StartDirect);
    let (p2, a2) = fetch_step(p1, FetchEvent::DirectSucceeded);
    assert_eq!((p2, a2), (FetchPhase::Complete, FetchAction::Done));
    let (p3, a3) = fetch_step(FetchPhase::Idle, FetchEvent::CacheHit);
    assert_eq!((p3, a3), (FetchPhase::Complete, FetchAction::Done));
}

#[test]
fn direct_failure_falls_back_to_hub() {
    let (phase, action) = fetch_step(
        FetchPhase::TryingDirect,
        FetchEvent::DirectFailed { cause: "HTTP error: 503".to_string() },
    );
    assert_eq!(phase, FetchPhase::TryingHub);
    assert_eq!(action, FetchAction::StartHub);
}

#[test]
fn hub_success_completes() {
    let (phase, action) = fetch_step(FetchPhase::TryingHub, FetchEvent::HubSucceeded);
    assert_eq!((phase, action), (FetchPhase::Complete, FetchAction::Done));
}

#[test]
fn both_tiers_failing_surfaces_download_error() {
    let (p1, _) = fetch_step(FetchPhase::Idle, FetchEvent::CacheMiss);
    let (p2, _) = fetch_step(p1, FetchEvent::DirectFailed { cause: "timeout".to_string() });
    let (p3, a3) = fetch_step(p2, FetchEvent::HubFailed { cause: "request timed out".to_string() });
    assert_eq!(p3, FetchPhase::Failed);
    match a3 {
        FetchAction::ReportFailure { error } => {
            assert_eq!(
                error,
                TranslationError::Download { cause: "request timed out".to_string() }
            );
            assert_eq!(error.message(), "Model download failed: request timed out");
        }
        other => panic!("expected a failure report, got {:?}", other),
    }
}

#[test]
fn failed_download_state_fails_translation_in_band() {
    let resp = failure_response(&TranslationError::Download { cause: "both tiers failed".to_string() });
    assert!(!resp.success);
    assert!(resp.translation.is_none());
    let err = resp.error.unwrap();
    assert!(err.contains("Translation failed"));
    assert_eq!(err, "Translation failed: Model download failed: both tiers failed");
}

#[test]
fn download_url_is_fixed() {
    assert_eq!(
        model_download_url(),
        "https://huggingface.co/LiquidAI/LFM2-350M-ENJP-MT-GGUF/resolve/main/lfm2-350m-enjp-mt-q4_k_m.gguf"
    );
    assert_eq!(model_repo(), "LiquidAI/LFM2-350M-ENJP-MT-GGUF");
    assert_eq!(model_file_name(), "lfm2-350m-enjp-mt-q4_k_m.gguf");
}

#[test]
fn cache_path_is_under_models() {
    assert_eq!(
        model_cache_path("/home/alice/.cache/konnyaku"),
        "/home/alice/.cache/konnyaku/models/lfm2-350m-enjp-mt-q4_k_m.gguf"
    );
}

#[test]
fn manual_instructions_name_url_and_destination() {
    let text = manual_download_instructions("/tmp/model.gguf");
    assert!(text.contains("https://huggingface.co/LiquidAI/LFM2-350M-ENJP-MT-GGUF/resolve/main/"));
    assert!(text.contains("/tmp/model.gguf"));
    assert!(text.contains("manually"));
}

#[test]
fn engine_starts_unloaded() {
    let s = ModelState::new();
    assert!(!s.loaded());
    assert!(s.needs_load());
}

#[test]
fn failed_load_commits_nothing() {
    let mut s = ModelState::new();
    s.commit_load(false);
    assert!(!s.loaded());
    assert!(s.needs_load());
}

#[test]
fn load_is_idempotent() {
    let mut s = ModelState::new();
    s.commit_load(true);
    assert!(s.loaded());
    assert!(!s.needs_load());
    // a later failed attempt never takes the state back to unloaded
    s.commit_load(false);
    assert!(s.loaded());
    s.commit_load(true);
    assert!(s.loaded());
}

#[test]
fn error_messages_are_exact() {
    assert_eq!(
        TranslationError::Environment.message(),
        "Failed to determine project directories"
    );
    assert_eq!(
        TranslationError::Io { detail: "denied".to_string() }.message(),
        "Filesystem error: denied"
    );
    assert_eq!(
        TranslationError::ModelLoad { cause: "bad magic".to_string() }.message(),
        "Failed to load model: bad magic"
    );
    assert_eq!(
        TranslationError::PromptTooLong { prompt_tokens: 600 }.message(),
        "Prompt is too long for the context window"
    );
    assert_eq!(
        TranslationError::Inference { cause: "decode failed".to_string() }.message(),
        "Inference failed: decode failed"
    );
    assert_eq!(
        TranslationError::InvalidDirection { token: "zz".to_string() }.message(),
        "Invalid translation direction: zz"
    );
}
