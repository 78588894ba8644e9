use konnyaku::direction::{compose_prompt, parse_direction, system_prompt, TranslationDirection};
use konnyaku::generation::{run_generation, GenerationSession, TokenOutput};
use konnyaku::service::{
    get_model_status, get_supported_languages, greet, translate_request, TranslateRequest,
};
use konnyaku::errors::TranslationError;
use konnyaku::TOKEN_WINDOW;

fn token(bytes: &[u8]) -> TokenOutput {
    TokenOutput { eog: false, bytes: bytes.to_vec() }
}

fn eog() -> TokenOutput {
    TokenOutput { eog: true, bytes: Vec::new() }
}

#[test]
fn parse_direction_routes_tokens() {
    assert!(matches!(
        parse_direction("en-ja"),
        Some(TranslationDirection::EnglishToJapanese)
    ));
    assert!(matches!(
        parse_direction("ja-en"),
        Some(TranslationDirection::JapaneseToEnglish)
    ));
    assert!(parse_direction("fr-de").is_none());
    assert!(parse_direction("").is_none());
    assert!(parse_direction("en-ja ").is_none());
}

#[test]
fn system_prompts_are_fixed() {
    assert_eq!(
        system_prompt(TranslationDirection::EnglishToJapanese),
        "Translate to Japanese."
    );
    assert_eq!(
        system_prompt(TranslationDirection::JapaneseToEnglish),
        "Translate to English."
    );
}

#[test]
fn compose_prompt_joins_with_newline() {
    assert_eq!(
        compose_prompt(TranslationDirection::EnglishToJapanese, "Hello"),
        "Translate to Japanese.\nHello"
    );
    assert_eq!(
        compose_prompt(TranslationDirection::JapaneseToEnglish, "\u{3053}\u{3093}"),
        "Translate to English.\n\u{3053}\u{3093}"
    );
}

#[test]
fn scenario_hello_to_japanese() {
    // prompt "Translate to Japanese.\nHello"; the model answers with
    // tokens whose bytes decode to Japanese "konnichiwa", then stops
    let prompt = compose_prompt(TranslationDirection::EnglishToJapanese, "Hello");
    assert_eq!(prompt, "Translate to Japanese.\nHello");
    let replies = vec![
        token(&[0xE3, 0x81, 0x93, 0xE3]),
        token(&[0x82, 0x93, 0xE3, 0x81]),
        token(&[0xAB]),
        token(&[0xE3, 0x81, 0xA1, 0xE3, 0x81, 0xAF]),
        eog(),
    ];
    let req = TranslateRequest { text: "Hello".to_string(), direction: "en-ja".to_string() };
    let resp = translate_request(&req, 8, &replies);
    assert!(resp.success);
    assert_eq!(
        resp.translation.as_deref(),
        Some("\u{3053}\u{3093}\u{306B}\u{3061}\u{306F}")
    );
    assert!(resp.error.is_none());
}

#[test]
fn invalid_direction_never_translates() {
    let req = TranslateRequest { text: "Hello".to_string(), direction: "xx-yy".to_string() };
    let resp = translate_request(&req, 8, &vec![token(b"ignored"), eog()]);
    assert!(!resp.success);
    assert!(resp.translation.is_none());
    let err = resp.error.unwrap();
    assert!(err.contains("Invalid translation direction"));
    assert_eq!(err, "Invalid translation direction: xx-yy");
}

#[test]
fn translation_is_deterministic() {
    let make_replies = || vec![token(b"He"), token(b"llo"), eog()];
    let first = run_generation(10, &make_replies()).unwrap();
    let second = run_generation(10, &make_replies()).unwrap();
    assert_eq!(first, second);
    assert_eq!(first, "Hello");
}

#[test]
fn generation_trims_whitespace() {
    let replies = vec![token(b" hello"), token(b" world \n"), eog()];
    assert_eq!(run_generation(5, &replies).unwrap(), "hello world");
}

#[test]
fn generation_stops_at_eog() {
    let replies = vec![token(b"yes"), eog(), token(b"never")];
    assert_eq!(run_generation(5, &replies).unwrap(), "yes");
}

#[test]
fn generation_truncates_at_budget() {
    // a prompt of 510 tokens leaves a budget of 2 new tokens
    let replies = vec![token(b"ab"), token(b"cd"), token(b"ef"), eog()];
    assert_eq!(run_generation(TOKEN_WINDOW - 2, &replies).unwrap(), "abcd");
}

#[test]
fn full_prompt_window_translates_to_empty() {
    let replies = vec![token(b"ignored"), eog()];
    assert_eq!(run_generation(TOKEN_WINDOW, &replies).unwrap(), "");
}

#[test]
fn oversized_prompt_is_rejected() {
    let replies = vec![eog()];
    let r = run_generation(TOKEN_WINDOW + 1, &replies);
    assert_eq!(
        r,
        Err(TranslationError::PromptTooLong { prompt_tokens: TOKEN_WINDOW + 1 })
    );
}

#[test]
fn oversized_prompt_yields_failure_response() {
    let req = TranslateRequest { text: "long".to_string(), direction: "en-ja".to_string() };
    let resp = translate_request(&req, TOKEN_WINDOW + 1, &vec![eog()]);
    assert!(!resp.success);
    assert!(resp.error.unwrap().contains("Translation failed"));
}

#[test]
fn generation_runs_out_of_replies() {
    // the reply list ending early just ends the output
    let replies = vec![token(b"partial")];
    assert_eq!(run_generation(5, &replies).unwrap(), "partial");
}

#[test]
fn session_counts_positions() {
    let mut s = GenerationSession::new(3).unwrap();
    assert_eq!(s.prompt_tokens, 3);
    assert_eq!(s.max_new_tokens, TOKEN_WINDOW - 3);
    assert_eq!(s.next_pos, 3);
    assert!(!s.done);
    assert!(!s.step(false, &[0x61]));
    assert_eq!(s.produced, 1);
    assert_eq!(s.next_pos, 4);
    assert!(s.step(true, &[]));
    assert!(s.done);
    assert_eq!(s.finish(), "a");
}

#[test]
fn session_splits_multibyte_across_tokens() {
    let mut s = GenerationSession::new(4).unwrap();
    s.step(false, &[0xE3, 0x81]);
    s.step(false, &[0x93]);
    s.step(true, &[]);
    assert_eq!(s.finish(), "\u{3053}");
}

#[test]
fn supported_languages_are_ordered() {
    let langs = get_supported_languages();
    assert_eq!(langs, vec!["en-ja".to_string(), "ja-en".to_string()]);
}

#[test]
fn model_status_wraps_flag() {
    assert!(get_model_status(true).loaded);
    assert!(!get_model_status(false).loaded);
}

#[test]
fn greet_formats_name() {
    assert_eq!(greet("World"), "Hello, World! You've been greeted from Rust!");
}
