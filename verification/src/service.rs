//! The request/response surface of the translation service.
//!
//! The host application hands over plain request values and receives the
//! structured response shape back; translation failures are reported
//! in-band, never raised.  The native tokenizer and model are external:
//! the caller tokenizes the composed prompt and collects the model's
//! per-step outputs, and [`translate_request`] turns them into the
//! response.

use vstd::prelude::*;
use crate::TOKEN_WINDOW;
use crate::direction::{parse_direction, spec_parse_direction};
use crate::errors::{spec_message, TranslationError};
use crate::generation::{run_generation, spec_translation, TokenOutput};
use crate::text::{append_str, concat_str};

verus! {

/// A translation request as the host application hands it over.
#[derive(Debug)]
pub struct TranslateRequest {
    pub text: String,
    /// A direction token, "en-ja" or "ja-en".
    pub direction: String,
}

/// The structured result of a translation request.  Failures are carried
/// in-band: exactly one of `translation` and `error` is present.
#[derive(Debug)]
pub struct TranslateResponse {
    pub success: bool,
    pub translation: Option<String>,
    pub error: Option<String>,
}

/// The answer to a model-status query.
#[derive(Debug, Clone, Copy, PartialEq, Eq, Structural)]
pub struct ModelStatusResponse {
    pub loaded: bool,
}

/// Wraps the engine's loaded flag for the status query.
pub fn get_model_status(loaded: bool) -> (r: ModelStatusResponse)
    ensures
        r.loaded == loaded,
{
    ModelStatusResponse { loaded }
}

/// The direction tokens the service supports, in their fixed order.
pub fn get_supported_languages() -> (r: Vec<String>)
    ensures
        r@.len() == 2,
        r@[0]@ == "en-ja"@,
        r@[1]@ == "ja-en"@,
{
    let mut v: Vec<String> = Vec::new();
    v.push("en-ja".to_owned());
    v.push("ja-en".to_owned());
    v
}

/// Greets by name.
pub fn greet(name: &str) -> (r: String)
    ensures
        r@ == "Hello, "@ + name@ + "! You've been greeted from Rust!"@,
{
    let mut s = "Hello, ".to_owned();
    append_str(&mut s, name);
    append_str(&mut s, "! You've been greeted from Rust!");
    s
}

/// The response for a finished translation.
pub fn success_response(translation: String) -> (r: TranslateResponse)
    ensures
        r.success,
        r.translation == Some(translation),
        r.error is None,
{
    TranslateResponse { success: true, translation: Some(translation), error: None }
}

/// The response reporting a failed translation, with the cause spelled
/// out after a fixed prefix.
pub fn failure_response(e: &TranslationError) -> (r: TranslateResponse)
    ensures
        !r.success,
        r.translation is None,
        r.error matches Some(m) && m@ == "Translation failed: "@ + spec_message(*e),
{
    let msg = e.message();
    TranslateResponse {
        success: false,
        translation: None,
        error: Some(concat_str("Translation failed: ", msg.as_str())),
    }
}

/// The response rejecting an unsupported direction token.
pub fn invalid_direction_response(token: &str) -> (r: TranslateResponse)
    ensures
        !r.success,
        r.translation is None,
        r.error matches Some(m) && m@ == "Invalid translation direction: "@ + token@,
{
    TranslateResponse {
        success: false,
        translation: None,
        error: Some(concat_str("Invalid translation direction: ", token)),
    }
}

/// Handles one translation request.  An unrecognized direction token is
/// rejected before anything reaches the tokenizer.  For a recognized
/// direction, `prompt_token_count` is what the tokenizer reported for the
/// composed prompt and `replies` are the model's per-step outputs in
/// order; the generation run's outcome becomes the structured response.
/// This function never fails out-of-band: every outcome is a response.
pub fn translate_request(
    req: &TranslateRequest,
    prompt_token_count: usize,
    replies: &Vec<TokenOutput>,
) -> (r: TranslateResponse)
    ensures
        spec_parse_direction(req.direction@) is None ==> !r.success && r.translation is None && (
        r.error matches Some(m) && m@ == "Invalid translation direction: "@ + req.direction@),
        spec_parse_direction(req.direction@) is Some && prompt_token_count <= TOKEN_WINDOW ==> {
            &&& r.success
            &&& r.translation matches Some(t) && t@ == spec_translation(
                prompt_token_count as int,
                replies@,
            )
            &&& r.error is None
        },
        spec_parse_direction(req.direction@) is Some && prompt_token_count > TOKEN_WINDOW ==> {
            &&& !r.success
            &&& r.translation is None
            &&& r.error matches Some(m) && m@ == "Translation failed: "@ + spec_message(
                TranslationError::PromptTooLong { prompt_tokens: prompt_token_count },
            )
        },
{
    match parse_direction(req.direction.as_str()) {
        None => invalid_direction_response(req.direction.as_str()),
        Some(_) => {
            match run_generation(prompt_token_count, replies) {
                Ok(t) => success_response(t),
                Err(e) => failure_response(&e),
            }
        },
    }
}

} // verus!
