//! The error taxonomy of the translation engine and the human-readable
//! message each error carries.

use vstd::prelude::*;
use crate::text::concat_str;

verus! {

/// Everything that can go wrong between a request and its translation.
#[derive(Debug, Clone, PartialEq, Eq)]
pub enum TranslationError {
    /// The per-user application directory convention could not be resolved.
    Environment,
    /// A filesystem operation failed.
    Io { detail: String },
    /// Both download tiers were exhausted; carries the last cause.
    Download { cause: String },
    /// The native backend could not load the model file.
    ModelLoad { cause: String },
    /// The tokenized prompt exceeds the usable token window.
    PromptTooLong { prompt_tokens: usize },
    /// A forward pass or tokenization failed mid-generation.
    Inference { cause: String },
    /// The request named a direction that is not supported.
    InvalidDirection { token: String },
}

/// The message text of each error.
pub open spec fn spec_message(e: TranslationError) -> Seq<char> {
    match e {
        TranslationError::Environment => "Failed to determine project directories"@,
        TranslationError::Io { detail } => "Filesystem error: "@ + detail@,
        TranslationError::Download { cause } => "Model download failed: "@ + cause@,
        TranslationError::ModelLoad { cause } => "Failed to load model: "@ + cause@,
        TranslationError::PromptTooLong { .. } => "Prompt is too long for the context window"@,
        TranslationError::Inference { cause } => "Inference failed: "@ + cause@,
        TranslationError::InvalidDirection { token } => "Invalid translation direction: "@
            + token@,
    }
}

impl TranslationError {
    /// Renders the error as a human-readable message.
    pub fn message(&self) -> (r: String)
        ensures
            r@ == spec_message(*self),
    {
        match self {
            TranslationError::Environment => "Failed to determine project directories".to_owned(),
            TranslationError::Io { detail } => concat_str("Filesystem error: ", detail.as_str()),
            TranslationError::Download { cause } => concat_str(
                "Model download failed: ",
                cause.as_str(),
            ),
            TranslationError::ModelLoad { cause } => concat_str(
                "Failed to load model: ",
                cause.as_str(),
            ),
            TranslationError::PromptTooLong { .. } => "Prompt is too long for the context window".to_owned(),
            TranslationError::Inference { cause } => concat_str(
                "Inference failed: ",
                cause.as_str(),
            ),
            TranslationError::InvalidDirection { token } => concat_str(
                "Invalid translation direction: ",
                token.as_str(),
            ),
        }
    }
}

} // verus!
