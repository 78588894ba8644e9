//! Translation directions and the fixed system prompts they select.

use vstd::prelude::*;
use crate::text::{append_str, str_eq};

verus! {

/// One of the two supported translation directions.
#[derive(Clone, Copy, PartialEq, Eq, Structural, Debug)]
pub enum TranslationDirection {
    EnglishToJapanese,
    JapaneseToEnglish,
}

/// The system prompt selected by a direction, as a character sequence.
pub open spec fn spec_system_prompt(d: TranslationDirection) -> Seq<char> {
    match d {
        TranslationDirection::EnglishToJapanese => "Translate to Japanese."@,
        TranslationDirection::JapaneseToEnglish => "Translate to English."@,
    }
}

/// Returns the fixed system prompt for the given direction.
pub fn system_prompt(d: TranslationDirection) -> (r: &'static str)
    ensures
        r@ == spec_system_prompt(d),
{
    match d {
        TranslationDirection::EnglishToJapanese => "Translate to Japanese.",
        TranslationDirection::JapaneseToEnglish => "Translate to English.",
    }
}

/// The direction a request token selects, if any.
pub open spec fn spec_parse_direction(t: Seq<char>) -> Option<TranslationDirection> {
    if t == "en-ja"@ {
        Some(TranslationDirection::EnglishToJapanese)
    } else if t == "ja-en"@ {
        Some(TranslationDirection::JapaneseToEnglish)
    } else {
        None
    }
}

/// Parses a request's direction token; any token other than the two
/// supported ones is rejected.
pub fn parse_direction(token: &str) -> (r: Option<TranslationDirection>)
    ensures
        r == spec_parse_direction(token@),
{
    if str_eq(token, "en-ja") {
        Some(TranslationDirection::EnglishToJapanese)
    } else if str_eq(token, "ja-en") {
        Some(TranslationDirection::JapaneseToEnglish)
    } else {
        None
    }
}

/// The full prompt for a request: the direction's system prompt, a line
/// break, then the source text.
pub open spec fn spec_compose_prompt(d: TranslationDirection, text: Seq<char>) -> Seq<char> {
    spec_system_prompt(d) + "\n"@ + text
}

/// Composes the full prompt handed to the tokenizer.
pub fn compose_prompt(d: TranslationDirection, text: &str) -> (r: String)
    ensures
        r@ == spec_compose_prompt(d, text@),
{
    let mut s = system_prompt(d).to_owned();
    append_str(&mut s, "\n");
    append_str(&mut s, text);
    s
}

/// Law: direction routing.  The token "en-ja" always selects the
/// Japanese-target system prompt, the token "ja-en" always selects the
/// English-target one, and every other token parses to no direction at
/// all, so it can never reach prompt composition.
pub proof fn lemma_direction_routing(t: Seq<char>)
    ensures
        spec_parse_direction("en-ja"@) == Some(TranslationDirection::EnglishToJapanese),
        spec_parse_direction("ja-en"@) == Some(TranslationDirection::JapaneseToEnglish),
        t != "en-ja"@ && t != "ja-en"@ ==> spec_parse_direction(t) is None,
        spec_parse_direction(t) == Some(TranslationDirection::EnglishToJapanese)
            ==> spec_system_prompt(spec_parse_direction(t)->Some_0)
            == "Translate to Japanese."@,
        spec_parse_direction(t) == Some(TranslationDirection::JapaneseToEnglish)
            ==> spec_system_prompt(spec_parse_direction(t)->Some_0)
            == "Translate to English."@,
{
    reveal_strlit("en-ja");
    reveal_strlit("ja-en");
    reveal_strlit("Translate to Japanese.");
    reveal_strlit("Translate to English.");
    assert(("ja-en"@)[0] != ("en-ja"@)[0]);
    assert("ja-en"@ != "en-ja"@);
}

} // verus!
