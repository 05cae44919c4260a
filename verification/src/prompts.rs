//! The instructions sent to a translation model.

use crate::text::push_str;
use crate::translator::TranslationDirection;
use vstd::prelude::*;

verus! {

/// System instructions for Korean-to-English prompt translation.
pub const INPUT_TRANSLATION_SYSTEM_PROMPT: &'static str = "You convert Korean developer instructions into compact English instructions for a coding agent. Preserve protected placeholders, file paths, code identifiers, commands, flags, JSON, diffs, logs, and error messages exactly. Return only the requested structured result.";

/// System instructions for English-to-Korean answer translation.
pub const OUTPUT_TRANSLATION_SYSTEM_PROMPT: &'static str = "You translate a coding agent's final English answer into natural Korean for a developer. Preserve protected placeholders, file paths, code identifiers, commands, flags, JSON, diffs, logs, and error messages exactly. Return only the requested structured result.";

/// The task line that opens the user prompt for a direction.
pub open spec fn task_line(direction: TranslationDirection) -> Seq<char> {
    match direction {
        TranslationDirection::KoreanToEnglish => "Translate the following user instruction into compact English optimized for an LLM coding agent."@,
        TranslationDirection::EnglishToKorean => "Translate the following coding-agent final answer into Korean."@,
    }
}

/// The system prompt for a direction.
pub open spec fn system_prompt_text(direction: TranslationDirection) -> Seq<char> {
    match direction {
        TranslationDirection::KoreanToEnglish => INPUT_TRANSLATION_SYSTEM_PROMPT@,
        TranslationDirection::EnglishToKorean => OUTPUT_TRANSLATION_SYSTEM_PROMPT@,
    }
}

/// The user prompt for a direction and a text: the task line, a blank
/// line, `Input:` and the text.
pub open spec fn user_prompt_text(direction: TranslationDirection, text: Seq<char>) -> Seq<char> {
    task_line(direction) + "\n\nInput:\n"@ + text
}

/// The system prompt for a direction.
pub fn system_prompt(direction: TranslationDirection) -> (s: &'static str)
    ensures
        s@ == system_prompt_text(direction),
{
    match direction {
        TranslationDirection::KoreanToEnglish => INPUT_TRANSLATION_SYSTEM_PROMPT,
        TranslationDirection::EnglishToKorean => OUTPUT_TRANSLATION_SYSTEM_PROMPT,
    }
}

/// The user prompt that asks for `text` to be translated.
pub fn user_prompt(direction: TranslationDirection, text: &str) -> (s: String)
    ensures
        s@ == user_prompt_text(direction, text@),
{
    let task = match direction {
        TranslationDirection::KoreanToEnglish => "Translate the following user instruction into compact English optimized for an LLM coding agent.",
        TranslationDirection::EnglishToKorean => "Translate the following coding-agent final answer into Korean.",
    };
    let mut s = String::new();
    push_str(&mut s, task);
    push_str(&mut s, "\n\nInput:\n");
    push_str(&mut s, text);
    s
}

} // verus!
