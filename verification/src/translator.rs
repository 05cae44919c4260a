//! Translation requests, responses, provider kinds and the choice of a
//! provider from a configuration.

use crate::text::{
    ascii_lower, chars_eq_str, chars_of, chars_to_ascii_lower, owned, push_str, trim, trim_chars,
};
use crate::json::Json;
use crate::providers::{chat_completion_content, ollama_content, reply_accepted};
use std::time::Duration;
use vstd::prelude::*;

verus! {

/// Which way a text is translated.
#[derive(Debug, Clone, Copy, PartialEq, Eq, Structural)]
pub enum TranslationDirection {
    KoreanToEnglish,
    EnglishToKorean,
}

/// The translation back ends the library knows.
#[derive(Debug, Clone, Copy, PartialEq, Eq, Structural)]
pub enum TranslationProviderKind {
    Noop,
    Ollama,
    LocalOpenAiCompatible,
    OpenAi,
}

/// `Duration` is `Copy`; its `clone` returns an identical value.
pub assume_specification[ <Duration as Clone>::clone ](d: &Duration) -> (r: Duration)
    ensures
        r == *d,
;

/// What a translator is built from.
#[derive(Debug, Clone, PartialEq, Eq)]
pub struct TranslatorConfig {
    pub provider: TranslationProviderKind,
    pub model: Option<String>,
    pub base_url: Option<String>,
    pub api_key: Option<String>,
    pub timeout: Duration,
}

/// A text to translate and the direction to translate it in.
#[derive(Debug, Clone, PartialEq, Eq)]
pub struct TranslationRequest {
    pub direction: TranslationDirection,
    pub text: String,
}

/// A translated text and the provider that produced it.
#[derive(Debug, Clone, PartialEq, Eq)]
pub struct TranslationResponse {
    pub text: String,
    pub provider: TranslationProviderKind,
}

/// The outcome of a provider health check.
#[derive(Debug, Clone, PartialEq, Eq)]
pub struct ProviderHealth {
    pub provider: TranslationProviderKind,
    pub message: String,
}

/// Why a translation step was refused.
#[derive(Debug, Clone, PartialEq, Eq)]
pub enum TranslatorError {
    /// The provider name (trimmed, ASCII lower-cased) names no provider.
    UnknownProvider(String),
    /// The provider answered with nothing but whitespace.
    EmptyTranslation,
    /// The OpenAI provider has no usable API key.
    MissingApiKey,
    /// The OpenAI response had no `output` array.
    MissingOutput,
    /// The OpenAI model refused; the refusal text.
    Refused(String),
    /// No part of the OpenAI response held `translated_text`.
    MissingTranslatedText,
    /// A structured answer was not JSON; its first 120 characters.
    NotJson(String),
}

/// The text a translation error reads as.
pub open spec fn error_message_spec(e: TranslatorError) -> Seq<char> {
    match e {
        TranslatorError::UnknownProvider(n) => "unknown translation provider: "@ + n@,
        TranslatorError::EmptyTranslation => "translation provider returned empty text"@,
        TranslatorError::MissingApiKey => "OpenAI provider requires an API key env var"@,
        TranslatorError::MissingOutput => "OpenAI response missing output"@,
        TranslatorError::Refused(t) => "OpenAI refused translation: "@ + t@,
        TranslatorError::MissingTranslatedText => "OpenAI response did not contain translated_text"@,
        TranslatorError::NotJson(t) => "OpenAI structured translation response was not JSON: "@ + t@,
    }
}

impl TranslatorError {
    /// The text the error reads as.
    pub fn message(&self) -> (r: String)
        ensures
            r@ == error_message_spec(*self),
    {
        match self {
            TranslatorError::UnknownProvider(n) => {
                let mut m = owned("unknown translation provider: ");
                push_str(&mut m, n.as_str());
                m
            },
            TranslatorError::EmptyTranslation => owned("translation provider returned empty text"),
            TranslatorError::MissingApiKey => owned("OpenAI provider requires an API key env var"),
            TranslatorError::MissingOutput => owned("OpenAI response missing output"),
            TranslatorError::Refused(t) => {
                let mut m = owned("OpenAI refused translation: ");
                push_str(&mut m, t.as_str());
                m
            },
            TranslatorError::MissingTranslatedText => owned(
                "OpenAI response did not contain translated_text",
            ),
            TranslatorError::NotJson(t) => {
                let mut m = owned("OpenAI structured translation response was not JSON: ");
                push_str(&mut m, t.as_str());
                m
            },
        }
    }
}

/// The provider a name selects: the name is trimmed and ASCII lower-cased
/// first, and several spellings are accepted for each provider.
pub open spec fn provider_kind_from_name(name: Seq<char>) -> Option<TranslationProviderKind> {
    let n = ascii_lower(trim(name));
    if n == "noop"@ || n == "off"@ || n == "none"@ {
        Some(TranslationProviderKind::Noop)
    } else if n == "ollama"@ {
        Some(TranslationProviderKind::Ollama)
    } else if n == "local-openai-compatible"@ || n == "local_openai_compatible"@ || n == "local"@ {
        Some(TranslationProviderKind::LocalOpenAiCompatible)
    } else if n == "openai"@ || n == "remote-openai-compatible"@ || n
        == "remote_openai_compatible"@ {
        Some(TranslationProviderKind::OpenAi)
    } else {
        None
    }
}

/// The canonical name of a provider kind.
pub open spec fn provider_kind_name(kind: TranslationProviderKind) -> Seq<char> {
    match kind {
        TranslationProviderKind::Noop => "noop"@,
        TranslationProviderKind::Ollama => "ollama"@,
        TranslationProviderKind::LocalOpenAiCompatible => "local-openai-compatible"@,
        TranslationProviderKind::OpenAi => "openai"@,
    }
}

impl TranslationProviderKind {
    /// Parses a provider name (as `FromStr` does).
    pub fn from_name(value: &str) -> (r: Result<TranslationProviderKind, TranslatorError>)
        ensures
            match r {
                Ok(kind) => provider_kind_from_name(value@) == Some(kind),
                Err(e) => provider_kind_from_name(value@) is None && (e matches TranslatorError::UnknownProvider(name) && name@ == ascii_lower(trim(value@))),
            },
    {
        let raw = chars_of(value);
        let trimmed = trim_chars(&raw);
        let n = chars_to_ascii_lower(&trimmed);
        if chars_eq_str(&n, "noop") || chars_eq_str(&n, "off") || chars_eq_str(&n, "none") {
            Ok(TranslationProviderKind::Noop)
        } else if chars_eq_str(&n, "ollama") {
            Ok(TranslationProviderKind::Ollama)
        } else if chars_eq_str(&n, "local-openai-compatible") || chars_eq_str(
            &n,
            "local_openai_compatible",
        ) || chars_eq_str(&n, "local") {
            Ok(TranslationProviderKind::LocalOpenAiCompatible)
        } else if chars_eq_str(&n, "openai") || chars_eq_str(&n, "remote-openai-compatible")
            || chars_eq_str(&n, "remote_openai_compatible") {
            Ok(TranslationProviderKind::OpenAi)
        } else {
            Err(TranslatorError::UnknownProvider(crate::text::string_from_chars(&n)))
        }
    }

    /// The canonical name of the provider.
    pub fn as_str(self) -> (s: &'static str)
        ensures
            s@ == provider_kind_name(self),
    {
        match self {
            TranslationProviderKind::Noop => "noop",
            TranslationProviderKind::Ollama => "ollama",
            TranslationProviderKind::LocalOpenAiCompatible => "local-openai-compatible",
            TranslationProviderKind::OpenAi => "openai",
        }
    }

    /// Whether the provider sends text off this machine.
    pub fn is_remote(self) -> (b: bool)
        ensures
            b == (self == TranslationProviderKind::OpenAi),
    {
        match self {
            TranslationProviderKind::OpenAi => true,
            _ => false,
        }
    }
}

impl std::str::FromStr for TranslationProviderKind {
    type Err = TranslatorError;

    fn from_str(value: &str) -> (r: Result<TranslationProviderKind, TranslatorError>)
        ensures
            match r {
                Ok(kind) => provider_kind_from_name(value@) == Some(kind),
                Err(e) => provider_kind_from_name(value@) is None && (e matches TranslatorError::UnknownProvider(name) && name@ == ascii_lower(trim(value@))),
            },
    {
        TranslationProviderKind::from_name(value)
    }
}

/// A translator ready to be driven: the provider chosen by the
/// configuration, holding that configuration.
#[derive(Debug)]
pub enum TranslatorBackend {
    Noop(crate::providers::NoopTranslator),
    Ollama(crate::providers::OllamaTranslator),
    LocalOpenAiCompatible(crate::providers::LocalOpenAiCompatibleTranslator),
    OpenAi(crate::providers::RemoteOpenAiCompatibleTranslator),
}

impl TranslatorBackend {
    /// The provider this back end stands for.
    pub open spec fn kind_spec(&self) -> TranslationProviderKind {
        match self {
            TranslatorBackend::Noop(_) => TranslationProviderKind::Noop,
            TranslatorBackend::Ollama(_) => TranslationProviderKind::Ollama,
            TranslatorBackend::LocalOpenAiCompatible(_) => TranslationProviderKind::LocalOpenAiCompatible,
            TranslatorBackend::OpenAi(_) => TranslationProviderKind::OpenAi,
        }
    }

    /// The provider this back end stands for.
    pub fn provider(&self) -> (k: TranslationProviderKind)
        ensures
            k == self.kind_spec(),
    {
        match self {
            TranslatorBackend::Noop(_) => TranslationProviderKind::Noop,
            TranslatorBackend::Ollama(_) => TranslationProviderKind::Ollama,
            TranslatorBackend::LocalOpenAiCompatible(_) => TranslationProviderKind::LocalOpenAiCompatible,
            TranslatorBackend::OpenAi(_) => TranslationProviderKind::OpenAi,
        }
    }

    /// The answer to `request` given the provider's reply `body`: the
    /// request's text for the no-op back end (which sends nothing), else
    /// the translation read from the reply.  Every answer is tagged with
    /// this back end's provider.
    pub fn answer(&self, request: TranslationRequest, body: &Json) -> (r: Result<
        TranslationResponse,
        TranslatorError,
    >)
        ensures
            r matches Ok(resp) ==> resp.provider == self.kind_spec(),
            match self {
                TranslatorBackend::Noop(_) => r matches Ok(resp) && resp.text == request.text,
                TranslatorBackend::Ollama(_) => reply_accepted(r, ollama_content(*body), TranslationProviderKind::Ollama),
                TranslatorBackend::LocalOpenAiCompatible(_) => reply_accepted(
                    r,
                    chat_completion_content(*body),
                    TranslationProviderKind::LocalOpenAiCompatible,
                ),
                TranslatorBackend::OpenAi(t) => t.read_reply_matches(*body, r),
            },
    {
        match self {
            TranslatorBackend::Noop(t) => Ok(t.translate(request)),
            TranslatorBackend::Ollama(t) => t.read_reply(body),
            TranslatorBackend::LocalOpenAiCompatible(t) => t.read_reply(body),
            TranslatorBackend::OpenAi(t) => t.read_reply(body),
        }
    }

    /// The health report once the provider answered (at once for the
    /// no-op back end), tagged with this back end's provider.
    pub fn health(&self) -> (h: ProviderHealth)
        ensures
            h.provider == self.kind_spec(),
    {
        match self {
            TranslatorBackend::Noop(t) => t.health_check(),
            TranslatorBackend::Ollama(t) => t.health(),
            TranslatorBackend::LocalOpenAiCompatible(t) => t.health(),
            TranslatorBackend::OpenAi(t) => t.health(),
        }
    }
}

/// The translator built for a configuration answers for that
/// configuration's provider: `build_translator` gives the back end of the
/// configured provider, and that back end tags every translation
/// (`answer`) and health report (`health`) with its provider.
pub proof fn lemma_translator_tags_its_provider(
    config: TranslatorConfig,
    b: TranslatorBackend,
    r: Result<TranslationResponse, TranslatorError>,
    h: ProviderHealth,
)
    requires
        b.kind_spec() == config.provider,
        r matches Ok(resp) ==> resp.provider == b.kind_spec(),
        h.provider == b.kind_spec(),
    ensures
        r matches Ok(resp) ==> resp.provider == config.provider,
        h.provider == config.provider,
{
}

/// The translator for a configuration: the provider it names, built from
/// the whole configuration.
pub fn build_translator(config: TranslatorConfig) -> (r: TranslatorBackend)
    ensures
        r.kind_spec() == config.provider,
        match config.provider {
            TranslationProviderKind::Noop => r is Noop,
            TranslationProviderKind::Ollama => r matches TranslatorBackend::Ollama(t) && t.config
                == config,
            TranslationProviderKind::LocalOpenAiCompatible => r matches TranslatorBackend::LocalOpenAiCompatible(t)
                && t.config == config,
            TranslationProviderKind::OpenAi => r matches TranslatorBackend::OpenAi(t) && t.config
                == config,
        },
{
    match config.provider {
        TranslationProviderKind::Noop => TranslatorBackend::Noop(
            crate::providers::NoopTranslator::new(),
        ),
        TranslationProviderKind::Ollama => TranslatorBackend::Ollama(
            crate::providers::OllamaTranslator::new(config),
        ),
        TranslationProviderKind::LocalOpenAiCompatible => TranslatorBackend::LocalOpenAiCompatible(
            crate::providers::LocalOpenAiCompatibleTranslator::new(config),
        ),
        TranslationProviderKind::OpenAi => TranslatorBackend::OpenAi(
            crate::providers::RemoteOpenAiCompatibleTranslator::new(config),
        ),
    }
}

proof fn lemma_plain_name(s: Seq<char>)
    requires
        forall|i: int| 0 <= i < s.len() ==> 'a' <= #[trigger] s[i] <= 'z' || s[i] == '-',
    ensures
        ascii_lower(trim(s)) == s,
{
    assert(crate::text::trim_start(s) == s) by {
        if s.len() > 0 {
            assert('a' <= s[0] <= 'z' || s[0] == '-');
        }
    }
    assert(crate::text::trim_end(s) == s) by {
        if s.len() > 0 {
            assert('a' <= s[s.len() - 1] <= 'z' || s[s.len() - 1] == '-');
        }
    }
    assert(ascii_lower(s) =~= s);
}

/// Parsing the canonical name of a provider gives that provider back.
pub proof fn lemma_name_round_trip(kind: TranslationProviderKind)
    ensures
        provider_kind_from_name(provider_kind_name(kind)) == Some(kind),
{
    reveal_strlit("noop");
    reveal_strlit("off");
    reveal_strlit("none");
    reveal_strlit("ollama");
    reveal_strlit("local-openai-compatible");
    reveal_strlit("local_openai_compatible");
    reveal_strlit("local");
    reveal_strlit("openai");
    reveal_strlit("remote-openai-compatible");
    reveal_strlit("remote_openai_compatible");
    let s = provider_kind_name(kind);
    assert forall|i: int| 0 <= i < s.len() implies 'a' <= #[trigger] s[i] <= 'z' || s[i]
        == '-' by {}
    lemma_plain_name(s);
}

} // verus!
