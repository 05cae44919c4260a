//! What each translation provider sends and how its answers are read.
//! The HTTP exchange itself happens outside the library; here are the
//! endpoints, the request documents and the reading of the replies.

use crate::json::{json_array, json_get, json_str, json_str_at, jmember, jstr, Json};
use crate::prompts::{system_prompt, system_prompt_text, user_prompt, user_prompt_text};
use crate::text::{all_whitespace, chars_of, owned, push_char, push_str, trim, trim_str};
use crate::translator::{
    ProviderHealth, TranslationProviderKind, TranslationRequest, TranslationResponse,
    TranslatorConfig, TranslatorError,
};
use crate::validate::validate_non_empty_translation;
use vstd::prelude::*;

verus! {

// ---------------------------------------------------------------------------
// URLs and defaults
// ---------------------------------------------------------------------------

/// `s` without trailing `c` characters (`str::trim_end_matches`).
pub open spec fn strip_trailing(s: Seq<char>, c: char) -> Seq<char>
    decreases s.len(),
{
    if s.len() > 0 && s.last() == c {
        strip_trailing(s.drop_last(), c)
    } else {
        s
    }
}

/// The configured value, or the default when none is set.
pub open spec fn or_default(value: Option<String>, default: Seq<char>) -> Seq<char> {
    match value {
        Some(v) => v@,
        None => default,
    }
}

/// The base URL a provider uses: the configured one or the default,
/// without trailing slashes.
pub open spec fn provider_base_url(config: TranslatorConfig, default: Seq<char>) -> Seq<char> {
    strip_trailing(or_default(config.base_url, default), '/')
}

/// `s` without trailing slashes.
pub fn trim_trailing_slashes(s: &str) -> (r: String)
    ensures
        r@ == strip_trailing(s@, '/'),
{
    let v = chars_of(s);
    let mut n = v.len();
    assert(v@.subrange(0, n as int) =~= v@);
    while n > 0 && v[n - 1] == '/'
        invariant
            n <= v@.len(),
            strip_trailing(v@, '/') == strip_trailing(v@.subrange(0, n as int), '/'),
        decreases n,
    {
        assert(v@.subrange(0, n as int).drop_last() =~= v@.subrange(0, n - 1));
        n = n - 1;
    }
    crate::text::string_from_range(&v, 0, n)
}

fn configured_or(value: &Option<String>, default: &str) -> (r: String)
    ensures
        r@ == or_default(*value, default@),
{
    match value {
        Some(v) => v.clone(),
        None => owned(default),
    }
}

fn join_url(base: &String, path: &str) -> (r: String)
    ensures
        r@ == base@ + path@,
{
    let mut r = base.clone();
    push_str(&mut r, path);
    r
}

// ---------------------------------------------------------------------------
// Documents
// ---------------------------------------------------------------------------

/// `m` is the object `{"role": role, "content": content}`.
pub open spec fn is_chat_message(m: Json, role: Seq<char>, content: Seq<char>) -> bool {
    match m {
        Json::Object(e) => e@.len() == 2 && e@[0].0@ == "role"@ && json_str(e@[0].1) == Some(role)
            && e@[1].0@ == "content"@ && json_str(e@[1].1) == Some(content),
        _ => false,
    }
}

/// `v` is the chat message list: the system prompt, then the user prompt.
pub open spec fn is_prompt_messages(v: Json, request: TranslationRequest) -> bool {
    match v {
        Json::Array(items) => items@.len() == 2 && is_chat_message(
            items@[0],
            "system"@,
            system_prompt_text(request.direction),
        ) && is_chat_message(
            items@[1],
            "user"@,
            user_prompt_text(request.direction, request.text@),
        ),
        _ => false,
    }
}

fn chat_message(role: &str, content: String) -> (r: Json)
    ensures
        is_chat_message(r, role@, content@),
{
    Json::Object(vec![jmember("role", jstr(role)), jmember("content", Json::String(content))])
}

fn prompt_messages(request: &TranslationRequest) -> (r: Json)
    ensures
        is_prompt_messages(r, *request),
{
    let system = owned(system_prompt(request.direction));
    let user = user_prompt(request.direction, request.text.as_str());
    Json::Array(vec![chat_message("system", system), chat_message("user", user)])
}

/// The text of the first choice of a chat-completions reply, or nothing.
pub open spec fn chat_completion_content(body: Json) -> Seq<char> {
    match json_get(body, "choices"@) {
        Some(choices) => match json_array(choices) {
            Some(items) => if items.len() > 0 {
                match json_get(items[0], "message"@) {
                    Some(m) => match json_str_at(m, "content"@) {
                        Some(c) => c,
                        None => seq![],
                    },
                    None => seq![],
                }
            } else {
                seq![]
            },
            None => seq![],
        },
        None => seq![],
    }
}

/// A chat-completions reply is read from its first choice's message: when
/// `choices` is an array whose first item has a `message` with a string
/// `content`, that content is the reply text, and a reply whose content is
/// not blank is accepted as that content, trimmed.
pub proof fn lemma_chat_reply_is_first_message(
    body: Json,
    choices: Json,
    items: Seq<Json>,
    message: Json,
    content: String,
    r: Result<TranslationResponse, TranslatorError>,
)
    requires
        json_get(body, "choices"@) == Some(choices),
        json_array(choices) == Some(items),
        items.len() > 0,
        json_get(items[0], "message"@) == Some(message),
        json_get(message, "content"@) == Some(Json::String(content)),
    ensures
        chat_completion_content(body) == content@,
        (!all_whitespace(content@) && reply_accepted(
            r,
            chat_completion_content(body),
            TranslationProviderKind::LocalOpenAiCompatible,
        )) ==> (r matches Ok(resp) && resp.text@ == trim(content@) && resp.provider
            == TranslationProviderKind::LocalOpenAiCompatible),
{
}

/// The text of an Ollama chat reply, or nothing.
pub open spec fn ollama_content(body: Json) -> Seq<char> {
    match json_get(body, "message"@) {
        Some(m) => match json_str_at(m, "content"@) {
            Some(c) => c,
            None => seq![],
        },
        None => seq![],
    }
}

/// The translation a provider returns for a reply text: its trimmed text,
/// or `EmptyTranslation` when that is empty.
pub open spec fn reply_accepted(
    r: Result<TranslationResponse, TranslatorError>,
    raw: Seq<char>,
    provider: TranslationProviderKind,
) -> bool {
    &&& r is Ok <==> !all_whitespace(raw)
    &&& r matches Ok(resp) ==> resp.text@ == trim(raw) && resp.provider == provider
    &&& r matches Err(e) ==> e == TranslatorError::EmptyTranslation
}

fn accept_reply(raw: &str, provider: TranslationProviderKind) -> (r: Result<
    TranslationResponse,
    TranslatorError,
>)
    ensures
        reply_accepted(r, raw@, provider),
{
    let text = trim_str(raw);
    proof {
        crate::validate::lemma_trim_all_whitespace(raw@);
    }
    match validate_non_empty_translation(text.as_str()) {
        Ok(()) => Ok(TranslationResponse { text, provider }),
        Err(e) => Err(e),
    }
}

/// The translation a provider returns for a reply text kept as it is: the
/// text, or `EmptyTranslation` when it is empty once trimmed.
pub open spec fn reply_accepted_as_is(
    r: Result<TranslationResponse, TranslatorError>,
    raw: Seq<char>,
    provider: TranslationProviderKind,
) -> bool {
    &&& r is Ok <==> !all_whitespace(raw)
    &&& r matches Ok(resp) ==> resp.text@ == raw && resp.provider == provider
    &&& r matches Err(e) ==> e == TranslatorError::EmptyTranslation
}

fn accept_reply_as_is(raw: String, provider: TranslationProviderKind) -> (r: Result<
    TranslationResponse,
    TranslatorError,
>)
    ensures
        reply_accepted_as_is(r, raw@, provider),
{
    match validate_non_empty_translation(raw.as_str()) {
        Ok(()) => Ok(TranslationResponse { text: raw, provider }),
        Err(e) => Err(e),
    }
}

// ---------------------------------------------------------------------------
// Providers
// ---------------------------------------------------------------------------

/// The provider that leaves text as it is.
#[derive(Debug, Default)]
pub struct NoopTranslator;

impl NoopTranslator {
    /// A no-op translator.
    pub fn new() -> (r: NoopTranslator) {
        NoopTranslator
    }

    /// The request text, unchanged.
    pub fn translate(&self, request: TranslationRequest) -> (r: TranslationResponse)
        ensures
            r.text == request.text,
            r.provider == TranslationProviderKind::Noop,
    {
        TranslationResponse { text: request.text, provider: TranslationProviderKind::Noop }
    }

    /// Always healthy: translation is disabled.
    pub fn health_check(&self) -> (r: ProviderHealth)
        ensures
            r.provider == TranslationProviderKind::Noop,
            r.message@ == "translation disabled"@,
    {
        ProviderHealth {
            provider: TranslationProviderKind::Noop,
            message: owned("translation disabled"),
        }
    }
}

/// A local Ollama server.
#[derive(Debug)]
pub struct OllamaTranslator {
    pub config: TranslatorConfig,
}

/// Default Ollama server address.
pub open spec fn ollama_default_url() -> Seq<char> {
    "http://localhost:11434"@
}

impl OllamaTranslator {
    /// A translator for the given configuration.
    pub fn new(config: TranslatorConfig) -> (r: OllamaTranslator)
        ensures
            r.config == config,
    {
        OllamaTranslator { config }
    }

    /// The server address without trailing slashes.
    pub fn base_url(&self) -> (r: String)
        ensures
            r@ == provider_base_url(self.config, ollama_default_url()),
    {
        let url = configured_or(&self.config.base_url, "http://localhost:11434");
        trim_trailing_slashes(url.as_str())
    }

    /// The model name, `qwen2.5-coder:7b` by default.
    pub fn model(&self) -> (r: String)
        ensures
            r@ == or_default(self.config.model, "qwen2.5-coder:7b"@),
    {
        configured_or(&self.config.model, "qwen2.5-coder:7b")
    }

    /// Where translations are posted.
    pub fn chat_url(&self) -> (r: String)
        ensures
            r@ == provider_base_url(self.config, ollama_default_url()) + "/api/chat"@,
    {
        join_url(&self.base_url(), "/api/chat")
    }

    /// Where the health check goes.
    pub fn health_url(&self) -> (r: String)
        ensures
            r@ == provider_base_url(self.config, ollama_default_url()) + "/api/tags"@,
    {
        join_url(&self.base_url(), "/api/tags")
    }

    /// `{"model": .., "stream": false, "messages": [system, user]}`.
    pub fn request_body(&self, request: &TranslationRequest) -> (r: Json)
        ensures
            json_str_at(r, "model"@) == Some(or_default(self.config.model, "qwen2.5-coder:7b"@)),
            json_get(r, "stream"@) == Some(Json::Bool(false)),
            json_get(r, "messages"@) matches Some(m) && is_prompt_messages(m, *request),
    {
        let entries = vec![
            jmember("model", Json::String(self.model())),
            jmember("stream", Json::Bool(false)),
            jmember("messages", prompt_messages(request)),
        ];
        proof {
            reveal_strlit("model");
            reveal_strlit("stream");
            reveal_strlit("messages");
            assert("model"@.len() == 5 && "stream"@.len() == 6 && "messages"@.len() == 8);
            crate::json::lemma_distinct_members(entries@);
        }
        Json::Object(entries)
    }

    /// The translation in an Ollama reply.
    pub fn read_reply(&self, body: &Json) -> (r: Result<TranslationResponse, TranslatorError>)
        ensures
            reply_accepted(r, ollama_content(*body), TranslationProviderKind::Ollama),
    {
        let content = match body.get("message") {
            Some(m) => match m.get("content") {
                Some(c) => match c.as_str() {
                    Some(s) => owned(s),
                    None => String::new(),
                },
                None => String::new(),
            },
            None => String::new(),
        };
        accept_reply(content.as_str(), TranslationProviderKind::Ollama)
    }

    /// The health report after the server answered.
    pub fn health(&self) -> (r: ProviderHealth)
        ensures
            r.provider == TranslationProviderKind::Ollama,
            r.message@ == "Ollama reachable at "@ + provider_base_url(
                self.config,
                ollama_default_url(),
            ),
    {
        let mut message = owned("Ollama reachable at ");
        push_str(&mut message, self.base_url().as_str());
        ProviderHealth { provider: TranslationProviderKind::Ollama, message }
    }
}

/// A local server with the OpenAI chat-completions interface.
#[derive(Debug)]
pub struct LocalOpenAiCompatibleTranslator {
    pub config: TranslatorConfig,
}

/// Default address of a local OpenAI-compatible server.
pub open spec fn local_default_url() -> Seq<char> {
    "http://localhost:1234/v1"@
}

impl LocalOpenAiCompatibleTranslator {
    /// A translator for the given configuration.
    pub fn new(config: TranslatorConfig) -> (r: LocalOpenAiCompatibleTranslator)
        ensures
            r.config == config,
    {
        LocalOpenAiCompatibleTranslator { config }
    }

    /// The server address without trailing slashes.
    pub fn base_url(&self) -> (r: String)
        ensures
            r@ == provider_base_url(self.config, local_default_url()),
    {
        let url = configured_or(&self.config.base_url, "http://localhost:1234/v1");
        trim_trailing_slashes(url.as_str())
    }

    /// The model name, `local-model` by default.
    pub fn model(&self) -> (r: String)
        ensures
            r@ == or_default(self.config.model, "local-model"@),
    {
        configured_or(&self.config.model, "local-model")
    }

    /// Where translations are posted.
    pub fn chat_url(&self) -> (r: String)
        ensures
            r@ == provider_base_url(self.config, local_default_url()) + "/chat/completions"@,
    {
        join_url(&self.base_url(), "/chat/completions")
    }

    /// Where the health check goes.
    pub fn health_url(&self) -> (r: String)
        ensures
            r@ == provider_base_url(self.config, local_default_url()) + "/models"@,
    {
        join_url(&self.base_url(), "/models")
    }

    /// `{"model": .., "temperature": 0, "messages": [system, user]}`.
    pub fn request_body(&self, request: &TranslationRequest) -> (r: Json)
        ensures
            json_str_at(r, "model"@) == Some(or_default(self.config.model, "local-model"@)),
            json_get(r, "temperature"@) == Some(Json::Number(Some(0u64))),
            json_get(r, "messages"@) matches Some(m) && is_prompt_messages(m, *request),
    {
        let entries = vec![
            jmember("model", Json::String(self.model())),
            jmember("temperature", Json::Number(Some(0))),
            jmember("messages", prompt_messages(request)),
        ];
        proof {
            reveal_strlit("model");
            reveal_strlit("temperature");
            reveal_strlit("messages");
            assert("model"@.len() == 5 && "temperature"@.len() == 11 && "messages"@.len() == 8);
            crate::json::lemma_distinct_members(entries@);
        }
        Json::Object(entries)
    }

    /// The translation in a chat-completions reply.
    pub fn read_reply(&self, body: &Json) -> (r: Result<TranslationResponse, TranslatorError>)
        ensures
            reply_accepted(
                r,
                chat_completion_content(*body),
                TranslationProviderKind::LocalOpenAiCompatible,
            ),
    {
        let mut content = String::new();
        match body.get("choices") {
            Some(choices) => match choices.as_array() {
                Some(items) => {
                    if items.len() > 0 {
                        match items[0].get("message") {
                            Some(m) => match m.get("content") {
                                Some(c) => match c.as_str() {
                                    Some(s) => {
                                        content = owned(s);
                                    },
                                    None => {},
                                },
                                None => {},
                            },
                            None => {},
                        }
                    }
                },
                None => {},
            },
            None => {},
        }
        accept_reply(content.as_str(), TranslationProviderKind::LocalOpenAiCompatible)
    }

    /// The health report after the server answered.
    pub fn health(&self) -> (r: ProviderHealth)
        ensures
            r.provider == TranslationProviderKind::LocalOpenAiCompatible,
            r.message@ == "local OpenAI-compatible provider reachable at "@ + provider_base_url(
                self.config,
                local_default_url(),
            ),
    {
        let mut message = owned("local OpenAI-compatible provider reachable at ");
        push_str(&mut message, self.base_url().as_str());
        ProviderHealth { provider: TranslationProviderKind::LocalOpenAiCompatible, message }
    }
}

/// The OpenAI Responses API.
#[derive(Debug)]
pub struct RemoteOpenAiCompatibleTranslator {
    pub config: TranslatorConfig,
}

/// Default OpenAI API address.
pub open spec fn openai_default_url() -> Seq<char> {
    "https://api.openai.com/v1"@
}

/// The `input` list: one user message whose one part is the user prompt.
pub open spec fn is_openai_input(input: Json, request: TranslationRequest) -> bool {
    match json_array(input) {
        Some(items) => items.len() == 1 && json_str_at(items[0], "role"@) == Some("user"@) && match json_get(items[0], "content"@) {
            Some(content) => match json_array(content) {
                Some(parts) => parts.len() == 1 && json_str_at(parts[0], "type"@) == Some("input_text"@)
                    && json_str_at(parts[0], "text"@) == Some(user_prompt_text(request.direction, request.text@)),
                None => false,
            },
            None => false,
        },
        None => false,
    }
}

/// The `text` settings: a strict JSON schema named `translation_result`.
pub open spec fn is_translation_format(t: Json) -> bool {
    match json_get(t, "format"@) {
        Some(f) => json_str_at(f, "type"@) == Some("json_schema"@) && json_str_at(f, "name"@)
            == Some("translation_result"@) && json_get(f, "strict"@) == Some(Json::Bool(true))
            && (json_get(f, "schema"@) matches Some(schema) && is_translation_schema(schema)),
        None => false,
    }
}

/// The schema of a translation answer: an object with no other members
/// than `translated_text`, a required string described as the translated
/// text only.
pub open spec fn is_translation_schema(s: Json) -> bool {
    &&& json_str_at(s, "type"@) == Some("object"@)
    &&& json_get(s, "additionalProperties"@) == Some(Json::Bool(false))
    &&& match json_get(s, "required"@) {
        Some(req) => match json_array(req) {
            Some(items) => items.len() == 1 && json_str(items[0]) == Some("translated_text"@),
            None => false,
        },
        None => false,
    }
    &&& match json_get(s, "properties"@) {
        Some(props) => {
            &&& (match props {
                Json::Object(members) => members@.len() == 1,
                _ => false,
            })
            &&& match json_get(props, "translated_text"@) {
                Some(field) => json_str_at(field, "type"@) == Some("string"@) && json_str_at(
                    field,
                    "description"@,
                ) == Some("The translated text only."@),
                None => false,
            }
        },
        None => false,
    }
}

/// An API key counts when it holds something besides whitespace.
pub open spec fn usable_api_key(key: Option<String>) -> bool {
    key matches Some(k) && !all_whitespace(k@)
}

impl RemoteOpenAiCompatibleTranslator {
    /// A translator for the given configuration.
    pub fn new(config: TranslatorConfig) -> (r: RemoteOpenAiCompatibleTranslator)
        ensures
            r.config == config,
    {
        RemoteOpenAiCompatibleTranslator { config }
    }

    /// The API address without trailing slashes.
    pub fn base_url(&self) -> (r: String)
        ensures
            r@ == provider_base_url(self.config, openai_default_url()),
    {
        let url = configured_or(&self.config.base_url, "https://api.openai.com/v1");
        trim_trailing_slashes(url.as_str())
    }

    /// The model name, `gpt-4.1-mini` by default.
    pub fn model(&self) -> (r: String)
        ensures
            r@ == or_default(self.config.model, "gpt-4.1-mini"@),
    {
        configured_or(&self.config.model, "gpt-4.1-mini")
    }

    /// The API key; `MissingApiKey` when none is set or it is blank.
    pub fn api_key(&self) -> (r: Result<String, TranslatorError>)
        ensures
            r is Ok <==> usable_api_key(self.config.api_key),
            r matches Ok(k) ==> self.config.api_key == Some(k),
            r matches Err(e) ==> e == TranslatorError::MissingApiKey,
    {
        match &self.config.api_key {
            Some(key) => {
                if validate_non_empty_translation(key.as_str()).is_ok() {
                    Ok(key.clone())
                } else {
                    Err(TranslatorError::MissingApiKey)
                }
            },
            None => Err(TranslatorError::MissingApiKey),
        }
    }

    /// Where translations are posted.
    pub fn responses_url(&self) -> (r: String)
        ensures
            r@ == provider_base_url(self.config, openai_default_url()) + "/responses"@,
    {
        join_url(&self.base_url(), "/responses")
    }

    /// Where the health check goes.
    pub fn health_url(&self) -> (r: String)
        ensures
            r@ == provider_base_url(self.config, openai_default_url()) + "/models"@,
    {
        join_url(&self.base_url(), "/models")
    }

    /// The Responses API request: the model, the system prompt as
    /// instructions, the user prompt as the one input text, and a strict
    /// JSON schema asking for `translated_text`.
    pub fn request_body(&self, request: &TranslationRequest) -> (r: Json)
        ensures
            json_str_at(r, "model"@) == Some(or_default(self.config.model, "gpt-4.1-mini"@)),
            json_str_at(r, "instructions"@) == Some(system_prompt_text(request.direction)),
            json_get(r, "input"@) matches Some(input) && is_openai_input(input, *request),
            json_get(r, "text"@) matches Some(t) && is_translation_format(t),
    {
        proof {
            reveal_strlit("model");
            reveal_strlit("instructions");
            reveal_strlit("input");
            reveal_strlit("text");
            reveal_strlit("type");
            reveal_strlit("role");
            reveal_strlit("content");
            reveal_strlit("format");
            reveal_strlit("name");
            reveal_strlit("strict");
            reveal_strlit("schema");
        }
        let part_entries = vec![
            jmember("type", jstr("input_text")),
            jmember("text", Json::String(user_prompt(request.direction, request.text.as_str()))),
        ];
        let item_entries = vec![
            jmember("role", jstr("user")),
            jmember("content", Json::Array(vec![Json::Object(part_entries)])),
        ];
        let input = Json::Array(vec![Json::Object(item_entries)]);
        let field_entries = vec![
            jmember("type", jstr("string")),
            jmember("description", jstr("The translated text only.")),
        ];
        let field = Json::Object(field_entries);
        let property_entries = vec![jmember("translated_text", field)];
        let schema_entries = vec![
            jmember("type", jstr("object")),
            jmember("additionalProperties", Json::Bool(false)),
            jmember("properties", Json::Object(property_entries)),
            jmember("required", Json::Array(vec![jstr("translated_text")])),
        ];
        let schema = Json::Object(schema_entries);
        let format_entries = vec![
            jmember("type", jstr("json_schema")),
            jmember("name", jstr("translation_result")),
            jmember("strict", Json::Bool(true)),
            jmember("schema", schema),
        ];
        let text_entries = vec![jmember("format", Json::Object(format_entries))];
        let entries = vec![
            jmember("model", Json::String(self.model())),
            jmember("instructions", jstr(system_prompt(request.direction))),
            jmember("input", input),
            jmember("text", Json::Object(text_entries)),
        ];
        proof {
            assert("model"@.len() == 5 && "instructions"@.len() == 12 && "input"@.len() == 5
                && "text"@.len() == 4 && "type"@.len() == 4 && "role"@.len() == 4
                && "content"@.len() == 7 && "format"@.len() == 6 && "name"@.len() == 4
                && "strict"@.len() == 6 && "schema"@.len() == 6);
            assert("model"@[0] == 'm' && "input"@[0] == 'i' && "text"@[0] == 't' && "type"@[1]
                == 'y' && "text"@[1] == 'e' && "name"@[0] == 'n' && "strict"@[1] == 't'
                && "schema"@[1] == 'c');
            crate::json::lemma_distinct_members(entries@);
            crate::json::lemma_distinct_members(part_entries@);
            crate::json::lemma_distinct_members(item_entries@);
            crate::json::lemma_distinct_members(format_entries@);
            crate::json::lemma_distinct_members(text_entries@);
            reveal_strlit("additionalProperties");
            reveal_strlit("properties");
            reveal_strlit("required");
            reveal_strlit("description");
            assert("additionalProperties"@.len() == 20 && "properties"@.len() == 10
                && "required"@.len() == 8 && "description"@.len() == 11);
            assert("properties"@[0] == 'p' && "required"@[0] == 'r');
            crate::json::lemma_distinct_members(field_entries@);
            crate::json::lemma_distinct_members(property_entries@);
            crate::json::lemma_distinct_members(schema_entries@);
        }
        Json::Object(entries)
    }

    /// What reading a Responses API reply gives: the translation as the
    /// reply gives it, or the reason there is none.
    pub open spec fn read_reply_matches(&self, body: Json, r: Result<TranslationResponse, TranslatorError>) -> bool {
        match response_outcome(body) {
            ResponseOutcome::Found(t) => reply_accepted_as_is(r, t, TranslationProviderKind::OpenAi),
            ResponseOutcome::Refused(t) => r matches Err(TranslatorError::Refused(x)) && x@ == t,
            ResponseOutcome::NotJson(t) => r matches Err(TranslatorError::NotJson(x)) && x@ == t,
            ResponseOutcome::MissingOutput => r == Err::<TranslationResponse, TranslatorError>(
                TranslatorError::MissingOutput,
            ),
            ResponseOutcome::Missing => r == Err::<TranslationResponse, TranslatorError>(
                TranslatorError::MissingTranslatedText,
            ),
        }
    }

    /// The translation in a Responses API reply, as the reply gives it.
    pub fn read_reply(&self, body: &Json) -> (r: Result<TranslationResponse, TranslatorError>)
        ensures
            self.read_reply_matches(*body, r),
            match response_outcome(*body) {
                ResponseOutcome::Found(t) => reply_accepted_as_is(r, t, TranslationProviderKind::OpenAi),
                ResponseOutcome::Refused(t) => r matches Err(TranslatorError::Refused(x)) && x@ == t,
                ResponseOutcome::NotJson(t) => r matches Err(TranslatorError::NotJson(x)) && x@ == t,
                ResponseOutcome::MissingOutput => r == Err::<TranslationResponse, TranslatorError>(
                    TranslatorError::MissingOutput,
                ),
                ResponseOutcome::Missing => r == Err::<TranslationResponse, TranslatorError>(
                    TranslatorError::MissingTranslatedText,
                ),
            },
    {
        match translated_text_from_response(body) {
            Ok(text) => accept_reply_as_is(text, TranslationProviderKind::OpenAi),
            Err(e) => Err(e),
        }
    }

    /// The health report after the API answered.
    pub fn health(&self) -> (r: ProviderHealth)
        ensures
            r.provider == TranslationProviderKind::OpenAi,
            r.message@ == "OpenAI API reachable"@,
    {
        ProviderHealth {
            provider: TranslationProviderKind::OpenAi,
            message: owned("OpenAI API reachable"),
        }
    }
}

// ---------------------------------------------------------------------------
// Reading structured OpenAI answers
// ---------------------------------------------------------------------------

#[verifier::external_type_specification]
#[verifier::external_body]
pub struct ExJsonError(serde_json::Error);

/// What `serde_json` finds under `key` in the JSON document `text`:
/// `None` when `text` is not JSON, `Some(None)` when there is no string
/// member `key`, `Some(Some(s))` when there is.
pub uninterp spec fn json_document_string_member(text: Seq<char>, key: Seq<char>) -> Option<
    Option<Seq<char>>,
>;

/// Parses `text` with `serde_json::from_str` into a `serde_json::Value` and
/// reads the string member `key` with `Value::get`; the contract names the
/// outcome and says nothing of which texts are JSON.
#[verifier::external_body]
fn parse_string_member(text: &str, key: &str) -> (r: Result<Option<String>, serde_json::Error>)
    ensures
        json_document_string_member(text@, key@) == match r {
            Ok(Some(s)) => Some(Some(s@)),
            Ok(None) => Some(None),
            Err(_) => None,
        },
{
    match serde_json::from_str::<serde_json::Value>(text) {
        Ok(value) => match value.get(key) {
            Some(serde_json::Value::String(s)) => Ok(Some(s.clone())),
            _ => Ok(None),
        },
        Err(error) => Err(error),
    }
}

/// How reading one structured answer text ends.
pub enum PartOutcome {
    /// The answer is JSON with a string `translated_text`.
    Found(Seq<char>),
    /// The answer is JSON without it.
    Absent,
    /// The answer is not JSON; its first 120 characters.
    NotJson(Seq<char>),
}

/// How reading a whole Responses API reply ends.
pub enum ResponseOutcome {
    Found(Seq<char>),
    Refused(Seq<char>),
    NotJson(Seq<char>),
    MissingOutput,
    Missing,
}

/// The reading of one structured answer text.
pub open spec fn part_outcome(text: Seq<char>) -> PartOutcome {
    match json_document_string_member(text, "translated_text"@) {
        Some(Some(t)) => PartOutcome::Found(t),
        Some(None) => PartOutcome::Absent,
        None => PartOutcome::NotJson(text.take(if text.len() < 120 { text.len() as int } else { 120 })),
    }
}

/// Scanning the parts of one output item: a refusal stops, a text part
/// that is not JSON stops, a text part with `translated_text` stops;
/// anything else is passed over.  `None` when the parts run out.
pub open spec fn scan_parts(parts: Seq<Json>) -> Option<ResponseOutcome>
    decreases parts.len(),
{
    if parts.len() == 0 {
        None
    } else {
        let part = parts[0];
        match json_str_at(part, "refusal"@) {
            Some(refusal) => Some(ResponseOutcome::Refused(refusal)),
            None => match json_str_at(part, "text"@) {
                Some(text) => match part_outcome(text) {
                    PartOutcome::Found(t) => Some(ResponseOutcome::Found(t)),
                    PartOutcome::NotJson(t) => Some(ResponseOutcome::NotJson(t)),
                    PartOutcome::Absent => scan_parts(parts.drop_first()),
                },
                None => scan_parts(parts.drop_first()),
            },
        }
    }
}

/// Scanning the output items in order; items without a `content` array
/// are passed over.
pub open spec fn scan_items(items: Seq<Json>) -> Option<ResponseOutcome>
    decreases items.len(),
{
    if items.len() == 0 {
        None
    } else {
        let here = match json_get(items[0], "content"@) {
            Some(c) => match json_array(c) {
                Some(parts) => scan_parts(parts),
                None => None,
            },
            None => None,
        };
        match here {
            Some(o) => Some(o),
            None => scan_items(items.drop_first()),
        }
    }
}

/// How a Responses API reply is read: `output_text` first when it holds
/// the answer, then the parts of each `output` item.
pub open spec fn response_outcome(body: Json) -> ResponseOutcome {
    let first = match json_str_at(body, "output_text"@) {
        Some(text) => match part_outcome(text) {
            PartOutcome::Found(t) => Some(ResponseOutcome::Found(t)),
            PartOutcome::NotJson(t) => Some(ResponseOutcome::NotJson(t)),
            PartOutcome::Absent => None,
        },
        None => None,
    };
    match first {
        Some(o) => o,
        None => match json_get(body, "output"@) {
            Some(out) => match json_array(out) {
                Some(items) => match scan_items(items) {
                    Some(o) => o,
                    None => ResponseOutcome::Missing,
                },
                None => ResponseOutcome::MissingOutput,
            },
            None => ResponseOutcome::MissingOutput,
        },
    }
}

/// The string `translated_text` of the JSON document `text`; `NotJson`
/// with the first 120 characters of `text` when it is not JSON.
pub fn translated_text_from_json(text: &str) -> (r: Result<Option<String>, TranslatorError>)
    ensures
        match part_outcome(text@) {
            PartOutcome::Found(t) => r matches Ok(Some(s)) && s@ == t,
            PartOutcome::Absent => r matches Ok(None),
            PartOutcome::NotJson(t) => r matches Err(TranslatorError::NotJson(x)) && x@ == t,
        },
{
    match parse_string_member(text, "translated_text") {
        Ok(found) => Ok(found),
        Err(_) => {
            let v = chars_of(text);
            let n = if v.len() < 120 {
                v.len()
            } else {
                120
            };
            Err(TranslatorError::NotJson(crate::text::string_from_range(&v, 0, n)))
        },
    }
}

/// The translated text in a Responses API reply.
pub fn translated_text_from_response(body: &Json) -> (r: Result<String, TranslatorError>)
    ensures
        match response_outcome(*body) {
            ResponseOutcome::Found(t) => r matches Ok(s) && s@ == t,
            ResponseOutcome::Refused(t) => r matches Err(TranslatorError::Refused(x)) && x@ == t,
            ResponseOutcome::NotJson(t) => r matches Err(TranslatorError::NotJson(x)) && x@ == t,
            ResponseOutcome::MissingOutput => r == Err::<String, TranslatorError>(
                TranslatorError::MissingOutput,
            ),
            ResponseOutcome::Missing => r == Err::<String, TranslatorError>(
                TranslatorError::MissingTranslatedText,
            ),
        },
{
    match body.get("output_text") {
        Some(v) => match v.as_str() {
            Some(text) => match translated_text_from_json(text) {
                Ok(Some(t)) => {
                    return Ok(t);
                },
                Ok(None) => {},
                Err(e) => {
                    return Err(e);
                },
            },
            None => {},
        },
        None => {},
    }
    let items = match body.get("output") {
        Some(out) => match out.as_array() {
            Some(items) => items,
            None => {
                return Err(TranslatorError::MissingOutput);
            },
        },
        None => {
            return Err(TranslatorError::MissingOutput);
        },
    };
    let mut i: usize = 0;
    assert(items@.skip(0) =~= items@);
    while i < items.len()
        invariant
            i <= items@.len(),
            json_get(*body, "output"@) matches Some(out) && json_array(out) == Some(items@),
            response_outcome(*body) == match scan_items(items@.skip(i as int)) {
                Some(o) => o,
                None => ResponseOutcome::Missing,
            },
        decreases items.len() - i,
    {
        assert(items@.skip(i as int).drop_first() =~= items@.skip(i + 1));
        assert(items@.skip(i as int)[0] == items@[i as int]);
        let item = &items[i];
        match item.get("content") {
            Some(c) => match c.as_array() {
                Some(parts) => {
                    let found = scan_content_parts(parts);
                    match found {
                        Some(result) => {
                            return result;
                        },
                        None => {},
                    }
                },
                None => {},
            },
            None => {},
        }
        i = i + 1;
    }
    Err(TranslatorError::MissingTranslatedText)
}

fn scan_content_parts(parts: &Vec<Json>) -> (r: Option<Result<String, TranslatorError>>)
    ensures
        match scan_parts(parts@) {
            None => r is None,
            Some(ResponseOutcome::Found(t)) => r matches Some(Ok(s)) && s@ == t,
            Some(ResponseOutcome::Refused(t)) => r matches Some(Err(TranslatorError::Refused(x)))
                && x@ == t,
            Some(ResponseOutcome::NotJson(t)) => r matches Some(Err(TranslatorError::NotJson(x)))
                && x@ == t,
            Some(_) => false,
        },
{
    let mut j: usize = 0;
    assert(parts@.skip(0) =~= parts@);
    while j < parts.len()
        invariant
            j <= parts@.len(),
            scan_parts(parts@) == scan_parts(parts@.skip(j as int)),
        decreases parts.len() - j,
    {
        assert(parts@.skip(j as int).drop_first() =~= parts@.skip(j + 1));
        assert(parts@.skip(j as int)[0] == parts@[j as int]);
        let part = &parts[j];
        match part.get("refusal") {
            Some(rv) => match rv.as_str() {
                Some(refusal) => {
                    return Some(Err(TranslatorError::Refused(owned(refusal))));
                },
                None => {},
            },
            None => {},
        }
        match part.get("text") {
            Some(tv) => match tv.as_str() {
                Some(text) => match translated_text_from_json(text) {
                    Ok(Some(t)) => {
                        return Some(Ok(t));
                    },
                    Ok(None) => {},
                    Err(e) => {
                        return Some(Err(e));
                    },
                },
                None => {},
            },
            None => {},
        }
        j = j + 1;
    }
    assert(parts@.skip(parts@.len() as int) =~= seq![]);
    None
}

} // verus!
