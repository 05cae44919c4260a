use oh_my_limit::json::Json;
use oh_my_limit::prompts::{system_prompt, user_prompt, INPUT_TRANSLATION_SYSTEM_PROMPT};
use oh_my_limit::providers::{
    translated_text_from_json, translated_text_from_response, NoopTranslator, OllamaTranslator,
    RemoteOpenAiCompatibleTranslator,
};
use oh_my_limit::translator::{
    build_translator, TranslationDirection, TranslationProviderKind, TranslationRequest,
    TranslatorBackend, TranslatorConfig, TranslatorError,
};
use oh_my_limit::validate::validate_non_empty_translation;
use std::str::FromStr;
use std::time::Duration;

fn config(provider: TranslationProviderKind) -> TranslatorConfig {
    TranslatorConfig {
        provider,
        model: None,
        base_url: None,
        api_key: None,
        timeout: Duration::from_millis(30_000),
    }
}

fn obj(entries: Vec<(&str, Json)>) -> Json {
    Json::Object(entries.into_iter().map(|(k, v)| (k.to_owned(), v)).collect())
}

fn s(text: &str) -> Json {
    Json::String(text.to_owned())
}

#[test]
fn provider_names_round_trip() {
    for kind in [
        TranslationProviderKind::Noop,
        TranslationProviderKind::Ollama,
        TranslationProviderKind::LocalOpenAiCompatible,
        TranslationProviderKind::OpenAi,
    ] {
        assert_eq!(TranslationProviderKind::from_name(kind.as_str()), Ok(kind));
    }
}

#[test]
fn provider_aliases_are_accepted() {
    assert_eq!(
        TranslationProviderKind::from_name("  OFF "),
        Ok(TranslationProviderKind::Noop)
    );
    assert_eq!(
        TranslationProviderKind::from_name("local"),
        Ok(TranslationProviderKind::LocalOpenAiCompatible)
    );
    assert_eq!(
        TranslationProviderKind::from_str("Remote_OpenAI_Compatible"),
        Ok(TranslationProviderKind::OpenAi)
    );
}

#[test]
fn unknown_provider_is_refused_with_its_normalized_name() {
    let error = TranslationProviderKind::from_name(" DeepL ").unwrap_err();
    assert_eq!(error, TranslatorError::UnknownProvider("deepl".to_owned()));
    assert_eq!(error.message(), "unknown translation provider: deepl");
}

#[test]
fn only_openai_is_remote() {
    assert!(TranslationProviderKind::OpenAi.is_remote());
    assert!(!TranslationProviderKind::Ollama.is_remote());
    assert!(!TranslationProviderKind::LocalOpenAiCompatible.is_remote());
    assert!(!TranslationProviderKind::Noop.is_remote());
}

#[test]
fn build_translator_picks_the_configured_provider() {
    assert!(matches!(
        build_translator(config(TranslationProviderKind::Noop)),
        TranslatorBackend::Noop(_)
    ));
    assert!(matches!(
        build_translator(config(TranslationProviderKind::Ollama)),
        TranslatorBackend::Ollama(_)
    ));
    assert!(matches!(
        build_translator(config(TranslationProviderKind::OpenAi)),
        TranslatorBackend::OpenAi(_)
    ));
}

#[test]
fn empty_translation_is_refused() {
    assert_eq!(
        validate_non_empty_translation(" \n\t"),
        Err(TranslatorError::EmptyTranslation)
    );
    assert_eq!(validate_non_empty_translation(""), Err(TranslatorError::EmptyTranslation));
    assert_eq!(validate_non_empty_translation(" ok "), Ok(()));
}

#[test]
fn prompts_carry_the_text() {
    assert_eq!(
        system_prompt(TranslationDirection::KoreanToEnglish),
        INPUT_TRANSLATION_SYSTEM_PROMPT
    );
    assert_eq!(
        user_prompt(TranslationDirection::EnglishToKorean, "done"),
        "Translate the following coding-agent final answer into Korean.\n\nInput:\ndone"
    );
}

#[test]
fn noop_translator_returns_the_text() {
    let translator = NoopTranslator::new();
    let response = translator.translate(TranslationRequest {
        direction: TranslationDirection::KoreanToEnglish,
        text: "안녕".to_owned(),
    });
    assert_eq!(response.text, "안녕");
    assert_eq!(response.provider, TranslationProviderKind::Noop);
    assert_eq!(translator.health_check().message, "translation disabled");
}

#[test]
fn ollama_urls_drop_trailing_slashes() {
    let mut c = config(TranslationProviderKind::Ollama);
    c.base_url = Some("http://host:1234//".to_owned());
    let translator = OllamaTranslator::new(c);
    assert_eq!(translator.chat_url(), "http://host:1234/api/chat");
    assert_eq!(translator.model(), "qwen2.5-coder:7b");
}

#[test]
fn ollama_reply_is_read_and_checked() {
    let translator = OllamaTranslator::new(config(TranslationProviderKind::Ollama));
    let body = obj(vec![("message", obj(vec![("content", s("hello"))]))]);
    let response = translator.read_reply(&body).unwrap();
    assert_eq!(response.text, "hello");
    let empty = obj(vec![("message", obj(vec![("content", s("  "))]))]);
    assert_eq!(translator.read_reply(&empty), Err(TranslatorError::EmptyTranslation));
}

#[test]
fn openai_requires_a_key() {
    let translator = RemoteOpenAiCompatibleTranslator::new(config(TranslationProviderKind::OpenAi));
    assert_eq!(translator.api_key(), Err(TranslatorError::MissingApiKey));
}

#[test]
fn structured_translation_is_extracted() {
    assert_eq!(
        translated_text_from_json(r#"{"translated_text":"Fix the bug"}"#),
        Ok(Some("Fix the bug".to_owned()))
    );
    assert_eq!(translated_text_from_json(r#"{"other":1}"#), Ok(None));
    let error = translated_text_from_json("not json").unwrap_err();
    assert_eq!(error, TranslatorError::NotJson("not json".to_owned()));
    assert_eq!(
        error.message(),
        "OpenAI structured translation response was not JSON: not json"
    );
}

#[test]
fn response_output_text_wins() {
    let body = obj(vec![("output_text", s(r#"{"translated_text":"A"}"#))]);
    assert_eq!(translated_text_from_response(&body), Ok("A".to_owned()));
}

#[test]
fn response_refusal_and_missing_output() {
    let refused = obj(vec![(
        "output",
        Json::Array(vec![obj(vec![(
            "content",
            Json::Array(vec![obj(vec![("refusal", s("no"))])]),
        )])]),
    )]);
    assert_eq!(
        translated_text_from_response(&refused),
        Err(TranslatorError::Refused("no".to_owned()))
    );
    assert_eq!(
        translated_text_from_response(&obj(vec![])),
        Err(TranslatorError::MissingOutput)
    );
    let nothing = obj(vec![("output", Json::Array(vec![]))]);
    assert_eq!(
        translated_text_from_response(&nothing),
        Err(TranslatorError::MissingTranslatedText)
    );
}

#[test]
fn openai_reply_text_is_kept_as_given() {
    let translator = RemoteOpenAiCompatibleTranslator::new(config(TranslationProviderKind::OpenAi));
    let body = obj(vec![("output_text", s(r#"{"translated_text":"  Fix it \n"}"#))]);
    let response = translator.read_reply(&body).unwrap();
    assert_eq!(response.text, "  Fix it \n");
    assert_eq!(response.provider, TranslationProviderKind::OpenAi);
    let blank = obj(vec![("output_text", s(r#"{"translated_text":"   "}"#))]);
    assert_eq!(translator.read_reply(&blank), Err(TranslatorError::EmptyTranslation));
}

#[test]
fn built_translators_answer_for_their_provider() {
    for kind in [
        TranslationProviderKind::Noop,
        TranslationProviderKind::Ollama,
        TranslationProviderKind::LocalOpenAiCompatible,
        TranslationProviderKind::OpenAi,
    ] {
        let backend = build_translator(config(kind));
        assert_eq!(backend.provider(), kind);
        assert_eq!(backend.health().provider, kind);
    }
    let request = TranslationRequest { direction: TranslationDirection::KoreanToEnglish, text: "안녕".to_owned() };
    let noop = build_translator(config(TranslationProviderKind::Noop));
    let answer = noop.answer(request.clone(), &Json::Null).unwrap();
    assert_eq!(answer.text, "안녕");
    assert_eq!(answer.provider, TranslationProviderKind::Noop);
    let ollama = build_translator(config(TranslationProviderKind::Ollama));
    let body = obj(vec![("message", obj(vec![("content", s(" hello "))]))]);
    let answer = ollama.answer(request, &body).unwrap();
    assert_eq!(answer.text, "hello");
    assert_eq!(answer.provider, TranslationProviderKind::Ollama);
}

#[test]
fn openai_request_asks_for_translated_text() {
    let translator = RemoteOpenAiCompatibleTranslator::new(config(TranslationProviderKind::OpenAi));
    let request = TranslationRequest { direction: TranslationDirection::KoreanToEnglish, text: "x".to_owned() };
    let body = translator.request_body(&request);
    let schema = body.get("text").and_then(|t| t.get("format")).and_then(|f| f.get("schema")).unwrap();
    assert_eq!(schema.get("type").and_then(|t| t.as_str()), Some("object"));
    assert_eq!(schema.get("additionalProperties"), Some(&Json::Bool(false)));
    assert_eq!(schema.get("required"), Some(&Json::Array(vec![s("translated_text")])));
    let field = schema.get("properties").and_then(|p| p.get("translated_text")).unwrap();
    assert_eq!(field.get("type").and_then(|t| t.as_str()), Some("string"));
}
