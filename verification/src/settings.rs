//! Translator settings: the `/translator` command, the picker's choices,
//! and the translator a configuration and the known secrets give.

use crate::config::{PrivacyConfig, TranslationConfig};
use crate::env_file::EnvValues;
use crate::text::{chars_of, clone_opt, opt_chars, opt_str_chars, owned, push_str, str_eq, trim, trim_str};
use crate::translator::{
    error_message_spec, provider_kind_from_name, provider_kind_name, TranslationProviderKind,
    TranslatorConfig,
};
use crate::translator_picker::{TranslatorPickerAction, TranslatorProviderSelection};
use std::time::Duration;
use vstd::prelude::*;

verus! {

/// The OpenAI model used when none is set.
pub const DEFAULT_OPENAI_MODEL: &'static str = "gpt-5.4-mini";

/// The OpenAI address used when none is set.
pub const DEFAULT_OPENAI_BASE_URL: &'static str = "https://api.openai.com/v1";

/// The variable that holds the OpenAI key.
pub const OPENAI_API_KEY_ENV: &'static str = "OPENAI_API_KEY";

/// The usage line of `/translator`.
pub const TRANSLATOR_USAGE: &'static str = "Usage: /translator on, /translator off, /translator provider <noop|ollama|local-openai-compatible|openai>, /translator model <name>, /translator base-url <url|default>, /translator api-key-env <ENV>, /translator remote <on|off>, /translator test";

/// A timeout of `ms` milliseconds.
pub uninterp spec fn millis_duration(ms: u64) -> Duration;

/// `Duration::from_millis`: the timeout of `ms` milliseconds.  The value is
/// opaque to the library; it is named by the milliseconds it is made of.
#[verifier::external_body]
fn duration_from_millis(ms: u64) -> (d: Duration)
    ensures
        d == millis_duration(ms),
{
    Duration::from_millis(ms)
}

/// An optional text, else `default`.
pub open spec fn or_text(o: Option<Seq<char>>, default: Seq<char>) -> Option<Seq<char>> {
    match o {
        Some(v) => Some(v),
        None => Some(default),
    }
}

/// An optional string, else `default`.
fn or_owned(o: &Option<String>, default: &str) -> (r: Option<String>)
    ensures
        opt_chars(r) == or_text(opt_chars(*o), default@),
{
    match o {
        Some(v) => Some(v.clone()),
        None => Some(owned(default)),
    }
}

/// Everything but the OpenAI fields is unchanged.
pub open spec fn same_except_openai(a: TranslationConfig, b: TranslationConfig) -> bool {
    &&& a.provider == b.provider
    &&& a.input_language == b.input_language
    &&& a.output_language == b.output_language
    &&& a.fail_closed == b.fail_closed
    &&& a.timeout_ms == b.timeout_ms
    &&& a.enabled == b.enabled
}

/// Fills the OpenAI model, address and key variable where they are unset.
pub fn fill_openai_defaults(t: &mut TranslationConfig)
    ensures
        opt_chars(final(t).model) == or_text(opt_chars(old(t).model), DEFAULT_OPENAI_MODEL@),
        opt_chars(final(t).base_url) == or_text(
            opt_chars(old(t).base_url),
            DEFAULT_OPENAI_BASE_URL@,
        ),
        opt_chars(final(t).api_key_env) == or_text(
            opt_chars(old(t).api_key_env),
            OPENAI_API_KEY_ENV@,
        ),
        same_except_openai(*final(t), *old(t)),
{
    t.model = or_owned(&t.model, DEFAULT_OPENAI_MODEL);
    t.base_url = or_owned(&t.base_url, DEFAULT_OPENAI_BASE_URL);
    t.api_key_env = or_owned(&t.api_key_env, OPENAI_API_KEY_ENV);
}

/// `/translator provider <name>`: sets the provider (enabled unless it is
/// `noop`, with the OpenAI defaults filled for OpenAI); an unknown name is
/// refused with the provider error's text.
pub fn set_translator_provider(t: &mut TranslationConfig, value: &str) -> (r: Result<String, String>)
    ensures
        match provider_kind_from_name(value@) {
            None => {
                &&& r matches Err(e) && e@ == "unknown translation provider: "@ + crate::text::ascii_lower(trim(value@))
                &&& *final(t) == *old(t)
            },
            Some(kind) => {
                &&& r matches Ok(m) && m@ == "Translator provider set to "@ + provider_kind_name(kind) + "."@
                &&& final(t).provider@ == provider_kind_name(kind)
                &&& final(t).enabled == (kind != TranslationProviderKind::Noop)
                &&& kind == TranslationProviderKind::OpenAi ==> {
                    &&& opt_chars(final(t).model) == or_text(opt_chars(old(t).model), DEFAULT_OPENAI_MODEL@)
                    &&& opt_chars(final(t).base_url) == or_text(opt_chars(old(t).base_url), DEFAULT_OPENAI_BASE_URL@)
                    &&& opt_chars(final(t).api_key_env) == or_text(opt_chars(old(t).api_key_env), OPENAI_API_KEY_ENV@)
                }
                &&& kind != TranslationProviderKind::OpenAi ==> (final(t).model == old(t).model
                    && final(t).base_url == old(t).base_url && final(t).api_key_env == old(t).api_key_env)
                &&& final(t).fail_closed == old(t).fail_closed
                &&& final(t).timeout_ms == old(t).timeout_ms
            },
        },
{
    let kind = match TranslationProviderKind::from_name(value) {
        Ok(kind) => kind,
        Err(e) => {
            let m = e.message();
            return Err(m);
        },
    };
    t.provider = owned(kind.as_str());
    t.enabled = match kind {
        TranslationProviderKind::Noop => false,
        _ => true,
    };
    match kind {
        TranslationProviderKind::OpenAi => fill_openai_defaults(t),
        _ => {},
    }
    let mut m = owned("Translator provider set to ");
    push_str(&mut m, t.provider.as_str());
    push_str(&mut m, ".");
    Ok(m)
}

/// `/translator off` (and enabling): records the switch and says so.
pub fn set_translation_enabled(t: &mut TranslationConfig, enabled: bool) -> (m: String)
    ensures
        final(t).enabled == enabled,
        final(t).provider == old(t).provider,
        final(t).model == old(t).model,
        final(t).base_url == old(t).base_url,
        final(t).api_key_env == old(t).api_key_env,
        m@ == (if enabled {
            "Prompt translation enabled."@
        } else {
            "Prompt translation disabled."@
        }),
{
    t.enabled = enabled;
    if enabled {
        owned("Prompt translation enabled.")
    } else {
        owned("Prompt translation disabled.")
    }
}

/// `/translator model|base-url|api-key-env <value>`: sets the value, or
/// clears it for `default`; an empty value gets the usage line, an unknown
/// key is refused.
pub fn set_optional_translation_value(t: &mut TranslationConfig, key: &str, value: &str) -> (r:
    Result<String, String>)
    ensures
        value@.len() == 0 ==> (r matches Err(e) && e@ == "Usage: /translator "@ + key@
            + " <value|default>"@) && *final(t) == *old(t),
        value@.len() > 0 && !(key@ == "model"@ || key@ == "base-url"@ || key@ == "api-key-env"@)
            ==> (r matches Err(e) && e@ == "Unknown translator setting: "@ + key@) && *final(t)
            == *old(t),
        value@.len() > 0 && (key@ == "model"@ || key@ == "base-url"@ || key@ == "api-key-env"@)
            ==> {
            let v = if value@ == "default"@ {
                None
            } else {
                Some(value@)
            };
            &&& r matches Ok(m) && m@ == "Translator "@ + key@ + " updated."@
            &&& key@ == "model"@ ==> opt_chars(final(t).model) == v
            &&& key@ == "base-url"@ ==> opt_chars(final(t).base_url) == v
            &&& key@ == "api-key-env"@ ==> opt_chars(final(t).api_key_env) == v
            &&& key@ != "model"@ ==> final(t).model == old(t).model
            &&& key@ != "base-url"@ ==> final(t).base_url == old(t).base_url
            &&& key@ != "api-key-env"@ ==> final(t).api_key_env == old(t).api_key_env
            &&& final(t).provider == old(t).provider
            &&& final(t).enabled == old(t).enabled
            &&& same_language_and_limits(*final(t), *old(t))
        },
{
    if value.unicode_len() == 0 {
        let mut e = owned("Usage: /translator ");
        push_str(&mut e, key);
        push_str(&mut e, " <value|default>");
        return Err(e);
    }
    let normalized = if str_eq(value, "default") {
        None
    } else {
        Some(owned(value))
    };
    if str_eq(key, "model") {
        t.model = normalized;
    } else if str_eq(key, "base-url") {
        t.base_url = normalized;
    } else if str_eq(key, "api-key-env") {
        t.api_key_env = normalized;
    } else {
        let mut e = owned("Unknown translator setting: ");
        push_str(&mut e, key);
        return Err(e);
    }
    proof {
        reveal_strlit("model");
        reveal_strlit("base-url");
        reveal_strlit("api-key-env");
    }
    let mut m = owned("Translator ");
    push_str(&mut m, key);
    push_str(&mut m, " updated.");
    Ok(m)
}

/// `/translator remote <on|off>`: `on`, `true`, `yes` allow remote
/// translation, `off`, `false`, `no` forbid it; anything else gets the
/// usage line.
pub fn set_remote_translation(p: &mut PrivacyConfig, value: &str) -> (r: Result<String, String>)
    ensures
        (value@ == "on"@ || value@ == "true"@ || value@ == "yes"@) ==> (r matches Ok(m) && m@
            == "Remote translation enabled."@) && final(p).remote_translation_allowed
            && final(p).save_prompts == old(p).save_prompts && final(p).redact_secrets
            == old(p).redact_secrets,
        (value@ == "off"@ || value@ == "false"@ || value@ == "no"@) ==> (r matches Ok(m) && m@
            == "Remote translation disabled."@) && !final(p).remote_translation_allowed
            && final(p).save_prompts == old(p).save_prompts && final(p).redact_secrets
            == old(p).redact_secrets,
        !(value@ == "on"@ || value@ == "true"@ || value@ == "yes"@ || value@ == "off"@ || value@
            == "false"@ || value@ == "no"@) ==> (r matches Err(e) && e@
            == "Usage: /translator remote <on|off>"@) && *final(p) == *old(p),
{
    proof {
        reveal_strlit("on");
        reveal_strlit("true");
        reveal_strlit("yes");
        reveal_strlit("off");
        reveal_strlit("false");
        reveal_strlit("no");
        assert("on"@.len() == 2 && "on"@[0] == 'o');
        assert("true"@.len() == 4);
        assert("yes"@.len() == 3 && "yes"@[0] == 'y');
        assert("off"@.len() == 3 && "off"@[0] == 'o');
        assert("false"@.len() == 5);
        assert("no"@.len() == 2 && "no"@[0] == 'n');
    }
    let enabled = if str_eq(value, "on") || str_eq(value, "true") || str_eq(value, "yes") {
        true
    } else if str_eq(value, "off") || str_eq(value, "false") || str_eq(value, "no") {
        false
    } else {
        return Err(owned("Usage: /translator remote <on|off>"));
    };
    p.remote_translation_allowed = enabled;
    if enabled {
        Ok(owned("Remote translation enabled."))
    } else {
        Ok(owned("Remote translation disabled."))
    }
}

/// Whether an OpenAI key is at hand: one entered in this session, or one
/// stored under the configured variable in the env file.
pub open spec fn has_key_spec(
    session_key: Option<Seq<char>>,
    api_key_env: Option<Seq<char>>,
    env: Map<Seq<char>, Seq<char>>,
) -> bool {
    session_key is Some || (api_key_env matches Some(n) && env.contains_key(n))
}

/// Whether an OpenAI key is at hand.
pub fn has_openai_api_key(session_key: &Option<String>, api_key_env: &Option<String>, env_values: &EnvValues) -> (b: bool)
    ensures
        b == has_key_spec(opt_chars(*session_key), opt_chars(*api_key_env), env_values.view()),
{
    if session_key.is_some() {
        return true;
    }
    match api_key_env {
        Some(name) => env_values.contains_key(name.as_str()),
        None => false,
    }
}

/// The key the translator gets, or why there is none to give: for OpenAI,
/// the session key, else the configured variable from the env file, else
/// from the process environment, else an error; for other providers, the
/// configured variable's value if it is known anywhere.
pub open spec fn api_key_spec(
    kind: TranslationProviderKind,
    session_key: Option<Seq<char>>,
    api_key_env: Option<Seq<char>>,
    env: Map<Seq<char>, Seq<char>>,
    process_env: Option<Seq<char>>,
) -> Result<Option<Seq<char>>, Seq<char>> {
    if kind == TranslationProviderKind::OpenAi {
        match session_key {
            Some(k) => Ok(Some(k)),
            None => match api_key_env {
                Some(n) => if env.contains_key(n) {
                    Ok(Some(env[n]))
                } else {
                    match process_env {
                        Some(v) => Ok(Some(v)),
                        None => Err("environment variable "@ + n + " is not set"@),
                    }
                },
                None => Err("OpenAI provider requires an API key from /translator or api-key-env"@),
            },
        }
    } else {
        match api_key_env {
            Some(n) => if env.contains_key(n) {
                Ok(Some(env[n]))
            } else {
                Ok(process_env)
            },
            None => Ok(None),
        }
    }
}

/// Where the key comes from: a key held for the session wins for OpenAI;
/// otherwise a value saved in the env file under the configured variable
/// wins over the process environment, whatever the latter holds; the
/// process environment is used only when the env file lacks the variable.
pub proof fn lemma_key_source_order(
    kind: TranslationProviderKind,
    session_key: Option<Seq<char>>,
    name: Seq<char>,
    env: Map<Seq<char>, Seq<char>>,
    process_env: Option<Seq<char>>,
    other_process_env: Option<Seq<char>>,
)
    ensures
        session_key matches Some(k) ==> (kind == TranslationProviderKind::OpenAi ==> api_key_spec(
            kind,
            session_key,
            Some(name),
            env,
            process_env,
        ) == Ok::<Option<Seq<char>>, Seq<char>>(Some(k))),
        (kind != TranslationProviderKind::OpenAi || session_key is None) && env.contains_key(name)
            ==> api_key_spec(kind, session_key, Some(name), env, process_env) == Ok::<
            Option<Seq<char>>,
            Seq<char>,
        >(Some(env[name])) && api_key_spec(kind, session_key, Some(name), env, process_env)
            == api_key_spec(kind, session_key, Some(name), env, other_process_env),
        process_env matches Some(v) ==> ((kind != TranslationProviderKind::OpenAi
            || session_key is None) && !env.contains_key(name) ==> api_key_spec(
            kind,
            session_key,
            Some(name),
            env,
            process_env,
        ) == Ok::<Option<Seq<char>>, Seq<char>>(Some(v))),
{
}

/// The translator the settings describe.  `process_env` is the value of
/// the configured key variable in the process environment, read by the
/// caller.  Refused: an unknown provider, a remote provider while remote
/// translation is off, and OpenAI without a key.
pub fn translator_config(
    t: &TranslationConfig,
    p: &PrivacyConfig,
    session_key: &Option<String>,
    env_values: &EnvValues,
    process_env: Option<&str>,
) -> (r: Result<TranslatorConfig, String>)
    ensures
        match provider_kind_from_name(t.provider@) {
            None => r matches Err(e) && e@ == "unknown translation provider: "@
                + crate::text::ascii_lower(trim(t.provider@)),
            Some(kind) => if kind == TranslationProviderKind::OpenAi
                && !p.remote_translation_allowed {
                r matches Err(e) && e@
                    == "remote translation is disabled; run /translator remote on first"@
            } else {
                match api_key_spec(
                    kind,
                    opt_chars(*session_key),
                    opt_chars(t.api_key_env),
                    env_values.view(),
                    opt_str_chars(process_env),
                ) {
                    Err(m) => r matches Err(e) && e@ == m,
                    Ok(key) => r matches Ok(c) && c.provider == kind && opt_chars(c.model)
                        == opt_chars(t.model) && opt_chars(c.base_url) == opt_chars(t.base_url)
                        && opt_chars(c.api_key) == key && c.timeout == millis_duration(
                        t.timeout_ms,
                    ),
                }
            },
        },
{
    let kind = match TranslationProviderKind::from_name(t.provider.as_str()) {
        Ok(kind) => kind,
        Err(e) => return Err(e.message()),
    };
    let remote = match kind {
        TranslationProviderKind::OpenAi => true,
        _ => false,
    };
    if remote && !p.remote_translation_allowed {
        return Err(owned("remote translation is disabled; run /translator remote on first"));
    }
    let api_key: Option<String> = if remote {
        match session_key {
            Some(k) => Some(k.clone()),
            None => match &t.api_key_env {
                Some(name) => match env_values.get(name.as_str()) {
                    Some(v) => Some(v),
                    None => match process_env {
                        Some(v) => Some(owned(v)),
                        None => {
                            let mut e = owned("environment variable ");
                            push_str(&mut e, name.as_str());
                            push_str(&mut e, " is not set");
                            return Err(e);
                        },
                    },
                },
                None => {
                    return Err(
                        owned("OpenAI provider requires an API key from /translator or api-key-env"),
                    );
                },
            },
        }
    } else {
        match &t.api_key_env {
            Some(name) => match env_values.get(name.as_str()) {
                Some(v) => Some(v),
                None => match process_env {
                    Some(v) => Some(owned(v)),
                    None => None,
                },
            },
            None => None,
        }
    };
    Ok(
        TranslatorConfig {
            provider: kind,
            model: clone_opt(&t.model),
            base_url: clone_opt(&t.base_url),
            api_key,
            timeout: duration_from_millis(t.timeout_ms),
        },
    )
}

/// What the application does after a picker choice.
#[derive(Debug, PartialEq, Eq)]
pub enum SelectionStep {
    /// The key did not look like an OpenAI key: the picker stays open.
    KeyLooksIncomplete,
    /// The key is to be tested against this model and address before it
    /// is kept (`apply_tested_key`).
    TestKey { api_key: String, model: Option<String>, base_url: Option<String> },
    /// The settings changed and are to be saved.
    Save,
}

/// The languages, the failure mode and the timeout are unchanged.
pub open spec fn same_language_and_limits(a: TranslationConfig, b: TranslationConfig) -> bool {
    &&& a.input_language == b.input_language
    &&& a.output_language == b.output_language
    &&& a.fail_closed == b.fail_closed
    &&& a.timeout_ms == b.timeout_ms
}

/// OpenAI chosen with a stored key: translation on with OpenAI, remote
/// translation allowed, the OpenAI model, address and key variable filled
/// where unset; the rest unchanged.
pub open spec fn openai_selected(
    old_t: TranslationConfig,
    t: TranslationConfig,
    old_p: PrivacyConfig,
    p: PrivacyConfig,
) -> bool {
    &&& t.enabled
    &&& t.provider@ == "openai"@
    &&& p.remote_translation_allowed
    &&& p.save_prompts == old_p.save_prompts
    &&& p.redact_secrets == old_p.redact_secrets
    &&& opt_chars(t.model) == or_text(opt_chars(old_t.model), DEFAULT_OPENAI_MODEL@)
    &&& opt_chars(t.base_url) == or_text(opt_chars(old_t.base_url), DEFAULT_OPENAI_BASE_URL@)
    &&& opt_chars(t.api_key_env) == or_text(opt_chars(old_t.api_key_env), OPENAI_API_KEY_ENV@)
    &&& same_language_and_limits(t, old_t)
}

/// A local provider (or "off") chosen: "off" only turns translation off;
/// a local provider turns it on with that provider, forbids remote
/// translation and forgets the key and its variable.  The model and
/// address stay.
pub open spec fn local_selected(
    selection: TranslatorProviderSelection,
    old_t: TranslationConfig,
    t: TranslationConfig,
    old_p: PrivacyConfig,
    p: PrivacyConfig,
    old_key: Option<Seq<char>>,
    key: Option<Seq<char>>,
) -> bool {
    &&& selection == TranslatorProviderSelection::Noop ==> {
        &&& !t.enabled
        &&& t.provider == old_t.provider
        &&& t.api_key_env == old_t.api_key_env
        &&& p == old_p
        &&& key == old_key
    }
    &&& selection != TranslatorProviderSelection::Noop ==> {
        &&& t.enabled
        &&& t.provider@ == (if selection == TranslatorProviderSelection::Ollama {
            "ollama"@
        } else {
            "local-openai-compatible"@
        })
        &&& !p.remote_translation_allowed
        &&& t.api_key_env is None
        &&& key is None
        &&& p.save_prompts == old_p.save_prompts
        &&& p.redact_secrets == old_p.redact_secrets
    }
    &&& t.model == old_t.model
    &&& t.base_url == old_t.base_url
    &&& same_language_and_limits(t, old_t)
}

/// The status while the picker waits for a complete key.
pub const KEY_INCOMPLETE_STATUS: &'static str = "OpenAI API key looks incomplete. Paste the full key and press Enter.";

/// Applies a picker choice to the settings: a local provider or "off",
/// OpenAI with a stored key, or a key to test first (nothing changes
/// until it passed), or nothing for a key that looks incomplete.
pub fn apply_picker_action(
    t: &mut TranslationConfig,
    p: &mut PrivacyConfig,
    session_key: &mut Option<String>,
    action: TranslatorPickerAction,
) -> (r: SelectionStep)
    ensures
        match action {
            TranslatorPickerAction::InvalidOpenAiApiKey => r == SelectionStep::KeyLooksIncomplete
                && *final(t) == *old(t) && *final(p) == *old(p) && *final(session_key) == *old(
                session_key,
            ),
            TranslatorPickerAction::TestOpenAi { api_key } => ({
                &&& r matches SelectionStep::TestKey { api_key: k, model, base_url } && k == api_key
                    && opt_chars(model) == or_text(opt_chars(old(t).model), DEFAULT_OPENAI_MODEL@)
                    && opt_chars(base_url) == or_text(
                    opt_chars(old(t).base_url),
                    DEFAULT_OPENAI_BASE_URL@,
                )
                &&& *final(t) == *old(t)
                &&& *final(p) == *old(p)
                &&& *final(session_key) == *old(session_key)
            }),
            TranslatorPickerAction::SelectedOpenAi => r == SelectionStep::Save && openai_selected(
                *old(t),
                *final(t),
                *old(p),
                *final(p),
            ) && *final(session_key) == *old(session_key),
            TranslatorPickerAction::SelectedLocal(sel) => r == SelectionStep::Save && local_selected(
                sel,
                *old(t),
                *final(t),
                *old(p),
                *final(p),
                opt_chars(*old(session_key)),
                opt_chars(*final(session_key)),
            ),
        },
{
    match action {
        TranslatorPickerAction::InvalidOpenAiApiKey => SelectionStep::KeyLooksIncomplete,
        TranslatorPickerAction::TestOpenAi { api_key } => {
            let (model, base_url) = openai_test_target(t);
            SelectionStep::TestKey { api_key, model, base_url }
        },
        TranslatorPickerAction::SelectedOpenAi => {
            apply_openai_selection(t, p);
            SelectionStep::Save
        },
        TranslatorPickerAction::SelectedLocal(selection) => {
            apply_local_selection(t, p, session_key, selection);
            SelectionStep::Save
        },
    }
}

/// Applies a local provider (or "off") chosen in the picker.
pub fn apply_local_selection(
    t: &mut TranslationConfig,
    p: &mut PrivacyConfig,
    session_key: &mut Option<String>,
    selection: TranslatorProviderSelection,
)
    ensures
        local_selected(
            selection,
            *old(t),
            *final(t),
            *old(p),
            *final(p),
            opt_chars(*old(session_key)),
            opt_chars(*final(session_key)),
        ),
{
    match selection {
        TranslatorProviderSelection::Noop => {
            t.enabled = false;
        },
        TranslatorProviderSelection::Ollama => {
            t.enabled = true;
            t.provider = owned(TranslationProviderKind::Ollama.as_str());
            p.remote_translation_allowed = false;
            t.api_key_env = None;
            *session_key = None;
        },
        TranslatorProviderSelection::LocalOpenAiCompatible => {
            t.enabled = true;
            t.provider = owned(TranslationProviderKind::LocalOpenAiCompatible.as_str());
            p.remote_translation_allowed = false;
            t.api_key_env = None;
            *session_key = None;
        },
    }
}

/// Applies OpenAI chosen in the picker with a key already stored.
pub fn apply_openai_selection(t: &mut TranslationConfig, p: &mut PrivacyConfig)
    ensures
        openai_selected(*old(t), *final(t), *old(p), *final(p)),
{
    t.enabled = true;
    t.provider = owned(TranslationProviderKind::OpenAi.as_str());
    p.remote_translation_allowed = true;
    fill_openai_defaults(t);
}

/// The model and address a key is tested with: the configured ones, else
/// the OpenAI defaults.
pub fn openai_test_target(t: &TranslationConfig) -> (r: (Option<String>, Option<String>))
    ensures
        opt_chars(r.0) == or_text(opt_chars(t.model), DEFAULT_OPENAI_MODEL@),
        opt_chars(r.1) == or_text(opt_chars(t.base_url), DEFAULT_OPENAI_BASE_URL@),
{
    (or_owned(&t.model, DEFAULT_OPENAI_MODEL), or_owned(&t.base_url, DEFAULT_OPENAI_BASE_URL))
}

/// Keeps an OpenAI key that passed its test: OpenAI is enabled with the
/// tested model and address, and the key is held for this session (the
/// caller then stores it in the env file).
pub fn apply_tested_key(
    t: &mut TranslationConfig,
    p: &mut PrivacyConfig,
    session_key: &mut Option<String>,
    api_key: String,
    model: Option<String>,
    base_url: Option<String>,
)
    ensures
        final(t).enabled,
        final(t).provider@ == "openai"@,
        final(p).remote_translation_allowed,
        final(p).save_prompts == old(p).save_prompts,
        final(p).redact_secrets == old(p).redact_secrets,
        final(t).model == model,
        final(t).base_url == base_url,
        final(t).api_key_env is None,
        *final(session_key) == Some(api_key),
        same_language_and_limits(*final(t), *old(t)),
{
    t.provider = owned(TranslationProviderKind::OpenAi.as_str());
    t.enabled = true;
    p.remote_translation_allowed = true;
    t.model = model;
    t.base_url = base_url;
    t.api_key_env = None;
    *session_key = Some(api_key);
}

/// After a tested key was stored in the env file: the settings name the
/// variable and the session no longer holds the key.
pub fn key_stored(t: &mut TranslationConfig, session_key: &mut Option<String>)
    ensures
        opt_chars(final(t).api_key_env) == Some(OPENAI_API_KEY_ENV@),
        *final(session_key) is None,
        final(t).provider == old(t).provider,
        final(t).enabled == old(t).enabled,
        final(t).model == old(t).model,
        final(t).base_url == old(t).base_url,
        same_language_and_limits(*final(t), *old(t)),
{
    t.api_key_env = Some(owned(OPENAI_API_KEY_ENV));
    *session_key = None;
}

/// The note after the picker applied a choice.
pub fn selection_message(t: &TranslationConfig) -> (m: String)
    ensures
        m@ == (if t.enabled {
            "Prompt translation enabled with "@ + t.provider@ + "."@
        } else {
            "Prompt translation disabled."@
        }),
{
    if t.enabled {
        let mut m = owned("Prompt translation enabled with ");
        push_str(&mut m, t.provider.as_str());
        push_str(&mut m, ".");
        m
    } else {
        owned("Prompt translation disabled.")
    }
}

/// What a `/translator` command asks for.
#[derive(Debug, PartialEq, Eq)]
pub enum TranslatorCommand {
    /// `on`: open the provider list.
    On,
    /// `off`: disable translation.
    Off,
    /// `provider <name>`.
    Provider(String),
    /// `model`, `base-url` or `api-key-env` with its value.
    Setting(String, String),
    /// `remote <value>`.
    Remote(String),
    /// `test`: check the configured translator.
    Test,
    /// Anything else: show the usage line.
    Usage,
}

/// The word after `/translator ` and the rest, as `splitn(2, ' ')` cuts
/// the trimmed text.
pub open spec fn split_first_space(rest: Seq<char>) -> (Seq<char>, Seq<char>) {
    let i = crate::env_file::index_of(rest, ' ');
    if i < rest.len() {
        (rest.take(i), rest.skip(i + 1))
    } else {
        (rest, Seq::empty())
    }
}

/// What a `/translator` command line asks for: the text after the
/// command (with `/translator ` removed from its front as often as it
/// occurs) is trimmed and cut at its first space into a word and a
/// trimmed value.
pub open spec fn translator_command_spec(rest: Seq<char>) -> (Seq<char>, Seq<char>) {
    let (key, value) = split_first_space(trim(rest));
    (key, trim(value))
}

/// `command` with every leading `prefix` removed (`trim_start_matches`).
pub open spec fn strip_all_prefixes(command: Seq<char>, prefix: Seq<char>) -> Seq<char>
    decreases command.len(),
{
    if prefix.len() > 0 && prefix.is_prefix_of(command) {
        strip_all_prefixes(command.skip(prefix.len() as int), prefix)
    } else {
        command
    }
}

/// `command` with every leading `prefix` removed.
pub fn trim_start_matches(command: &str, prefix: &str) -> (r: String)
    ensures
        r@ == strip_all_prefixes(command@, prefix@),
{
    let v = chars_of(command);
    let p = chars_of(prefix);
    let mut i: usize = 0;
    assert(v@.skip(0) =~= v@);
    while p.len() > 0 && crate::text::chars_have_prefix_at(&v, i, prefix)
        invariant
            v@ == command@,
            p@ == prefix@,
            i <= v@.len(),
            strip_all_prefixes(command@, prefix@) == strip_all_prefixes(v@.skip(i as int), prefix@),
        decreases v.len() - i,
    {
        assert(v@.skip(i as int).subrange(0, p@.len() as int) =~= v@.subrange(
            i as int,
            i + p@.len(),
        ));
        assert(v@.skip(i as int).skip(p@.len() as int) =~= v@.skip(i + p@.len()));
        i = i + p.len();
    }
    proof {
        if p@.len() > 0 {
            assert(v@.skip(i as int).len() >= p@.len() ==> v@.skip(i as int).subrange(
                0,
                p@.len() as int,
            ) =~= v@.subrange(i as int, i + p@.len()));
        }
    }
    let r = crate::text::string_from_range(&v, i, v.len());
    assert(r@ =~= v@.skip(i as int));
    r
}

/// Reads a `/translator` command line.
pub fn parse_translator_command(command: &str) -> (r: TranslatorCommand)
    ensures
        ({
            let (key, value) = translator_command_spec(
                strip_all_prefixes(command@, "/translator "@),
            );
            &&& (key == "on"@ && value.len() == 0) ==> r == TranslatorCommand::On
            &&& (key == "off"@ && value.len() == 0) ==> r == TranslatorCommand::Off
            &&& key == "provider"@ ==> (r matches TranslatorCommand::Provider(v) && v@ == value)
            &&& (key == "model"@ || key == "base-url"@ || key == "api-key-env"@) ==> (
            r matches TranslatorCommand::Setting(k, v) && k@ == key && v@ == value)
            &&& key == "remote"@ ==> (r matches TranslatorCommand::Remote(v) && v@ == value)
            &&& (key == "test"@ && value.len() == 0) ==> r == TranslatorCommand::Test
            &&& !((key == "on"@ && value.len() == 0) || (key == "off"@ && value.len() == 0) || key
                == "provider"@ || key == "model"@ || key == "base-url"@ || key == "api-key-env"@
                || key == "remote"@ || (key == "test"@ && value.len() == 0)) ==> r
                == TranslatorCommand::Usage
        }),
{
    let stripped = trim_start_matches(command, "/translator ");
    let rest = trim_str(stripped.as_str());
    let v = chars_of(rest.as_str());
    let i = crate::env_file::find_char(&v, ' ');
    let key = crate::text::string_from_range(&v, 0, i);
    let raw_value = if i < v.len() {
        crate::text::string_from_range(&v, i + 1, v.len())
    } else {
        String::new()
    };
    proof {
        crate::env_file::lemma_index_of_bounds(v@, ' ');
        assert(key@ =~= split_first_space(rest@).0);
        assert(raw_value@ =~= split_first_space(rest@).1);
    }
    let value = trim_str(raw_value.as_str());
    let empty = value.as_str().unicode_len() == 0;
    let k = key.as_str();
    proof {
        reveal_strlit("on");
        reveal_strlit("off");
        reveal_strlit("provider");
        reveal_strlit("model");
        reveal_strlit("base-url");
        reveal_strlit("api-key-env");
        reveal_strlit("remote");
        reveal_strlit("test");
        assert("on"@.len() == 2 && "on"@[0] == 'o');
        assert("off"@.len() == 3 && "off"@[0] == 'o');
        assert("provider"@.len() == 8);
        assert("model"@.len() == 5 && "model"@[0] == 'm');
        assert("base-url"@.len() == 8 && "base-url"@[0] == 'b');
        assert("api-key-env"@.len() == 11);
        assert("remote"@.len() == 6);
        assert("test"@.len() == 4 && "test"@[0] == 't');
        assert("provider"@[0] == 'p');
    }
    if str_eq(k, "on") && empty {
        TranslatorCommand::On
    } else if str_eq(k, "off") && empty {
        TranslatorCommand::Off
    } else if str_eq(k, "provider") {
        TranslatorCommand::Provider(value)
    } else if str_eq(k, "model") || str_eq(k, "base-url") || str_eq(k, "api-key-env") {
        TranslatorCommand::Setting(key, value)
    } else if str_eq(k, "remote") {
        TranslatorCommand::Remote(value)
    } else if str_eq(k, "test") && empty {
        TranslatorCommand::Test
    } else {
        TranslatorCommand::Usage
    }
}

/// Why the translator cannot be set up for a known provider, if it
/// cannot: remote translation off for a remote provider, else no key for
/// OpenAI.
pub open spec fn setup_error(
    kind: TranslationProviderKind,
    t: TranslationConfig,
    p: PrivacyConfig,
    session_key: Option<Seq<char>>,
    env: Map<Seq<char>, Seq<char>>,
    process_env: Option<Seq<char>>,
) -> Option<Seq<char>> {
    if kind == TranslationProviderKind::OpenAi && !p.remote_translation_allowed {
        Some("remote translation is disabled; run /translator remote on first"@)
    } else {
        match api_key_spec(kind, session_key, opt_chars(t.api_key_env), env, process_env) {
            Err(m) => Some(m),
            Ok(_) => None,
        }
    }
}

/// How a prompt is prepared for Codex.
#[derive(Debug)]
pub enum TranslationPlan {
    /// The prompt goes as typed; a note to show when translation was
    /// skipped because of an error.
    PassThrough { provider: TranslationProviderKind, notice: Option<String> },
    /// The prompt is translated by the translator these settings build.
    Translate(TranslatorConfig),
    /// The prompt is not sent; the reason.
    Fail(String),
}

/// How a prompt is prepared for the given settings, key, stored
/// variables and process variable: an unknown provider fails; with
/// translation off (or the `noop` provider) the prompt goes as typed; a
/// translator that cannot be set up fails the prompt when the settings fail
/// closed and is skipped, with a note, otherwise; else the prompt is
/// translated by the translator the settings describe.
pub open spec fn plan_matches(
    r: TranslationPlan,
    t: TranslationConfig,
    p: PrivacyConfig,
    session_key: Option<Seq<char>>,
    env: Map<Seq<char>, Seq<char>>,
    process_env: Option<Seq<char>>,
) -> bool {
    match provider_kind_from_name(t.provider@) {
        None => r matches TranslationPlan::Fail(e) && e@ == "unknown translation provider: "@
            + crate::text::ascii_lower(trim(t.provider@)),
        Some(kind) => if !t.enabled || kind == TranslationProviderKind::Noop {
            r matches TranslationPlan::PassThrough { provider, notice } && provider == kind
                && notice is None
        } else {
            match setup_error(kind, t, p, session_key, env, process_env) {
                Some(m) => if t.fail_closed {
                    r matches TranslationPlan::Fail(e) && e@ == m
                } else {
                    r matches TranslationPlan::PassThrough { provider, notice } && provider
                        == kind && (notice matches Some(n) && n@ == "Translation skipped: "@
                        + m)
                },
                None => r matches TranslationPlan::Translate(c) && c.provider == kind && Ok::<Option<Seq<char>>, Seq<char>>(
                    opt_chars(c.api_key),
                ) == api_key_spec(
                    kind,
                    session_key,
                    opt_chars(t.api_key_env),
                    env,
                    process_env,
                ) && opt_chars(c.model) == opt_chars(t.model) && opt_chars(c.base_url)
                    == opt_chars(t.base_url) && c.timeout == millis_duration(t.timeout_ms),
            }
        },
    }
}

/// Decides how a prompt is prepared: an unknown provider fails; with
/// translation off (or the `noop` provider) the prompt goes as typed; a
/// translator that cannot be set up fails when the settings fail closed
/// and is skipped, with a note, otherwise.
pub fn plan_translation(
    t: &TranslationConfig,
    p: &PrivacyConfig,
    session_key: &Option<String>,
    env_values: &EnvValues,
    process_env: Option<&str>,
) -> (r: TranslationPlan)
    ensures
        plan_matches(
            r,
            *t,
            *p,
            opt_chars(*session_key),
            env_values.view(),
            opt_str_chars(process_env),
        ),
{
    let kind = match TranslationProviderKind::from_name(t.provider.as_str()) {
        Ok(kind) => kind,
        Err(e) => return TranslationPlan::Fail(e.message()),
    };
    let noop = match kind {
        TranslationProviderKind::Noop => true,
        _ => false,
    };
    if !t.enabled || noop {
        return TranslationPlan::PassThrough { provider: kind, notice: None };
    }
    match translator_config(t, p, session_key, env_values, process_env) {
        Ok(c) => TranslationPlan::Translate(c),
        Err(e) => if t.fail_closed {
            TranslationPlan::Fail(e)
        } else {
            let mut n = owned("Translation skipped: ");
            push_str(&mut n, e.as_str());
            TranslationPlan::PassThrough { provider: kind, notice: Some(n) }
        },
    }
}

/// Remote translation is opt-in: whatever the settings, a prompt is
/// translated only with translation switched on, and it goes to the remote
/// (OpenAI) translator only where remote translation is allowed.
pub proof fn lemma_remote_translation_needs_consent(
    r: TranslationPlan,
    t: TranslationConfig,
    p: PrivacyConfig,
    session_key: Option<Seq<char>>,
    env: Map<Seq<char>, Seq<char>>,
    process_env: Option<Seq<char>>,
)
    requires
        plan_matches(r, t, p, session_key, env, process_env),
    ensures
        r matches TranslationPlan::Translate(c) ==> t.enabled && (c.provider == TranslationProviderKind::OpenAi
            ==> p.remote_translation_allowed),
{
}

/// What becomes of a translation attempt.
#[derive(Debug)]
pub enum TranslationSettled {
    /// The text to send.
    Send(String),
    /// The prompt is sent as typed, after this note.
    Skip(String),
    /// Nothing is sent; the reason.
    Fail(String),
}

/// Settles a translation attempt: its text on success; on failure, a
/// refusal when the settings fail closed and the typed prompt (with a
/// note) otherwise.
pub fn settle_translation(outcome: Result<String, String>, fail_closed: bool) -> (r:
    TranslationSettled)
    ensures
        match outcome {
            Ok(text) => r == TranslationSettled::Send(text),
            Err(e) => if fail_closed {
                r == TranslationSettled::Fail(e)
            } else {
                r matches TranslationSettled::Skip(n) && n@ == "Translation skipped: "@ + e@
            },
        },
{
    match outcome {
        Ok(text) => TranslationSettled::Send(text),
        Err(e) => if fail_closed {
            TranslationSettled::Fail(e)
        } else {
            let mut n = owned("Translation skipped: ");
            push_str(&mut n, e.as_str());
            TranslationSettled::Skip(n)
        },
    }
}

/// The status and answer text when a prompt cannot be sent: `Translation
/// failed: ` and the reason.
pub fn translation_failed_text(reason: &str) -> (r: String)
    ensures
        r@ == "Translation failed: "@ + reason@,
{
    let mut r = owned("Translation failed: ");
    push_str(&mut r, reason);
    r
}

} // verus!
