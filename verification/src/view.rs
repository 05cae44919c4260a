//! The texts of the dashboard and the footer: which model and translator
//! are in use, the rate-limit gauges, and the status lines.

use crate::config::{PrivacyConfig, TranslationConfig};
use crate::events::TokenUsage;
use crate::format::{decimal, format_token_count, group_thousands, u64_to_decimal};
use crate::protocol::AccountSummary;
use crate::text::{opt_chars, owned, push_str, str_eq};
use vstd::prelude::*;

verus! {

/// An optional text, else `default`.
pub open spec fn text_or(o: Option<Seq<char>>, default: Seq<char>) -> Seq<char> {
    match o {
        Some(t) => t,
        None => default,
    }
}

/// The text of an optional string, else `default`.
fn str_or_default(o: &Option<String>, default: &str) -> (r: String)
    ensures
        r@ == text_or(opt_chars(*o), default@),
{
    match o {
        Some(t) => t.clone(),
        None => owned(default),
    }
}

/// The model in use and its effort: `model effort`, the model alone,
/// `model pending effort`, or `model pending`.
pub open spec fn model_summary_spec(model: Option<Seq<char>>, effort: Option<Seq<char>>) -> Seq<
    char,
> {
    match (model, effort) {
        (Some(m), Some(e)) => m + " "@ + e,
        (Some(m), None) => m,
        (None, Some(e)) => "model pending "@ + e,
        (None, None) => "model pending"@,
    }
}

/// The model in use and its effort.
pub fn model_summary(model: &Option<String>, effort: &Option<String>) -> (r: String)
    ensures
        r@ == model_summary_spec(opt_chars(*model), opt_chars(*effort)),
{
    match (model, effort) {
        (Some(m), Some(e)) => {
            let mut r = m.clone();
            push_str(&mut r, " ");
            push_str(&mut r, e.as_str());
            r
        },
        (Some(m), None) => m.clone(),
        (None, Some(e)) => {
            let mut r = owned("model pending ");
            push_str(&mut r, e.as_str());
            r
        },
        (None, None) => owned("model pending"),
    }
}

/// The translator in use: `translator off`, or where it runs and its
/// model (`remote` for OpenAI, `local` for the local providers, the
/// provider's name otherwise).
pub open spec fn translator_label_spec(t: TranslationConfig) -> Seq<char> {
    if !t.enabled {
        "translator off"@
    } else {
        let p = t.provider@;
        let location = if p == "openai"@ {
            "remote"@
        } else if p == "ollama"@ || p == "local-openai-compatible"@ {
            "local"@
        } else {
            p
        };
        "translator "@ + location + "-"@ + text_or(opt_chars(t.model), "default"@)
    }
}

/// The translator in use.
pub fn translator_source_label(t: &TranslationConfig) -> (r: String)
    ensures
        r@ == translator_label_spec(*t),
{
    if !t.enabled {
        return owned("translator off");
    }
    let p = t.provider.as_str();
    let location = if str_eq(p, "openai") {
        "remote"
    } else if str_eq(p, "ollama") || str_eq(p, "local-openai-compatible") {
        "local"
    } else {
        p
    };
    let mut r = owned("translator ");
    push_str(&mut r, location);
    push_str(&mut r, "-");
    let model = str_or_default(&t.model, "default");
    push_str(&mut r, model.as_str());
    r
}

/// The Codex side: `codex ` and the model summary.
pub fn codex_source_label(model: &Option<String>, effort: &Option<String>) -> (r: String)
    ensures
        r@ == "codex "@ + model_summary_spec(opt_chars(*model), opt_chars(*effort)),
{
    let mut r = owned("codex ");
    let summary = model_summary(model, effort);
    push_str(&mut r, summary.as_str());
    r
}

/// Tokens used, as the footer shows them: input plus output, grouped by
/// thousands; `0` when unknown.
pub open spec fn tokens_text(usage: Option<TokenUsage>) -> Seq<char> {
    match usage {
        Some(u) => group_thousands(decimal((u.input + u.output) as nat)),
        None => "0"@,
    }
}

/// Tokens used, as the footer shows them.
pub fn token_text(usage: Option<TokenUsage>) -> (r: String)
    requires
        usage matches Some(u) ==> u.input + u.output <= u64::MAX,
    ensures
        r@ == tokens_text(usage),
{
    match usage {
        Some(u) => format_token_count(u.input + u.output),
        None => owned("0"),
    }
}

/// The footer's status line: the Codex side, the translator, and the
/// tokens each used.
pub fn footer_status_line(
    model: &Option<String>,
    effort: &Option<String>,
    translation: &TranslationConfig,
    translator_usage: Option<TokenUsage>,
    codex_usage: Option<TokenUsage>,
) -> (r: String)
    requires
        translator_usage matches Some(u) ==> u.input + u.output <= u64::MAX,
        codex_usage matches Some(u) ==> u.input + u.output <= u64::MAX,
    ensures
        r@ == "codex "@ + model_summary_spec(opt_chars(*model), opt_chars(*effort)) + " | "@
            + translator_label_spec(*translation) + " | tx "@ + tokens_text(translator_usage)
            + " | codex "@ + tokens_text(codex_usage),
{
    let mut r = codex_source_label(model, effort);
    push_str(&mut r, " | ");
    let translator = translator_source_label(translation);
    push_str(&mut r, translator.as_str());
    push_str(&mut r, " | tx ");
    let tx = token_text(translator_usage);
    push_str(&mut r, tx.as_str());
    push_str(&mut r, " | codex ");
    let cx = token_text(codex_usage);
    push_str(&mut r, cx.as_str());
    r
}

/// The share of a rate-limit window left: 100 minus the used share
/// (capped at 100); 0 when unknown.
pub open spec fn remaining_spec(percent: Option<u16>) -> u16 {
    match percent {
        Some(p) => if p >= 100 {
            0u16
        } else {
            (100 - p) as u16
        },
        None => 0u16,
    }
}

/// The share of a rate-limit window left.
pub fn remaining_percent(percent: Option<u16>) -> (r: u16)
    ensures
        r == remaining_spec(percent),
        r <= 100,
{
    match percent {
        Some(p) => if p >= 100 {
            0
        } else {
            100 - p
        },
        None => 0,
    }
}

/// The title of a rate-limit gauge: its name and the share left, or
/// `pending`.
pub fn gauge_title(title: &str, percent: Option<u16>) -> (r: String)
    ensures
        r@ == title@ + match percent {
            Some(_) => " "@ + decimal(remaining_spec(percent) as nat) + "%"@,
            None => " pending"@,
        },
{
    let mut r = owned(title);
    match percent {
        Some(_) => {
            push_str(&mut r, " ");
            let n = u64_to_decimal(remaining_percent(percent) as u64);
            push_str(&mut r, n.as_str());
            push_str(&mut r, "%");
        },
        None => push_str(&mut r, " pending"),
    }
    r
}

/// How many cells of a gauge `width` cells wide are filled for
/// `remaining` percent left.
pub fn fill_width(width: u16, remaining: u16) -> (r: u16)
    requires
        remaining <= 100,
    ensures
        r == (width as int * remaining as int) / 100,
        r <= width,
{
    assert((width as int) * (remaining as int) <= 65535 * 100) by (nonlinear_arith)
        requires
            remaining <= 100,
            width <= 65535,
    ;
    let product = (width as u32) * (remaining as u32);
    assert((width as int * remaining as int) / 100 <= width as int) by (nonlinear_arith)
        requires
            remaining <= 100,
            width >= 0,
    ;
    (product / 100) as u16
}

/// The colour of a gauge.
#[derive(Debug, Clone, Copy, PartialEq, Eq)]
pub enum LimitColor {
    Red,
    Yellow,
    Green,
    Gray,
}

/// The colour of a gauge: gray when unknown, red from 90% used, yellow
/// from 70%, green below (on the used share capped at 100).
pub fn limit_color(percent: Option<u16>) -> (c: LimitColor)
    ensures
        c == match percent {
            None => LimitColor::Gray,
            Some(p) => {
                let q = if p > 100 {
                    100
                } else {
                    p
                };
                if q >= 90 {
                    LimitColor::Red
                } else if q >= 70 {
                    LimitColor::Yellow
                } else {
                    LimitColor::Green
                }
            },
        },
{
    match percent {
        None => LimitColor::Gray,
        Some(p) => {
            let q = if p > 100 {
                100
            } else {
                p
            };
            if q >= 90 {
                LimitColor::Red
            } else if q >= 70 {
                LimitColor::Yellow
            } else {
                LimitColor::Green
            }
        },
    }
}

/// The account line: `Codex auth: unknown` without an account.
pub open spec fn account_line_spec(account: Option<AccountSummary>) -> Seq<char> {
    match account {
        None => "Codex auth: unknown"@,
        Some(a) => "Codex auth: "@ + text_or(opt_chars(a.account_type), "unknown"@) + "; plan: "@
            + text_or(opt_chars(a.plan_type), "unknown"@) + "; requires OpenAI auth: "@ + (if a.requires_openai_auth {
            "true"@
        } else {
            "false"@
        }),
    }
}

/// The account line.
pub fn account_line(account: &Option<AccountSummary>) -> (r: String)
    ensures
        r@ == account_line_spec(*account),
{
    match account {
        None => owned("Codex auth: unknown"),
        Some(a) => {
            let mut r = owned("Codex auth: ");
            let t = str_or_default(&a.account_type, "unknown");
            push_str(&mut r, t.as_str());
            push_str(&mut r, "; plan: ");
            let p = str_or_default(&a.plan_type, "unknown");
            push_str(&mut r, p.as_str());
            push_str(&mut r, "; requires OpenAI auth: ");
            push_str(
                &mut r,
                if a.requires_openai_auth {
                    "true"
                } else {
                    "false"
                },
            );
            r
        },
    }
}

/// The translator settings line of `/status`.
pub fn translator_line(t: &TranslationConfig, p: &PrivacyConfig, has_session_key: bool) -> (r:
    String)
    ensures
        r@ == "translator: "@ + t.provider@ + "; model: "@ + text_or(opt_chars(t.model), "default"@)
            + "; base_url: "@ + text_or(opt_chars(t.base_url), "default"@) + "; api_key_env: "@
            + text_or(opt_chars(t.api_key_env), "unset"@) + "; api_key: "@ + (if has_session_key {
            "session"@
        } else {
            "unset"@
        }) + "; remote_allowed: "@ + (if p.remote_translation_allowed {
            "true"@
        } else {
            "false"@
        }),
{
    let mut r = owned("translator: ");
    push_str(&mut r, t.provider.as_str());
    push_str(&mut r, "; model: ");
    let m = str_or_default(&t.model, "default");
    push_str(&mut r, m.as_str());
    push_str(&mut r, "; base_url: ");
    let b = str_or_default(&t.base_url, "default");
    push_str(&mut r, b.as_str());
    push_str(&mut r, "; api_key_env: ");
    let k = str_or_default(&t.api_key_env, "unset");
    push_str(&mut r, k.as_str());
    push_str(&mut r, "; api_key: ");
    push_str(
        &mut r,
        if has_session_key {
            "session"
        } else {
            "unset"
        },
    );
    push_str(&mut r, "; remote_allowed: ");
    push_str(
        &mut r,
        if p.remote_translation_allowed {
            "true"
        } else {
            "false"
        },
    );
    r
}

/// The first status line: an env-file error, else a settings error, else
/// the connecting notice.
pub fn initial_status(env_error: Option<String>, config_error: Option<String>) -> (r: String)
    ensures
        r@ == match opt_chars(env_error) {
            Some(e) => "Env load failed: "@ + e,
            None => match opt_chars(config_error) {
                Some(c) => "Config load failed: "@ + c,
                None => "Connecting to Codex app-server..."@,
            },
        },
{
    match env_error {
        Some(e) => {
            let mut r = owned("Env load failed: ");
            push_str(&mut r, e.as_str());
            r
        },
        None => match config_error {
            Some(c) => {
                let mut r = owned("Config load failed: ");
                push_str(&mut r, c.as_str());
                r
            },
            None => owned("Connecting to Codex app-server..."),
        },
    }
}

} // verus!
