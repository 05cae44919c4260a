//! The settings file and where the settings live.

use crate::text::{owned, push_char, push_str};
use vstd::prelude::*;

verus! {

/// Name of the settings directory inside the home directory.
pub const CONFIG_DIR_NAME: &'static str = ".oh-my-limit";

/// Name of the settings file.
pub const CONFIG_FILE_NAME: &'static str = "config.toml";

/// Name of the file that holds secrets such as API keys.
pub const ENV_FILE_NAME: &'static str = ".env";

/// All settings.
#[derive(Debug, Clone, PartialEq, Eq)]
pub struct AppConfig {
    pub translation: TranslationConfig,
    pub privacy: PrivacyConfig,
}

/// Prompt translation settings.
#[derive(Debug, Clone, PartialEq, Eq)]
pub struct TranslationConfig {
    pub provider: String,
    pub model: Option<String>,
    pub base_url: Option<String>,
    pub api_key_env: Option<String>,
    pub input_language: String,
    pub output_language: String,
    pub fail_closed: bool,
    pub timeout_ms: u64,
    pub enabled: bool,
}

/// What may leave the machine and what is kept.
#[derive(Debug, Clone, Copy, PartialEq, Eq, Structural)]
pub struct PrivacyConfig {
    pub save_prompts: bool,
    pub redact_secrets: bool,
    pub remote_translation_allowed: bool,
}

/// The default translation settings: provider `noop`, Korean in and out,
/// fail closed, 30 s timeout, no model, URL or key variable.
pub open spec fn is_default_translation(c: TranslationConfig) -> bool {
    &&& c.provider@ == "noop"@
    &&& c.model is None
    &&& c.base_url is None
    &&& c.api_key_env is None
    &&& c.input_language@ == "ko"@
    &&& c.output_language@ == "ko"@
    &&& c.fail_closed
    &&& c.timeout_ms == 30_000
    &&& c.enabled
}

/// The default privacy settings: prompts are not saved, secrets are
/// redacted, remote translation is not allowed.
pub open spec fn is_default_privacy(c: PrivacyConfig) -> bool {
    !c.save_prompts && c.redact_secrets && !c.remote_translation_allowed
}

impl Default for TranslationConfig {
    fn default() -> (r: TranslationConfig)
        ensures
            is_default_translation(r),
    {
        TranslationConfig {
            provider: owned("noop"),
            model: None,
            base_url: None,
            api_key_env: None,
            input_language: owned("ko"),
            output_language: owned("ko"),
            fail_closed: true,
            timeout_ms: 30_000,
            enabled: true,
        }
    }
}

impl Default for PrivacyConfig {
    fn default() -> (r: PrivacyConfig)
        ensures
            is_default_privacy(r),
    {
        PrivacyConfig { save_prompts: false, redact_secrets: true, remote_translation_allowed: false }
    }
}

impl Default for AppConfig {
    fn default() -> (r: AppConfig)
        ensures
            is_default_translation(r.translation),
            is_default_privacy(r.privacy),
    {
        AppConfig { translation: TranslationConfig::default(), privacy: PrivacyConfig::default() }
    }
}

/// `base` joined with the relative name `name`, as `Path::join` does on
/// Unix: no separator after an empty base or one that ends with `/`.
pub open spec fn path_join(base: Seq<char>, name: Seq<char>) -> Seq<char> {
    if base.len() == 0 {
        name
    } else if base.last() == '/' {
        base + name
    } else {
        base + seq!['/'] + name
    }
}

/// The home directory, or `.` when it is unknown.
pub open spec fn home_or_current(home: Option<Seq<char>>) -> Seq<char> {
    match home {
        Some(h) => h,
        None => "."@,
    }
}

/// `base` joined with the relative name `name`.
pub fn join_path(base: &str, name: &str) -> (r: String)
    requires
        name@.len() == 0 || name@[0] != '/',
    ensures
        r@ == path_join(base@, name@),
{
    let n = base.unicode_len();
    let mut r = owned(base);
    if n > 0 && base.get_char(n - 1) != '/' {
        push_char(&mut r, '/');
    }
    push_str(&mut r, name);
    r
}

/// The settings directory under the home directory.
pub fn config_dir(home: Option<&str>) -> (r: String)
    ensures
        r@ == path_join(
            home_or_current(
                match home {
                    Some(h) => Some(h@),
                    None => None,
                },
            ),
            CONFIG_DIR_NAME@,
        ),
{
    proof {
        reveal_strlit(".oh-my-limit");
    }
    match home {
        Some(h) => join_path(h, CONFIG_DIR_NAME),
        None => join_path(".", CONFIG_DIR_NAME),
    }
}

/// The settings file.
pub fn config_file(home: Option<&str>) -> (r: String)
    ensures
        r@ == path_join(
            path_join(
                home_or_current(
                    match home {
                        Some(h) => Some(h@),
                        None => None,
                    },
                ),
                CONFIG_DIR_NAME@,
            ),
            CONFIG_FILE_NAME@,
        ),
{
    proof {
        reveal_strlit("config.toml");
    }
    let dir = config_dir(home);
    join_path(dir.as_str(), CONFIG_FILE_NAME)
}

/// The secrets file.
pub fn env_file(home: Option<&str>) -> (r: String)
    ensures
        r@ == path_join(
            path_join(
                home_or_current(
                    match home {
                        Some(h) => Some(h@),
                        None => None,
                    },
                ),
                CONFIG_DIR_NAME@,
            ),
            ENV_FILE_NAME@,
        ),
{
    proof {
        reveal_strlit(".env");
    }
    let dir = config_dir(home);
    join_path(dir.as_str(), ENV_FILE_NAME)
}

} // verus!
