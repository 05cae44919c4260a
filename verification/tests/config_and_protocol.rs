use oh_my_limit::commands::{approval_step, threads_text, ApprovalStep};
use oh_my_limit::config::{config_dir, config_file, env_file, AppConfig, PrivacyConfig, TranslationConfig};
use oh_my_limit::doctor::{
    check_lines, command_failure_detail, first_output_line, git_output_text, recommended_runner,
    transport_label, CheckResult,
};
use oh_my_limit::env_file::{parse_env_file, parse_env_line, quote_env_value, set_and_render, unquote_env_value, EnvValues};
use oh_my_limit::events::{
    approval_result, format_plan, rate_limit_summary, rate_limit_usage, ApprovalChoice, PendingApproval,
};
use oh_my_limit::format::{format_token_count, limit_percent_text, usable_content_width};
use oh_my_limit::json::Json;
use oh_my_limit::protocol::{request_message, RequestIds, TurnStep, TurnWait};
use oh_my_limit::settings::{
    apply_picker_action, apply_tested_key, key_stored, selection_message, SelectionStep,
    parse_translator_command, plan_translation, set_optional_translation_value, set_remote_translation,
    set_translator_provider, settle_translation, translator_config, TranslationPlan, TranslationSettled,
    TranslatorCommand,
};
use oh_my_limit::translator::TranslationProviderKind;
use oh_my_limit::translator_picker::{TranslatorPickerAction, TranslatorProviderSelection};
use oh_my_limit::view::{footer_status_line, translator_source_label};

fn obj(entries: Vec<(&str, Json)>) -> Json {
    Json::Object(entries.into_iter().map(|(k, v)| (k.to_owned(), v)).collect())
}

fn s(text: &str) -> Json {
    Json::String(text.to_owned())
}

fn n(value: u64) -> Json {
    Json::Number(Some(value))
}

#[test]
fn default_settings() {
    let config = AppConfig::default();
    assert_eq!(config.translation.provider, "noop");
    assert!(config.translation.fail_closed);
    assert_eq!(config.translation.timeout_ms, 30_000);
    assert!(!config.privacy.remote_translation_allowed);
    assert!(config.privacy.redact_secrets);
}

#[test]
fn settings_paths() {
    assert_eq!(config_dir(Some("/home/u")), "/home/u/.oh-my-limit");
    assert_eq!(config_file(Some("/home/u/")), "/home/u/.oh-my-limit/config.toml");
    assert_eq!(env_file(None), "./.oh-my-limit/.env");
}

#[test]
fn env_lines_are_parsed() {
    assert_eq!(parse_env_line(" KEY = \"value\" "), Some(("KEY".to_owned(), "value".to_owned())));
    assert_eq!(parse_env_line("# comment"), None);
    assert_eq!(parse_env_line("=x"), None);
    assert_eq!(parse_env_line("novalue"), None);
    assert_eq!(unquote_env_value("'x'"), "x");
    assert_eq!(quote_env_value("plain-1.0"), "plain-1.0");
    assert_eq!(quote_env_value("a b\"c"), "\"a b\\\"c\"");
}

#[test]
fn env_file_round_trips() {
    let mut values = EnvValues::new();
    let text = set_and_render(&mut values, "OPENAI_API_KEY", "sk-abc def");
    set_and_render(&mut values, "A_KEY", "1");
    let text2 = values.render();
    let back = parse_env_file(&text2);
    assert_eq!(back.get("OPENAI_API_KEY"), Some("sk-abc def".to_owned()));
    assert_eq!(back.get("A_KEY"), Some("1".to_owned()));
    assert_eq!(back.len(), 2);
    assert!(text.contains("OPENAI_API_KEY="));
    assert!(text2.starts_with("A_KEY=1\n"));
}

#[test]
fn later_env_lines_win() {
    let values = parse_env_file("A=1\nB=2\nA=3\n");
    assert_eq!(values.get("A"), Some("3".to_owned()));
    assert!(values.contains_key("B"));
    assert!(!values.contains_key("C"));
}

#[test]
fn numbers_are_formatted() {
    assert_eq!(format_token_count(0), "0");
    assert_eq!(format_token_count(1234567), "1,234,567");
    assert_eq!(format_token_count(999), "999");
    assert_eq!(limit_percent_text(Some(42)), "42%");
    assert_eq!(limit_percent_text(None), "pending");
    assert_eq!(usable_content_width(10, 4), Some(6));
    assert_eq!(usable_content_width(4, 4), None);
}

#[test]
fn rate_limits_are_read() {
    let params = obj(vec![(
        "rateLimits",
        obj(vec![
            ("primary", obj(vec![("usedPercent", n(42)), ("windowDurationMins", n(300))])),
            ("secondary", obj(vec![("usedPercent", n(150)), ("windowDurationMins", n(10080))])),
        ]),
    )]);
    let usage = rate_limit_usage(&params).unwrap();
    assert_eq!(usage.five_hour_percent, Some(42));
    assert_eq!(usage.weekly_percent, Some(100));
    assert_eq!(rate_limit_summary(&params), Some("Ready.".to_owned()));
}

#[test]
fn plans_are_listed() {
    let params = obj(vec![(
        "plan",
        Json::Array(vec![
            obj(vec![("step", s("read")), ("status", s("completed"))]),
            obj(vec![("text", s("write"))]),
        ]),
    )]);
    assert_eq!(
        format_plan(&params),
        Some("1. [completed] read\n2. [pending] write".to_owned())
    );
    assert_eq!(format_plan(&obj(vec![("plan", Json::Array(vec![]))])), None);
}

#[test]
fn approvals_are_answered_per_protocol() {
    let word = |method: &str, choice| {
        approval_result(method, choice)
            .and_then(|j| j.str_at("decision"))
    };
    assert_eq!(word("execCommandApproval", ApprovalChoice::Cancel), Some("abort".to_owned()));
    assert_eq!(
        word("item/fileChange/requestApproval", ApprovalChoice::ApproveForSession),
        Some("acceptForSession".to_owned())
    );
    assert_eq!(word("applyPatchApproval", ApprovalChoice::ApproveForSession), Some("approved".to_owned()));
    assert_eq!(word("unknown", ApprovalChoice::Approve), None);
    let pending = PendingApproval { id: n(7), method: "unknown".to_owned(), summary: String::new() };
    match approval_step(Some(pending), ApprovalChoice::Deny) {
        ApprovalStep::Unsupported(p, note) => {
            assert_eq!(p.id, n(7));
            assert_eq!(note, "Unsupported approval request: unknown");
        }
        other => panic!("unexpected {other:?}"),
    }
    assert!(matches!(approval_step(None, ApprovalChoice::Deny), ApprovalStep::NothingPending));
}

#[test]
fn request_ids_increase() {
    let mut ids = RequestIds::new();
    let first = ids.next_request_id();
    let second = ids.next_request_id();
    assert_eq!((first, second), (0, 1));
    let message = request_message(second, "turn/start", Json::Null);
    assert_eq!(message.get("id"), Some(&n(1)));
    assert_eq!(message.str_at("method"), Some("turn/start".to_owned()));
}

#[test]
fn turn_wait_collects_the_streamed_answer() {
    let mut wait = TurnWait::new();
    let delta = |text: &str, turn: &str| {
        obj(vec![
            ("method", s("item/agentMessage/delta")),
            ("params", obj(vec![("turnId", s(turn)), ("delta", s(text))])),
        ])
    };
    assert_eq!(wait.observe(&delta("Hel", "t1"), "t1"), TurnStep::Pending);
    assert_eq!(wait.observe(&delta("zzz", "other"), "t1"), TurnStep::Pending);
    assert_eq!(wait.observe(&delta("lo", "t1"), "t1"), TurnStep::Pending);
    let done = obj(vec![
        ("method", s("turn/completed")),
        ("params", obj(vec![("turn", obj(vec![("id", s("t1")), ("status", s("completed"))]))])),
    ]);
    assert_eq!(wait.observe(&done, "t1"), TurnStep::Completed("Hello".to_owned()));
}

#[test]
fn translator_settings_commands() {
    let mut t = TranslationConfig::default();
    assert_eq!(set_translator_provider(&mut t, "OpenAI"), Ok("Translator provider set to openai.".to_owned()));
    assert!(t.enabled);
    assert_eq!(t.model, Some("gpt-5.4-mini".to_owned()));
    assert_eq!(t.api_key_env, Some("OPENAI_API_KEY".to_owned()));
    assert_eq!(
        set_translator_provider(&mut t, "nope"),
        Err("unknown translation provider: nope".to_owned())
    );
    assert_eq!(
        set_optional_translation_value(&mut t, "model", "default"),
        Ok("Translator model updated.".to_owned())
    );
    assert_eq!(t.model, None);
    assert_eq!(
        set_optional_translation_value(&mut t, "model", ""),
        Err("Usage: /translator model <value|default>".to_owned())
    );
    assert_eq!(
        set_optional_translation_value(&mut t, "colour", "red"),
        Err("Unknown translator setting: colour".to_owned())
    );
    let mut p = PrivacyConfig::default();
    assert_eq!(set_remote_translation(&mut p, "yes"), Ok("Remote translation enabled.".to_owned()));
    assert!(p.remote_translation_allowed);
    assert_eq!(set_remote_translation(&mut p, "maybe"), Err("Usage: /translator remote <on|off>".to_owned()));
}

#[test]
fn translator_commands_are_read() {
    assert_eq!(parse_translator_command("/translator on"), TranslatorCommand::On);
    assert_eq!(parse_translator_command("/translator off x"), TranslatorCommand::Usage);
    assert_eq!(
        parse_translator_command("/translator model  gpt-x "),
        TranslatorCommand::Setting("model".to_owned(), "gpt-x".to_owned())
    );
    assert_eq!(parse_translator_command("/translator test"), TranslatorCommand::Test);
}

#[test]
fn translator_needs_remote_permission_and_a_key() {
    let mut t = TranslationConfig::default();
    t.provider = "openai".to_owned();
    let p = PrivacyConfig::default();
    let env = EnvValues::new();
    assert_eq!(
        translator_config(&t, &p, &None, &env, None).unwrap_err(),
        "remote translation is disabled; run /translator remote on first"
    );
    let mut allowed = p;
    allowed.remote_translation_allowed = true;
    assert_eq!(
        translator_config(&t, &allowed, &None, &env, None).unwrap_err(),
        "OpenAI provider requires an API key from /translator or api-key-env"
    );
    t.api_key_env = Some("MY_KEY".to_owned());
    assert_eq!(
        translator_config(&t, &allowed, &None, &env, None).unwrap_err(),
        "environment variable MY_KEY is not set"
    );
    let config = translator_config(&t, &allowed, &None, &env, Some("sk-env")).unwrap();
    assert_eq!(config.api_key, Some("sk-env".to_owned()));
    assert_eq!(config.timeout, std::time::Duration::from_millis(30_000));
    assert_eq!(config.provider, TranslationProviderKind::OpenAi);
}

#[test]
fn translation_plans() {
    let t = TranslationConfig::default();
    let p = PrivacyConfig::default();
    let env = EnvValues::new();
    assert!(matches!(
        plan_translation(&t, &p, &None, &env, None),
        TranslationPlan::PassThrough { provider: TranslationProviderKind::Noop, notice: None }
    ));
    let mut open = t.clone();
    open.provider = "openai".to_owned();
    open.fail_closed = false;
    match plan_translation(&open, &p, &None, &env, None) {
        TranslationPlan::PassThrough { notice: Some(note), .. } => assert_eq!(
            note,
            "Translation skipped: remote translation is disabled; run /translator remote on first"
        ),
        other => panic!("unexpected {other:?}"),
    }
    assert!(matches!(
        settle_translation(Err("x".to_owned()), true),
        TranslationSettled::Fail(_)
    ));
}

#[test]
fn footer_and_labels() {
    let t = TranslationConfig::default();
    assert_eq!(translator_source_label(&t), "translator noop-default");
    let line = footer_status_line(&Some("gpt".to_owned()), &None, &t, None, None);
    assert_eq!(line, "codex gpt | translator noop-default | tx 0 | codex 0");
}

#[test]
fn thread_lists() {
    let result = obj(vec![(
        "data",
        Json::Array(vec![
            obj(vec![("id", s("t1")), ("name", s("")), ("preview", s("fix it")), ("cwd", s("/w"))]),
            obj(vec![("id", s("t2"))]),
            obj(vec![("id", s("t3")), ("name", Json::Null), ("preview", s("p"))]),
        ]),
    )]);
    assert_eq!(
        threads_text(&result),
        "Recent Codex threads:\nt1  (untitled)  /w\nt2  (untitled)  \nt3  p  "
    );
    assert_eq!(threads_text(&obj(vec![])), "Recent Codex threads:\n(no threads)");
}

#[test]
fn doctor_reads_command_output() {
    assert_eq!(command_failure_detail(Some(2), b"bad flag\nmore"), "exit 2: bad flag");
    assert_eq!(command_failure_detail(Some(-1), b""), "exit -1: no stderr");
    assert_eq!(command_failure_detail(None, b"x"), "terminated by signal: x");
    assert_eq!(first_output_line(b"", b"warn\n"), Some("warn".to_owned()));
    assert_eq!(first_output_line(b"", b""), None);
    assert_eq!(first_output_line(b"ok\xff\n", b""), Some("ok\u{fffd}".to_owned()));
    assert_eq!(recommended_runner(true, true, true, true), "app-server");
    assert_eq!(recommended_runner(false, true, true, true), "exec");
    assert_eq!(recommended_runner(true, true, true, false), "unavailable");
    assert_eq!(transport_label("listen on stdio:// by default"), "stdio JSONL");
    assert_eq!(transport_label("nothing"), "unknown");
    let failed = CheckResult::failed("missing".to_owned());
    assert_eq!(check_lines("codex binary", &failed), vec!["codex binary: unavailable".to_owned(), "codex binary detail: missing".to_owned()]);
    assert_eq!(git_output_text(true, b"  \n", b"", "exit status: 0"), "(no output)");
    assert_eq!(git_output_text(false, b"", b"", "exit status: 1"), "git exited with exit status: 1");
}

#[test]
fn picker_choices_change_the_settings() {
    let mut t = TranslationConfig::default();
    let mut p = PrivacyConfig::default();
    let mut key = None;
    let step = apply_picker_action(&mut t, &mut p, &mut key, TranslatorPickerAction::SelectedOpenAi);
    assert_eq!(step, SelectionStep::Save);
    assert!(t.enabled);
    assert_eq!(t.provider, "openai");
    assert_eq!(t.model, Some("gpt-5.4-mini".to_owned()));
    assert_eq!(t.base_url, Some("https://api.openai.com/v1".to_owned()));
    assert_eq!(t.api_key_env, Some("OPENAI_API_KEY".to_owned()));
    assert!(p.remote_translation_allowed);
    assert_eq!(selection_message(&t), "Prompt translation enabled with openai.");

    let step = apply_picker_action(
        &mut t,
        &mut p,
        &mut key,
        TranslatorPickerAction::SelectedLocal(TranslatorProviderSelection::Ollama),
    );
    assert_eq!(step, SelectionStep::Save);
    assert_eq!(t.provider, "ollama");
    assert_eq!(t.api_key_env, None);
    assert!(!p.remote_translation_allowed);

    let step = apply_picker_action(
        &mut t,
        &mut p,
        &mut key,
        TranslatorPickerAction::SelectedLocal(TranslatorProviderSelection::Noop),
    );
    assert_eq!(step, SelectionStep::Save);
    assert!(!t.enabled);
    assert_eq!(t.provider, "ollama");
    assert_eq!(selection_message(&t), "Prompt translation disabled.");

    let before = t.clone();
    let step = apply_picker_action(&mut t, &mut p, &mut key, TranslatorPickerAction::InvalidOpenAiApiKey);
    assert_eq!(step, SelectionStep::KeyLooksIncomplete);
    assert_eq!(t, before);
}

#[test]
fn a_tested_key_is_kept_by_its_variable_name() {
    let mut t = TranslationConfig::default();
    t.model = Some("gpt-x".to_owned());
    let mut p = PrivacyConfig::default();
    let mut key = None;
    let before = t.clone();
    let step = apply_picker_action(
        &mut t,
        &mut p,
        &mut key,
        TranslatorPickerAction::TestOpenAi { api_key: "sk-test".to_owned() },
    );
    assert_eq!(
        step,
        SelectionStep::TestKey {
            api_key: "sk-test".to_owned(),
            model: Some("gpt-x".to_owned()),
            base_url: Some("https://api.openai.com/v1".to_owned()),
        }
    );
    assert_eq!(t, before);
    assert_eq!(key, None);
    apply_tested_key(
        &mut t,
        &mut p,
        &mut key,
        "sk-test".to_owned(),
        Some("gpt-x".to_owned()),
        Some("https://api.openai.com/v1".to_owned()),
    );
    assert!(t.enabled && p.remote_translation_allowed);
    assert_eq!(key, Some("sk-test".to_owned()));
    assert!(t.fail_closed);
    assert_eq!(t.timeout_ms, 30_000);
    key_stored(&mut t, &mut key);
    assert_eq!(key, None);
    assert!(t.fail_closed);
    assert_eq!(t.api_key_env, Some("OPENAI_API_KEY".to_owned()));
}

#[test]
fn openai_plan_needs_remote_permission() {
    let mut t = TranslationConfig::default();
    t.provider = "openai".to_owned();
    t.enabled = true;
    t.fail_closed = true;
    let mut p = PrivacyConfig::default();
    let env = EnvValues::new();
    match plan_translation(&t, &p, &Some("sk-a".to_owned()), &env, None) {
        TranslationPlan::Fail(reason) => {
            assert_eq!(reason, "remote translation is disabled; run /translator remote on first")
        }
        other => panic!("unexpected {other:?}"),
    }
    p.remote_translation_allowed = true;
    match plan_translation(&t, &p, &Some("sk-a".to_owned()), &env, None) {
        TranslationPlan::Translate(config) => {
            assert_eq!(config.provider, TranslationProviderKind::OpenAi);
            assert_eq!(config.api_key, Some("sk-a".to_owned()));
        }
        other => panic!("unexpected {other:?}"),
    }
}

#[test]
fn saving_a_value_keeps_the_others_in_key_order() {
    let mut values = parse_env_file("B=two\n# note\nA=one\n");
    let text = set_and_render(&mut values, "OPENAI_API_KEY", "sk-abc");
    assert_eq!(text, "A=one\nB=two\nOPENAI_API_KEY=sk-abc\n");
    let again = parse_env_file(&text);
    assert_eq!(again.get("A"), Some("one".to_owned()));
    assert_eq!(again.get("B"), Some("two".to_owned()));
    assert_eq!(again.get("OPENAI_API_KEY"), Some("sk-abc".to_owned()));
    assert_eq!(again.len(), 3);
    let text = set_and_render(&mut values, "A", "uno");
    assert_eq!(text, "A=uno\nB=two\nOPENAI_API_KEY=sk-abc\n");
}

#[test]
fn setting_one_translator_value_keeps_the_others() {
    let mut t = TranslationConfig::default();
    t.model = Some("m".to_owned());
    t.base_url = Some("http://x".to_owned());
    let before = t.clone();
    assert_eq!(
        set_optional_translation_value(&mut t, "base-url", "default"),
        Ok("Translator base-url updated.".to_owned())
    );
    assert_eq!(t.base_url, None);
    assert_eq!(t.model, before.model);
    assert_eq!(t.api_key_env, before.api_key_env);
    assert_eq!(t.timeout_ms, before.timeout_ms);
}
