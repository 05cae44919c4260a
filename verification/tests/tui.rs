use oh_my_limit::bottom_pane::{normalize_newlines, placeholder, text_area, truncate_to_width, BottomPane};
use oh_my_limit::chat::{render_history_tail, ChatWidget, HistoryCell, SpanStyle};
use oh_my_limit::commands::{
    cd_target, decide_submission, interrupt_target, model_changed_message, parse_slash_command,
    resume_refusal, review_target, SlashAction, Submission,
};
use oh_my_limit::events::ApprovalChoice;
use oh_my_limit::keys::{key_action, translator_key, Key, KeyAction, TranslatorKey};
use oh_my_limit::model_picker::{
    name_width, pad_or_truncate, reasoning_effort_label, row_text, ModelOption, ModelPicker,
    PickerStage, ReasoningEffortOption,
};
use oh_my_limit::slash_popup::{commands, slash_filter, SlashCommandPopup};
use oh_my_limit::stream::{AssistantStream, TranscriptReflow};
use oh_my_limit::textarea::{Area, TextArea};
use oh_my_limit::translator_picker::{
    normalized_api_key, TranslatorPicker, TranslatorPickerAction, TranslatorProviderSelection,
};
use oh_my_limit::view::{
    account_line, fill_width, gauge_title, limit_color, model_summary, remaining_percent,
    LimitColor,
};
use oh_my_limit::wrapping::{is_url_like_token, lines_of, split_words, text_contains_url_like, wrap_words};

fn effort(name: &str) -> ReasoningEffortOption {
    ReasoningEffortOption { effort: name.to_owned(), description: format!("{name} effort") }
}

fn model(id: &str, is_default: bool, efforts: &[&str]) -> ModelOption {
    ModelOption {
        id: id.to_owned(),
        description: format!("{id} model"),
        is_default,
        default_reasoning_effort: Some("medium".to_owned()),
        supported_reasoning_efforts: efforts.iter().map(|e| effort(e)).collect(),
    }
}

#[test]
fn slash_filter_reads_the_first_line() {
    assert_eq!(slash_filter("/mo"), Some("mo".to_owned()));
    assert_eq!(slash_filter("/"), Some(String::new()));
    assert_eq!(slash_filter("/model x"), None);
    assert_eq!(slash_filter("hello"), None);
    assert_eq!(slash_filter("/re\r\nmore"), Some("re".to_owned()));
    assert_eq!(slash_filter(""), None);
}

#[test]
fn popup_lists_matching_commands() {
    let popup = SlashCommandPopup::new("/re");
    let names: Vec<&str> = popup.filtered().iter().map(|c| c.name).collect();
    assert_eq!(names, vec!["review", "resume"]);
    assert_eq!(popup.selected_command(), Some("review"));
    assert_eq!(popup.completion_text(), Some("/review ".to_owned()));
    assert_eq!(commands().len(), 16);
}

#[test]
fn popup_selection_wraps_both_ways() {
    let mut popup = SlashCommandPopup::new("/re");
    popup.select_previous();
    assert_eq!(popup.selected_command(), Some("resume"));
    popup.select_next();
    assert_eq!(popup.selected_command(), Some("review"));
    popup.select_next();
    popup.select_next();
    assert_eq!(popup.selected_command(), Some("review"));
}

#[test]
fn popup_with_no_match_has_no_selection() {
    let popup = SlashCommandPopup::new("/zzz");
    assert_eq!(popup.selected_command(), None);
    assert_eq!(popup.completion_text(), None);
    assert!(SlashCommandPopup::should_show("/zzz"));
    assert!(!SlashCommandPopup::should_show("text"));
}

#[test]
fn model_picker_starts_on_the_active_model() {
    let options = vec![model("a", false, &[]), model("b", true, &[]), model("c", false, &[])];
    let picker = ModelPicker::new(options, Some("c"), None);
    assert_eq!(picker.selected_row(), 2);
    let options = vec![model("a", false, &[]), model("b", true, &[])];
    let picker = ModelPicker::new(options, Some("missing"), None);
    assert_eq!(picker.selected_row(), 1);
    let options = vec![model("a", false, &[])];
    let picker = ModelPicker::new(options, None, None);
    assert_eq!(picker.selected_row(), 0);
}

#[test]
fn model_with_one_effort_is_picked_at_once() {
    let options = vec![model("solo", true, &["high"])];
    let mut picker = ModelPicker::new(options, None, None);
    let selection = picker.accept().unwrap();
    assert_eq!(selection.model, "solo");
    assert_eq!(selection.effort, Some("high".to_owned()));
}

#[test]
fn model_with_several_efforts_opens_its_effort_list() {
    let options = vec![model("gpt-5.2", true, &["low", "medium", "high", "xhigh"])];
    let mut picker = ModelPicker::new(options, Some("gpt-5.2"), Some("high"));
    assert!(picker.accept().is_none());
    assert_eq!(picker.stage(), PickerStage::Reasoning { model_index: 0 });
    assert_eq!(picker.selected_row(), 2);
    picker.select_next();
    let selection = picker.accept().unwrap();
    assert_eq!(selection.effort, Some("xhigh".to_owned()));
}

#[test]
fn escape_from_the_effort_list_returns_to_the_model() {
    let options = vec![model("a", false, &[]), model("b", true, &["low", "high"])];
    let mut picker = ModelPicker::new(options, None, None);
    assert_eq!(picker.selected_row(), 1);
    assert!(picker.accept().is_none());
    assert!(!picker.cancel_or_back());
    assert_eq!(picker.stage(), PickerStage::Model);
    assert_eq!(picker.selected_row(), 1);
    assert!(picker.cancel_or_back());
}

#[test]
fn select_number_outside_the_list_does_nothing() {
    let options = vec![model("a", true, &[])];
    let mut picker = ModelPicker::new(options, None, None);
    assert!(picker.select_number(0).is_none());
    assert!(picker.select_number(2).is_none());
    assert_eq!(picker.select_number(1).unwrap().model, "a");
}

#[test]
fn effort_labels_and_widths() {
    assert_eq!(reasoning_effort_label("xhigh"), "Extra high");
    assert_eq!(reasoning_effort_label("weird"), "Custom");
    assert_eq!(name_width(&vec!["short".to_owned()]), 12);
    assert_eq!(name_width(&vec!["x".repeat(40)]), 32);
    assert_eq!(pad_or_truncate("abc", 5), "abc  ");
    assert_eq!(pad_or_truncate("abcdefgh", 5), "ab...");
}

#[test]
fn words_wrap_greedily() {
    assert_eq!(wrap_words("aa bb cc", 5), vec!["aa bb".to_owned(), "cc".to_owned()]);
    assert_eq!(wrap_words("", 5), Vec::<String>::new());
    assert_eq!(wrap_words("averyverylongword b", 4), vec!["averyverylongword".to_owned(), "b".to_owned()]);
    let words: Vec<String> = split_words("  a\tb  ").into_iter().map(|w| w.into_iter().collect()).collect();
    assert_eq!(words, vec!["a".to_owned(), "b".to_owned()]);
}

#[test]
fn lines_follow_str_lines() {
    assert_eq!(lines_of("a\r\nb\n"), vec!["a".to_owned(), "b".to_owned()]);
    assert_eq!(lines_of(""), Vec::<String>::new());
    assert_eq!(lines_of("x\n\ny"), vec!["x".to_owned(), String::new(), "y".to_owned()]);
}

#[test]
fn links_are_recognized() {
    assert!(is_url_like_token("https://example.com"));
    assert!(is_url_like_token("docs.example.com/path/to"));
    assert!(!is_url_like_token("a.b/c"));
    assert!(text_contains_url_like("see http://x for more"));
    assert!(!text_contains_url_like("plain words only"));
}

#[test]
fn row_text_lays_out_a_described_row() {
    let row = row_text(1, "gpt", "a model", None, 12, 80);
    assert_eq!(row.label, format!("{:<15}", "1. gpt"));
    assert_eq!(row.first, Some("a model".to_owned()));
    assert!(row.rest.is_empty());
    let bare = row_text(2, "x", "", None, 12, 80);
    assert_eq!(bare.label, "2. x");
    assert_eq!(bare.first, None);
}

#[test]
fn translator_picker_categories() {
    let mut picker = TranslatorPicker::new();
    assert!(picker.accept().is_none());
    assert!(matches!(
        picker.accept(),
        Some(TranslatorPickerAction::SelectedLocal(TranslatorProviderSelection::Ollama))
    ));
    assert!(!picker.cancel_or_back());
    assert!(picker.cancel_or_back());
}

#[test]
fn translator_picker_asks_for_a_key_and_checks_it() {
    let mut picker = TranslatorPicker::provider_list("openai", false);
    assert!(picker.accept().is_none());
    assert!(picker.is_api_key_input());
    picker.push_api_key_text("sk-short\u{7}");
    assert!(matches!(picker.accept(), Some(TranslatorPickerAction::InvalidOpenAiApiKey)));
    picker.push_api_key_text(&"a".repeat(40));
    match picker.accept() {
        Some(TranslatorPickerAction::TestOpenAi { api_key }) => {
            assert!(api_key.starts_with("sk-short"));
            assert!(!api_key.contains('\u{7}'));
        }
        other => panic!("unexpected {other:?}"),
    }
    assert!(!picker.cancel_or_back());
    assert!(!picker.is_api_key_input());
}

#[test]
fn api_key_whitespace_is_dropped() {
    assert_eq!(normalized_api_key(" sk-a b\n"), "sk-ab");
}

#[test]
fn textarea_edits_at_the_cursor() {
    let mut area = TextArea::new();
    area.insert_text("ac");
    area.move_cursor_left();
    area.insert_char('b');
    assert_eq!(area.text(), "abc");
    area.backspace();
    assert_eq!(area.text(), "ac");
    area.delete();
    assert_eq!(area.text(), "a");
    area.set_text("one\ntwo".to_owned());
    area.move_cursor_to_line_start();
    area.insert_char('>');
    assert_eq!(area.text(), "one\n>two");
    area.move_cursor_to_line_end();
    area.insert_char('!');
    assert_eq!(area.text(), "one\n>two!");
}

#[test]
fn textarea_rows_and_cursor() {
    let mut area = TextArea::new();
    assert_eq!(area.wrapped_ranges(10), vec![(0, 0)]);
    area.set_text("abcdef".to_owned());
    assert_eq!(area.wrapped_ranges(4), vec![(0, 4), (4, 6)]);
    assert_eq!(area.visual_line_count(4), 2);
    assert_eq!(area.visible_lines(4, 1), vec!["ef".to_owned()]);
    let pos = area.cursor_position(Area { x: 10, y: 5, width: 4, height: 3 });
    assert_eq!(pos, (12, 6));
    area.set_text("a\nb".to_owned());
    assert_eq!(area.wrapped_ranges(10), vec![(0, 1), (2, 2), (2, 3)]);
}

#[test]
fn bottom_pane_follows_slash_commands() {
    let mut pane = BottomPane::new();
    pane.insert_char('/');
    pane.insert_char('h');
    assert!(pane.slash_popup().is_some());
    pane.complete_slash_command();
    assert_eq!(pane.input(), "/help ");
    assert!(pane.slash_popup().is_none());
    pane.set_input("/cl".to_owned());
    assert!(pane.accept_slash_command());
    assert_eq!(pane.input(), "/clear");
    pane.insert_text("  x\r\ny\rz  ");
    assert_eq!(pane.take_trimmed_input(), "/clear  x\ny\nz");
    assert!(pane.is_input_empty());
}

#[test]
fn bottom_pane_height_and_helpers() {
    let mut pane = BottomPane::new();
    assert_eq!(pane.desired_height(80), 4);
    pane.set_queued_messages(vec!["a".to_owned(), "b".to_owned(), "c".to_owned(), "d".to_owned()]);
    assert_eq!(pane.desired_height(80), 7);
    assert_eq!(pane.queued_lines(), vec!["queued  a".to_owned(), "queued  b".to_owned(), "queued  c".to_owned()]);
    assert_eq!(normalize_newlines("a\r\r\nb"), "a\n\nb");
    assert_eq!(truncate_to_width("abcdef", 3), "abc");
    assert_eq!(placeholder(false, false), "Ask Codex to do anything");
    let area = text_area(Area { x: 0, y: 0, width: 40, height: 10 }, 1);
    assert_eq!(area, Area { x: 2, y: 2, width: 38, height: 6 });
}

#[test]
fn stream_commits_and_hands_out_everything() {
    let mut stream = AssistantStream::new();
    stream.push_delta("Hel");
    assert!(stream.commit_pending());
    stream.push_delta("lo");
    assert!(!AssistantStream::new().is_active());
    assert_eq!(stream.active_cell().unwrap().source(), "Hello");
    assert_eq!(stream.take_finished_or_active(), Some("Hello".to_owned()));
    assert_eq!(stream.take_finished_or_active(), None);
}

#[test]
fn reflow_notices_width_changes() {
    let mut reflow = TranscriptReflow::default();
    assert!(!reflow.observe_width(80));
    assert!(!reflow.observe_width(80));
    assert!(reflow.observe_width(60));
}

#[test]
fn chat_flushes_the_stream_before_other_cells() {
    let mut chat = ChatWidget::new();
    chat.start_assistant_message();
    chat.append_assistant_delta("answer");
    chat.push_error("boom".to_owned());
    let lines = chat.display_lines(40, 100);
    let texts: Vec<String> = lines.iter().map(|l| l.iter().map(|(t, _)| t.as_str()).collect()).collect();
    assert_eq!(texts, vec!["• answer".to_owned(), String::new(), "error  boom".to_owned()]);
    assert_eq!(lines[2][0].1, SpanStyle::Error);
}

#[test]
fn chat_queue_is_first_in_first_out() {
    let mut chat = ChatWidget::new();
    chat.queue_user_input("one".to_owned());
    chat.queue_user_input("two".to_owned());
    assert_eq!(chat.queued_input_lines(), vec!["one".to_owned(), "two".to_owned()]);
    assert_eq!(chat.take_next_queued_input(), Some("one".to_owned()));
    assert_eq!(chat.take_next_queued_input(), Some("two".to_owned()));
    assert_eq!(chat.take_next_queued_input(), None);
}

#[test]
fn chat_records_the_translation_of_the_last_prompt() {
    let mut chat = ChatWidget::new();
    chat.push_user_with_translation("안녕".to_owned(), None);
    chat.set_last_user_translation("hello".to_owned());
    let lines = chat.display_lines(40, 100);
    let texts: Vec<String> = lines.iter().map(|l| l.iter().map(|(t, _)| t.as_str()).collect()).collect();
    assert_eq!(texts, vec!["› 안녕".to_owned(), String::new(), "  codex prompt".to_owned(), "    hello".to_owned()]);
}

#[test]
fn empty_chat_shows_a_notice_and_tail_keeps_the_end() {
    let chat = ChatWidget::new();
    let lines = chat.display_lines(40, 10);
    assert_eq!(lines[0][0].0, "Connected TUI will appear here.");
    let many: Vec<Vec<(String, SpanStyle)>> = (0..5).map(|i| vec![(i.to_string(), SpanStyle::Plain)]).collect();
    let tail = render_history_tail(many, 2);
    assert_eq!(tail, vec![vec![("3".to_owned(), SpanStyle::Plain)], vec![("4".to_owned(), SpanStyle::Plain)]]);
    let separator = HistoryCell::FinalMessageSeparator { label: Some("done".to_owned()) };
    let lines = separator.display_lines(10);
    assert_eq!(lines[0][0].0, "─ done ───");
}

#[test]
fn slash_commands_are_read() {
    assert_eq!(parse_slash_command("/limits"), SlashAction::Usage);
    assert_eq!(parse_slash_command("/deny"), SlashAction::Respond(ApprovalChoice::Deny));
    assert_eq!(parse_slash_command("/model   "), SlashAction::OpenModelPicker);
    assert_eq!(parse_slash_command("/model gpt-5 "), SlashAction::SetModel("gpt-5".to_owned()));
    assert_eq!(parse_slash_command("/cd  ../x"), SlashAction::ChangeDirectory("../x".to_owned()));
    assert_eq!(parse_slash_command("/resume "), SlashAction::Resume(String::new()));
    assert_eq!(parse_slash_command("/nope"), SlashAction::Unknown);
}

#[test]
fn submissions_are_sent_queued_or_run() {
    assert_eq!(decide_submission(String::new(), false, false), Submission::Nothing);
    assert_eq!(decide_submission("/help".to_owned(), true, false), Submission::Command("/help".to_owned()));
    assert_eq!(decide_submission("hi".to_owned(), true, false), Submission::Queue("hi".to_owned()));
    assert_eq!(decide_submission("hi".to_owned(), false, false), Submission::Send("hi".to_owned()));
}

#[test]
fn command_guards() {
    assert_eq!(review_target(true, &Some("t".to_owned())), Err("Cannot start review while Codex is responding."));
    assert_eq!(review_target(false, &None), Err("No active Codex thread."));
    assert_eq!(resume_refusal("", false), Some("Usage: /resume <thread-id>"));
    assert_eq!(interrupt_target(&Some("t".to_owned()), &None), Err("No active Codex turn to interrupt."));
    assert_eq!(cd_target("/work", "", Some("/home/u")), Err("Usage: /cd <path>".to_owned()));
    assert_eq!(cd_target("/work", "~", Some("/home/u")), Ok("/home/u".to_owned()));
    assert_eq!(cd_target("/work", "~/src", Some("/home/u")), Ok("/home/u/src".to_owned()));
    assert_eq!(cd_target("/work", "~/src", None), Err("HOME is not set".to_owned()));
    assert_eq!(cd_target("/work", "lib", None), Ok("/work/lib".to_owned()));
    assert_eq!(cd_target("/work", "/etc", None), Ok("/etc".to_owned()));
    assert_eq!(model_changed_message("gpt-5", Some("xhigh")), "Model changed to gpt-5 with extra high reasoning.");
    assert_eq!(model_changed_message("gpt-5", None), "Model changed to gpt-5.");
}

#[test]
fn keys_follow_the_picker_and_the_composer() {
    assert_eq!(key_action(Key::Char('3'), false, false, true, false, true, false), KeyAction::PickerNumber(3));
    assert_eq!(key_action(Key::Char('x'), false, false, true, false, true, false), KeyAction::Ignore);
    assert_eq!(key_action(Key::Char('c'), true, false, false, false, true, true), KeyAction::Interrupt);
    assert_eq!(key_action(Key::Char('c'), true, false, false, false, true, false), KeyAction::Quit);
    assert_eq!(key_action(Key::Esc, false, false, false, false, false, false), KeyAction::ClearInput);
    assert_eq!(key_action(Key::Enter, false, true, false, false, false, false), KeyAction::InsertNewline);
    assert_eq!(key_action(Key::Char('é'), false, false, false, false, false, false), KeyAction::Insert('é'));
}

#[test]
fn dashboard_texts() {
    assert_eq!(model_summary(&None, &Some("high".to_owned())), "model pending high");
    assert_eq!(model_summary(&Some("m".to_owned()), &Some("low".to_owned())), "m low");
    assert_eq!(remaining_percent(Some(130)), 0);
    assert_eq!(remaining_percent(Some(25)), 75);
    assert_eq!(gauge_title("5h limit", Some(25)), "5h limit 75%");
    assert_eq!(gauge_title("weekly limit", None), "weekly limit pending");
    assert_eq!(fill_width(40, 75), 30);
    assert_eq!(limit_color(Some(95)), LimitColor::Red);
    assert_eq!(limit_color(Some(70)), LimitColor::Yellow);
    assert_eq!(limit_color(Some(10)), LimitColor::Green);
    assert_eq!(account_line(&None), "Codex auth: unknown");
}

#[test]
fn popup_keys_and_translator_keys() {
    assert_eq!(key_action(Key::Tab, false, false, false, true, false, false), KeyAction::SlashComplete);
    assert_eq!(key_action(Key::Up, false, false, false, true, false, false), KeyAction::SlashUp);
    assert_eq!(key_action(Key::Down, false, false, false, true, false, false), KeyAction::SlashDown);
    assert_eq!(key_action(Key::Tab, false, false, false, false, false, false), KeyAction::Ignore);
    assert_eq!(key_action(Key::Esc, false, false, false, true, false, false), KeyAction::SlashDismiss);
    assert_eq!(key_action(Key::Enter, false, false, false, true, false, false), KeyAction::SlashAccept);
    assert_eq!(key_action(Key::Enter, false, true, false, true, false, false), KeyAction::InsertNewline);
    assert_eq!(translator_key(Key::Char('2'), false, false), TranslatorKey::Number(2));
    assert_eq!(translator_key(Key::Char('2'), false, true), TranslatorKey::Type('2'));
    assert_eq!(translator_key(Key::Char('v'), true, true), TranslatorKey::Ignore);
    assert_eq!(translator_key(Key::Backspace, false, true), TranslatorKey::Erase);
    assert_eq!(translator_key(Key::Backspace, false, false), TranslatorKey::Ignore);
    assert_eq!(translator_key(Key::Esc, false, true), TranslatorKey::Back);
}

#[test]
fn wide_characters_take_two_columns() {
    assert_eq!(truncate_to_width("한글abc", 3), "한");
    assert_eq!(truncate_to_width("a한b", 3), "a한");
}

#[test]
fn long_transcript_lines_wrap_at_the_width() {
    let mut chat = ChatWidget::new();
    chat.push_system("alpha beta gamma delta".to_owned());
    let lines = chat.display_lines(20, 100);
    let texts: Vec<String> = lines.iter().map(|l| l.iter().map(|(t, _)| t.as_str()).collect()).collect();
    assert_eq!(texts, vec!["system  alpha beta".to_owned(), "        gamma delta".to_owned()]);
}

#[test]
fn local_list_numbers_pick_in_a_row() {
    let mut p = TranslatorPicker::new();
    assert!(p.accept().is_none());
    assert!(matches!(
        p.select_number(1),
        Some(TranslatorPickerAction::SelectedLocal(TranslatorProviderSelection::Ollama))
    ));
    assert!(matches!(
        p.select_number(2),
        Some(TranslatorPickerAction::SelectedLocal(TranslatorProviderSelection::LocalOpenAiCompatible))
    ));
    assert!(matches!(
        p.select_number(3),
        Some(TranslatorPickerAction::SelectedLocal(TranslatorProviderSelection::Noop))
    ));
    assert!(p.select_number(4).is_none());
    assert!(p.select_number(0).is_none());
    assert_eq!(p.selected_row(), 2);
}

#[test]
fn popup_lists_commands_by_name_prefix() {
    let popup = SlashCommandPopup::new("/");
    assert_eq!(popup.filtered().len(), commands().len());
    let popup = SlashCommandPopup::new("/re");
    let names: Vec<&str> = popup.filtered().iter().map(|c| c.name).collect();
    assert_eq!(names, vec!["review", "resume"]);
    let popup = SlashCommandPopup::new("/zzz");
    assert!(popup.filtered().is_empty());
    assert_eq!(popup.selected_row(), 0);
}

#[test]
fn completing_and_accepting_a_command_put_the_cursor_at_the_end() {
    let mut pane = BottomPane::new();
    pane.set_input("/mo".to_owned());
    pane.complete_slash_command();
    assert_eq!(pane.input(), "/model ");
    assert!(pane.slash_popup().is_none());
    assert_eq!(pane.cursor_pos(Area { x: 0, y: 0, width: 40, height: 10 }), (2 + 7, 1));
    let mut pane = BottomPane::new();
    pane.set_input("/st".to_owned());
    assert!(pane.accept_slash_command());
    assert_eq!(pane.input(), "/status");
    assert!(pane.slash_popup().is_none());
    pane.insert_char('!');
    assert_eq!(pane.input(), "/status!");
}

#[test]
fn stream_keeps_every_delta_across_commits() {
    let mut stream = AssistantStream::new();
    stream.start();
    stream.push_delta("a");
    stream.commit_pending();
    stream.push_delta("b");
    stream.push_delta("c");
    stream.commit_pending();
    stream.commit_pending();
    stream.push_delta("d");
    assert_eq!(stream.take_finished_or_active(), Some("abcd".to_owned()));
    assert!(!stream.is_active());
    assert!(stream.active_cell().is_none());
    assert_eq!(stream.take_finished_or_active(), None);
}
