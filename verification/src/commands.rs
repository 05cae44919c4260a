//! What a submitted input asks for: a slash command, a prompt to send or
//! to queue, and the texts the commands report.

use crate::config::{join_path, path_join};
use crate::events::{thread_list_line, ApprovalChoice};
use crate::json::{json_array, json_get, Json};
use crate::model_picker::{effort_label_spec, reasoning_effort_label};
use crate::text::{
    ascii_lower, chars_of, opt_chars, opt_str_chars, owned, push_str, starts_with, str_eq, trim,
    trim_str,
};
use vstd::prelude::*;

verus! {

/// The command list `/help` shows.
pub const HELP_TEXT: &'static str = "Commands: /help, /status, /account, /usage, /limits, /diff, /model, /model <name>, /cd <path>, /list, /resume <thread-id>, /review, /compact, /approve, /approve-session, /deny, /cancel, /clear, /new, /interrupt, /exit";

/// What a slash command asks for.
#[derive(Debug, PartialEq, Eq)]
pub enum SlashAction {
    Help,
    Status,
    Account,
    Usage,
    Diff,
    Review,
    Compact,
    List,
    Respond(ApprovalChoice),
    Clear,
    New,
    Interrupt,
    Exit,
    /// `/model` (or `/model` with only spaces after it).
    OpenModelPicker,
    /// `/model <name>`.
    SetModel(String),
    /// `/cd <path>` (the path may be empty).
    ChangeDirectory(String),
    /// `/resume <thread-id>` (the id may be empty).
    Resume(String),
    /// `/translator`.
    OpenTranslatorPicker,
    /// `/translator ...`: the whole command.
    Translator(String),
    Unknown,
}

/// `command` with every leading `prefix` removed, then trimmed.
pub open spec fn argument_after(command: Seq<char>, prefix: Seq<char>) -> Seq<char> {
    trim(crate::settings::strip_all_prefixes(command, prefix))
}

/// The exact commands and what they ask for.
pub open spec fn exact_action(c: Seq<char>) -> Option<SlashAction> {
    if c == "/help"@ {
        Some(SlashAction::Help)
    } else if c == "/status"@ {
        Some(SlashAction::Status)
    } else if c == "/account"@ {
        Some(SlashAction::Account)
    } else if c == "/usage"@ || c == "/limits"@ {
        Some(SlashAction::Usage)
    } else if c == "/diff"@ {
        Some(SlashAction::Diff)
    } else if c == "/review"@ {
        Some(SlashAction::Review)
    } else if c == "/compact"@ {
        Some(SlashAction::Compact)
    } else if c == "/list"@ {
        Some(SlashAction::List)
    } else if c == "/approve"@ {
        Some(SlashAction::Respond(ApprovalChoice::Approve))
    } else if c == "/approve-session"@ {
        Some(SlashAction::Respond(ApprovalChoice::ApproveForSession))
    } else if c == "/deny"@ {
        Some(SlashAction::Respond(ApprovalChoice::Deny))
    } else if c == "/cancel"@ {
        Some(SlashAction::Respond(ApprovalChoice::Cancel))
    } else if c == "/clear"@ {
        Some(SlashAction::Clear)
    } else if c == "/new"@ {
        Some(SlashAction::New)
    } else if c == "/interrupt"@ {
        Some(SlashAction::Interrupt)
    } else if c == "/exit"@ || c == "/quit"@ {
        Some(SlashAction::Exit)
    } else if c == "/model"@ {
        Some(SlashAction::OpenModelPicker)
    } else if c == "/translator"@ {
        Some(SlashAction::OpenTranslatorPicker)
    } else {
        None
    }
}

/// The exact commands, matched in order.
fn exact(c: &str) -> (r: Option<SlashAction>)
    ensures
        r == exact_action(c@),
{
    if str_eq(c, "/help") {
        Some(SlashAction::Help)
    } else if str_eq(c, "/status") {
        Some(SlashAction::Status)
    } else if str_eq(c, "/account") {
        Some(SlashAction::Account)
    } else if str_eq(c, "/usage") || str_eq(c, "/limits") {
        Some(SlashAction::Usage)
    } else if str_eq(c, "/diff") {
        Some(SlashAction::Diff)
    } else if str_eq(c, "/review") {
        Some(SlashAction::Review)
    } else if str_eq(c, "/compact") {
        Some(SlashAction::Compact)
    } else if str_eq(c, "/list") {
        Some(SlashAction::List)
    } else if str_eq(c, "/approve") {
        Some(SlashAction::Respond(ApprovalChoice::Approve))
    } else if str_eq(c, "/approve-session") {
        Some(SlashAction::Respond(ApprovalChoice::ApproveForSession))
    } else if str_eq(c, "/deny") {
        Some(SlashAction::Respond(ApprovalChoice::Deny))
    } else if str_eq(c, "/cancel") {
        Some(SlashAction::Respond(ApprovalChoice::Cancel))
    } else if str_eq(c, "/clear") {
        Some(SlashAction::Clear)
    } else if str_eq(c, "/new") {
        Some(SlashAction::New)
    } else if str_eq(c, "/interrupt") {
        Some(SlashAction::Interrupt)
    } else if str_eq(c, "/exit") || str_eq(c, "/quit") {
        Some(SlashAction::Exit)
    } else if str_eq(c, "/model") {
        Some(SlashAction::OpenModelPicker)
    } else if str_eq(c, "/translator") {
        Some(SlashAction::OpenTranslatorPicker)
    } else {
        None
    }
}

/// Reads a submitted slash command: an exact command; else `/model
/// <name>` (the picker when the name is blank), `/cd <path>`, `/resume
/// <id>`, `/translator ...`; anything else is unknown.
pub fn parse_slash_command(command: &str) -> (r: SlashAction)
    ensures
        exact_action(command@) matches Some(a) ==> r == a,
        exact_action(command@) is None && "/model "@.is_prefix_of(command@) ==> {
            let name = argument_after(command@, "/model "@);
            &&& name.len() == 0 ==> r == SlashAction::OpenModelPicker
            &&& name.len() > 0 ==> (r matches SlashAction::SetModel(m) && m@ == name)
        },
        exact_action(command@) is None && !"/model "@.is_prefix_of(command@) && "/cd "@.is_prefix_of(
            command@,
        ) ==> (r matches SlashAction::ChangeDirectory(p) && p@ == argument_after(
            command@,
            "/cd "@,
        )),
        exact_action(command@) is None && !"/model "@.is_prefix_of(command@) && !"/cd "@.is_prefix_of(
            command@,
        ) && "/resume "@.is_prefix_of(command@) ==> (r matches SlashAction::Resume(t) && t@
            == argument_after(command@, "/resume "@)),
        exact_action(command@) is None && !"/model "@.is_prefix_of(command@) && !"/cd "@.is_prefix_of(
            command@,
        ) && !"/resume "@.is_prefix_of(command@) && "/translator "@.is_prefix_of(command@) ==> (
        r matches SlashAction::Translator(t) && t@ == command@),
        exact_action(command@) is None && !"/model "@.is_prefix_of(command@) && !"/cd "@.is_prefix_of(
            command@,
        ) && !"/resume "@.is_prefix_of(command@) && !"/translator "@.is_prefix_of(command@) ==> r
            == SlashAction::Unknown,
{
    match exact(command) {
        Some(a) => a,
        None => {
            if starts_with(command, "/model ") {
                let stripped = crate::settings::trim_start_matches(command, "/model ");
                let name = trim_str(stripped.as_str());
                if name.as_str().unicode_len() == 0 {
                    SlashAction::OpenModelPicker
                } else {
                    SlashAction::SetModel(name)
                }
            } else if starts_with(command, "/cd ") {
                let stripped = crate::settings::trim_start_matches(command, "/cd ");
                SlashAction::ChangeDirectory(trim_str(stripped.as_str()))
            } else if starts_with(command, "/resume ") {
                let stripped = crate::settings::trim_start_matches(command, "/resume ");
                SlashAction::Resume(trim_str(stripped.as_str()))
            } else if starts_with(command, "/translator ") {
                SlashAction::Translator(owned(command))
            } else {
                SlashAction::Unknown
            }
        },
    }
}

/// The note for an unknown command.
pub fn unknown_command_text(command: &str) -> (r: String)
    ensures
        r@ == "Unknown command: "@ + command@ + "\nType /help for commands."@,
{
    let mut r = owned("Unknown command: ");
    push_str(&mut r, command);
    push_str(&mut r, "\nType /help for commands.");
    r
}

/// What the composer does with a submitted (trimmed) input.
#[derive(Debug, PartialEq, Eq)]
pub enum Submission {
    /// Nothing was typed.
    Nothing,
    /// A slash command.
    Command(String),
    /// Codex is busy: the prompt waits in the queue.
    Queue(String),
    /// The prompt goes to Codex now.
    Send(String),
}

/// Decides what a submitted input does: nothing when empty, a command when
/// it starts with `/`, queued while a turn runs or an approval waits, sent
/// otherwise.
pub fn decide_submission(prompt: String, turn_active: bool, approval_pending: bool) -> (r: Submission)
    ensures
        prompt@.len() == 0 ==> r == Submission::Nothing,
        prompt@.len() > 0 && prompt@[0] == '/' ==> r == Submission::Command(prompt),
        prompt@.len() > 0 && prompt@[0] != '/' && (turn_active || approval_pending) ==> r
            == Submission::Queue(prompt),
        prompt@.len() > 0 && prompt@[0] != '/' && !turn_active && !approval_pending ==> r
            == Submission::Send(prompt),
{
    let v = chars_of(prompt.as_str());
    if v.len() == 0 {
        Submission::Nothing
    } else if v[0] == '/' {
        Submission::Command(prompt)
    } else if turn_active || approval_pending {
        Submission::Queue(prompt)
    } else {
        Submission::Send(prompt)
    }
}

/// The note after a model was picked: the model, and the effort's label in
/// lower case when there is one.
pub open spec fn model_changed_spec(model: Seq<char>, effort: Option<Seq<char>>) -> Seq<char> {
    let effort_text = match effort {
        Some(e) => " with "@ + ascii_lower(effort_label_spec(e)) + " reasoning"@,
        None => Seq::empty(),
    };
    "Model changed to "@ + model + effort_text + "."@
}

/// The note after a model was picked.
pub fn model_changed_message(model: &str, effort: Option<&str>) -> (r: String)
    ensures
        r@ == model_changed_spec(model@, opt_str_chars(effort)),
{
    let mut r = owned("Model changed to ");
    push_str(&mut r, model);
    match effort {
        Some(e) => {
            push_str(&mut r, " with ");
            let label = reasoning_effort_label(e);
            let chars = chars_of(label);
            let lower = crate::text::string_from_chars(&crate::text::chars_to_ascii_lower(&chars));
            push_str(&mut r, lower.as_str());
            push_str(&mut r, " reasoning");
        },
        None => {},
    }
    push_str(&mut r, ".");
    r
}

/// The text `/status` shows.
pub fn status_text(
    account_line: &str,
    thread_id: &Option<String>,
    turn_id: &Option<String>,
    model: &Option<String>,
    effort: &Option<String>,
) -> (r: String)
    ensures
        r@ == account_line@ + "\nthread: "@ + crate::view::text_or(opt_chars(*thread_id), "none"@)
            + "\nactive turn: "@ + crate::view::text_or(opt_chars(*turn_id), "none"@) + "\nmodel: "@
            + crate::view::text_or(opt_chars(*model), "default"@) + "\nreasoning effort: "@
            + crate::view::text_or(opt_chars(*effort), "default"@),
{
    let mut r = owned(account_line);
    push_str(&mut r, "\nthread: ");
    push_opt(&mut r, thread_id, "none");
    push_str(&mut r, "\nactive turn: ");
    push_opt(&mut r, turn_id, "none");
    push_str(&mut r, "\nmodel: ");
    push_opt(&mut r, model, "default");
    push_str(&mut r, "\nreasoning effort: ");
    push_opt(&mut r, effort, "default");
    r
}

/// Appends an optional text, else `default`.
fn push_opt(r: &mut String, o: &Option<String>, default: &str)
    ensures
        final(r)@ == old(r)@ + crate::view::text_or(opt_chars(*o), default@),
{
    match o {
        Some(t) => push_str(r, t.as_str()),
        None => push_str(r, default),
    }
}

/// The directory `/cd` asks for, before it is checked on disk: `~` is the
/// home directory, `~/rest` is under it, an absolute path stays, and a
/// relative one is under the current directory.
pub open spec fn cd_target_spec(current: Seq<char>, path: Seq<char>, home: Option<Seq<char>>) -> Result<
    Seq<char>,
    Seq<char>,
> {
    if path.len() == 0 {
        Err("Usage: /cd <path>"@)
    } else if path == "~"@ {
        match home {
            Some(h) => Ok(h),
            None => Err("HOME is not set"@),
        }
    } else if "~/"@.is_prefix_of(path) {
        match home {
            Some(h) => {
                let rest = path.skip(2);
                if rest.len() > 0 && rest[0] == '/' {
                    Ok(rest)
                } else {
                    Ok(path_join(h, rest))
                }
            },
            None => Err("HOME is not set"@),
        }
    } else if path[0] == '/' {
        Ok(path)
    } else {
        Ok(path_join(current, path))
    }
}

/// The directory `/cd` asks for (the caller checks it is a directory and
/// resolves it).
pub fn cd_target(current: &str, path: &str, home: Option<&str>) -> (r: Result<String, String>)
    ensures
        match cd_target_spec(current@, path@, opt_str_chars(home)) {
            Ok(p) => r matches Ok(q) && q@ == p,
            Err(e) => r matches Err(m) && m@ == e,
        },
{
    let v = chars_of(path);
    if v.len() == 0 {
        return Err(owned("Usage: /cd <path>"));
    }
    proof {
        reveal_strlit("~");
        reveal_strlit("~/");
    }
    if str_eq(path, "~") {
        return match home {
            Some(h) => Ok(owned(h)),
            None => Err(owned("HOME is not set")),
        };
    }
    if starts_with(path, "~/") {
        return match home {
            Some(h) => {
                let rest = crate::text::string_from_range(&v, 2, v.len());
                assert(rest@ =~= path@.skip(2));
                if v.len() > 2 && v[2] == '/' {
                    Ok(rest)
                } else {
                    Ok(join_path(h, rest.as_str()))
                }
            },
            None => Err(owned("HOME is not set")),
        };
    }
    if v[0] == '/' {
        Ok(owned(path))
    } else {
        Ok(join_path(current, path))
    }
}

/// The note `/cd` gives for a path that is not a directory.
pub fn not_a_directory_text(path: &str) -> (r: String)
    ensures
        r@ == "Not a directory: "@ + path@,
{
    let mut r = owned("Not a directory: ");
    push_str(&mut r, path);
    r
}

/// The lines of the thread list, joined by newlines.
pub open spec fn joined_lines(lines: Seq<Seq<char>>) -> Seq<char>
    decreases lines.len(),
{
    if lines.len() == 0 {
        Seq::empty()
    } else if lines.len() == 1 {
        lines[0]
    } else {
        joined_lines(lines.drop_last()) + seq!['\n'] + lines.last()
    }
}

/// The text `/list` shows for a `thread/list` result: the threads' lines,
/// or `(no threads)`.
pub fn threads_text(result: &Json) -> (r: String)
    ensures
        ({
            let body = match json_get(*result, "data"@) {
                Some(d) => match json_array(d) {
                    Some(items) => joined_lines(
                        Seq::new(
                            items.len(),
                            |i: int| crate::events::thread_list_line_spec(items[i]),
                        ),
                    ),
                    None => Seq::empty(),
                },
                None => Seq::empty(),
            };
            r@ == "Recent Codex threads:\n"@ + (if body.len() == 0 {
                "(no threads)"@
            } else {
                body
            })
        }),
{
    let mut body = String::new();
    match result.get("data") {
        Some(d) => match d.as_array() {
            Some(items) => {
                let ghost lines = Seq::new(
                    items@.len(),
                    |i: int| crate::events::thread_list_line_spec(items@[i]),
                );
                let mut i: usize = 0;
                assert(lines.take(0) =~= Seq::<Seq<char>>::empty());
                while i < items.len()
                    invariant
                        lines == Seq::new(
                            items@.len(),
                            |i: int| crate::events::thread_list_line_spec(items@[i]),
                        ),
                        i <= items@.len(),
                        body@ == joined_lines(lines.take(i as int)),
                    decreases items.len() - i,
                {
                    let line = thread_list_line(&items[i]);
                    assert(lines.take(i + 1).drop_last() =~= lines.take(i as int));
                    if i > 0 {
                        crate::text::push_char(&mut body, '\n');
                    }
                    push_str(&mut body, line.as_str());
                    assert(lines.take(i + 1).last() == line@);
                    i = i + 1;
                }
                assert(lines.take(i as int) =~= lines);
            },
            None => {},
        },
        None => {},
    }
    let mut r = owned("Recent Codex threads:\n");
    if body.as_str().unicode_len() == 0 {
        push_str(&mut r, "(no threads)");
    } else {
        push_str(&mut r, body.as_str());
    }
    r
}

/// The text `/diff` shows.
pub fn diff_text(status: &str, diff: &str) -> (r: String)
    ensures
        r@ == "git status --short\n"@ + status@ + "\n\ngit diff --stat\n"@ + diff@,
{
    let mut r = owned("git status --short\n");
    push_str(&mut r, status);
    push_str(&mut r, "\n\ngit diff --stat\n");
    push_str(&mut r, diff);
    r
}

/// The thread a turn-starting command works on: refused while a turn runs
/// (with `busy`) or without a thread.
pub fn thread_for_new_turn(
    turn_active: bool,
    thread_id: &Option<String>,
    busy: &'static str,
) -> (r: Result<String, &'static str>)
    ensures
        turn_active ==> r == Err::<String, &'static str>(busy),
        !turn_active && thread_id.is_none() ==> (r matches Err(m) && m@ == "No active Codex thread."@),
        !turn_active && thread_id.is_some() ==> (r matches Ok(t) && t@ == thread_id.unwrap()@),
{
    if turn_active {
        return Err(busy);
    }
    match thread_id {
        Some(t) => Ok(t.clone()),
        None => Err("No active Codex thread."),
    }
}

/// `/review`: the thread to review, or why not.
pub fn review_target(turn_active: bool, thread_id: &Option<String>) -> (r: Result<String, &'static str>)
    ensures
        turn_active ==> (r matches Err(m) && m@ == "Cannot start review while Codex is responding."@),
        !turn_active && thread_id.is_none() ==> (r matches Err(m) && m@ == "No active Codex thread."@),
        !turn_active && thread_id.is_some() ==> (r matches Ok(t) && t@ == thread_id.unwrap()@),
{
    thread_for_new_turn(turn_active, thread_id, "Cannot start review while Codex is responding.")
}

/// `/compact`: the thread to compact, or why not.
pub fn compact_target(turn_active: bool, thread_id: &Option<String>) -> (r: Result<String, &'static str>)
    ensures
        turn_active ==> (r matches Err(m) && m@ == "Cannot compact while Codex is responding."@),
        !turn_active && thread_id.is_none() ==> (r matches Err(m) && m@ == "No active Codex thread."@),
        !turn_active && thread_id.is_some() ==> (r matches Ok(t) && t@ == thread_id.unwrap()@),
{
    thread_for_new_turn(turn_active, thread_id, "Cannot compact while Codex is responding.")
}

/// `/new`: why a new thread cannot start now, if it cannot.
pub fn new_thread_refusal(turn_active: bool) -> (r: Option<&'static str>)
    ensures
        turn_active ==> (r matches Some(m) && m@
            == "Cannot start a new thread while Codex is responding."@),
        !turn_active ==> r is None,
{
    if turn_active {
        Some("Cannot start a new thread while Codex is responding.")
    } else {
        None
    }
}

/// `/resume <id>`: why the thread cannot be resumed now, if it cannot.
pub fn resume_refusal(thread_id: &str, turn_active: bool) -> (r: Option<&'static str>)
    ensures
        thread_id@.len() == 0 ==> (r matches Some(m) && m@ == "Usage: /resume <thread-id>"@),
        thread_id@.len() > 0 && turn_active ==> (r matches Some(m) && m@
            == "Cannot resume while Codex is responding."@),
        thread_id@.len() > 0 && !turn_active ==> r is None,
{
    if thread_id.unicode_len() == 0 {
        Some("Usage: /resume <thread-id>")
    } else if turn_active {
        Some("Cannot resume while Codex is responding.")
    } else {
        None
    }
}

/// `/interrupt` (and Ctrl-C during a turn): the thread and turn to stop,
/// or why there is none.
pub fn interrupt_target(thread_id: &Option<String>, turn_id: &Option<String>) -> (r: Result<
    (String, String),
    &'static str,
>)
    ensures
        thread_id.is_none() ==> (r matches Err(m) && m@ == "No active Codex thread."@),
        thread_id.is_some() && turn_id.is_none() ==> (r matches Err(m) && m@
            == "No active Codex turn to interrupt."@),
        thread_id.is_some() && turn_id.is_some() ==> (r matches Ok(p) && p.0@
            == thread_id.unwrap()@ && p.1@ == turn_id.unwrap()@),
{
    let thread = match thread_id {
        Some(t) => t.clone(),
        None => return Err("No active Codex thread."),
    };
    match turn_id {
        Some(t) => Ok((thread, t.clone())),
        None => Err("No active Codex turn to interrupt."),
    }
}

/// What answering an approval does.
#[derive(Debug)]
pub enum ApprovalStep {
    /// Nothing waits for an answer.
    NothingPending,
    /// The request is of a kind this client cannot answer; it stays
    /// pending.  The note.
    Unsupported(crate::events::PendingApproval, String),
    /// The answer to send for the request.
    Send(crate::events::PendingApproval, Json),
}

/// Answers the pending approval with `choice`.
pub fn approval_step(pending: Option<crate::events::PendingApproval>, choice: ApprovalChoice) -> (r:
    ApprovalStep)
    ensures
        pending.is_none() ==> r is NothingPending,
        pending matches Some(p) ==> match crate::events::decision_word(p.method@, choice) {
            None => r matches ApprovalStep::Unsupported(q, m) && q == p && m@
                == "Unsupported approval request: "@ + p.method@,
            Some(d) => r matches ApprovalStep::Send(q, j) && q == p
                && crate::json::json_str_at(j, "decision"@) == Some(d),
        },
{
    match pending {
        None => ApprovalStep::NothingPending,
        Some(p) => match crate::events::approval_result(p.method.as_str(), choice) {
            Some(result) => ApprovalStep::Send(p, result),
            None => {
                let mut m = owned("Unsupported approval request: ");
                push_str(&mut m, p.method.as_str());
                ApprovalStep::Unsupported(p, m)
            },
        },
    }
}

/// The note after a thread started, resumed or connected: `what`, the
/// thread id and a full stop.
pub fn thread_note(what: &str, thread_id: &str) -> (r: String)
    ensures
        r@ == what@ + " "@ + thread_id@ + "."@,
{
    let mut r = owned(what);
    push_str(&mut r, " ");
    push_str(&mut r, thread_id);
    push_str(&mut r, ".");
    r
}

/// The note after `/model <name>`.
pub fn model_set_note(model: &str) -> (r: String)
    ensures
        r@ == "Model set to "@ + model@ + ". Applies to the next turn."@,
{
    let mut r = owned("Model set to ");
    push_str(&mut r, model);
    push_str(&mut r, ". Applies to the next turn.");
    r
}

} // verus!
