//! What the terminal does with the messages Codex sends during a session:
//! streamed answers, tool calls, plans, approvals, usage and rate limits.

use crate::format::{decimal, u64_to_decimal};
use crate::json::{
    distinct_keys, jmember, jstr, json_array, json_get, json_str, json_str_at, json_u64,
    lemma_distinct_members, take_member, Json,
};
use crate::protocol::{completed_agent_answer, completed_answer_spec};
use crate::text::opt_chars;
use crate::text::{owned, push_char, push_str, str_eq};
use vstd::prelude::*;

verus! {

/// How much of the five-hour and weekly limits has been used, in percent.
#[derive(Debug, Clone, Copy, PartialEq, Eq, Structural)]
pub struct RateLimitUsage {
    pub five_hour_percent: Option<u16>,
    pub weekly_percent: Option<u16>,
}

impl Default for RateLimitUsage {
    fn default() -> (r: RateLimitUsage)
        ensures
            r.five_hour_percent is None,
            r.weekly_percent is None,
    {
        RateLimitUsage { five_hour_percent: None, weekly_percent: None }
    }
}

/// Token counts of a thread.
#[derive(Debug, Clone, Copy, PartialEq, Eq, Structural)]
pub struct TokenUsage {
    pub input: u64,
    pub cached: u64,
    pub output: u64,
}

/// A server request waiting for the user's approval.
#[derive(Debug)]
pub struct PendingApproval {
    pub id: Json,
    pub method: String,
    pub summary: String,
}

/// The user's answer to an approval request.
#[derive(Debug, Clone, Copy, PartialEq, Eq, Structural)]
pub enum ApprovalChoice {
    Approve,
    ApproveForSession,
    Deny,
    Cancel,
}

// ---------------------------------------------------------------------------
// Rate limits and usage
// ---------------------------------------------------------------------------

/// The used percentage of a rate-limit window, capped at 100.
pub open spec fn window_percent(window: Json) -> Option<u16> {
    match json_get(window, "usedPercent"@) {
        Some(v) => match json_u64(v) {
            Some(p) => Some(if p > 100 { 100u16 } else { p as u16 }),
            None => None,
        },
        None => None,
    }
}

/// `usage` after a window is read: windows of at most five hours count as
/// the five-hour limit, windows of at least a week as the weekly limit,
/// others as the limit the window's position suggests.
pub open spec fn assign_window(
    usage: RateLimitUsage,
    window: Option<Json>,
    fallback_five_hour: bool,
) -> RateLimitUsage {
    match window {
        Some(w) => match window_percent(w) {
            Some(p) => {
                let minutes = match json_get(w, "windowDurationMins"@) {
                    Some(m) => json_u64(m),
                    None => None,
                };
                let five = match minutes {
                    Some(m) => if m <= 300 {
                        true
                    } else if m >= 10080 {
                        false
                    } else {
                        fallback_five_hour
                    },
                    None => fallback_five_hour,
                };
                if five {
                    RateLimitUsage { five_hour_percent: Some(p), ..usage }
                } else {
                    RateLimitUsage { weekly_percent: Some(p), ..usage }
                }
            },
            None => usage,
        },
        None => usage,
    }
}

/// The rate-limit object of a message: `rateLimits` when present.
pub open spec fn rate_limits_object(params: Json) -> Json {
    match json_get(params, "rateLimits"@) {
        Some(r) => r,
        None => params,
    }
}

/// The usage read from the `primary` and then the `secondary` window.
pub open spec fn rate_limit_usage_spec(params: Json) -> Option<RateLimitUsage> {
    let rl = rate_limits_object(params);
    let usage = assign_window(
        assign_window(
            RateLimitUsage { five_hour_percent: None, weekly_percent: None },
            json_get(rl, "primary"@),
            true,
        ),
        json_get(rl, "secondary"@),
        false,
    );
    if usage.five_hour_percent is Some || usage.weekly_percent is Some {
        Some(usage)
    } else {
        None
    }
}

/// The used percentage of a window, capped at 100.
pub fn limit_window_percent(window: &Json) -> (r: Option<u16>)
    ensures
        r == window_percent(*window),
        r matches Some(p) ==> p <= 100,
{
    match window.get("usedPercent") {
        Some(v) => match v.as_u64() {
            Some(p) => Some(
                if p > 100 {
                    100u16
                } else {
                    p as u16
                },
            ),
            None => None,
        },
        None => None,
    }
}

/// Records one rate-limit window in `usage`.
pub fn assign_rate_limit_window(
    usage: &mut RateLimitUsage,
    window: Option<&Json>,
    fallback_five_hour: bool,
)
    ensures
        *final(usage) == assign_window(
            *old(usage),
            match window {
                Some(w) => Some(*w),
                None => None,
            },
            fallback_five_hour,
        ),
{
    let w = match window {
        Some(w) => w,
        None => {
            return;
        },
    };
    let percent = match limit_window_percent(w) {
        Some(p) => p,
        None => {
            return;
        },
    };
    let minutes = match w.get("windowDurationMins") {
        Some(m) => m.as_u64(),
        None => None,
    };
    let five = match minutes {
        Some(m) => if m <= 300 {
            true
        } else if m >= 10080 {
            false
        } else {
            fallback_five_hour
        },
        None => fallback_five_hour,
    };
    if five {
        usage.five_hour_percent = Some(percent);
    } else {
        usage.weekly_percent = Some(percent);
    }
}

/// The rate limits in an `account/rateLimits` message, if it reports any.
pub fn rate_limit_usage(params: &Json) -> (r: Option<RateLimitUsage>)
    ensures
        r == rate_limit_usage_spec(*params),
        r matches Some(u) ==> (u.five_hour_percent matches Some(p) ==> p <= 100) && (
        u.weekly_percent matches Some(p) ==> p <= 100),
{
    let rl = match params.get("rateLimits") {
        Some(r) => r,
        None => params,
    };
    let mut usage = RateLimitUsage::default();
    assign_rate_limit_window(&mut usage, rl.get("primary"), true);
    assign_rate_limit_window(&mut usage, rl.get("secondary"), false);
    if usage.five_hour_percent.is_some() || usage.weekly_percent.is_some() {
        Some(usage)
    } else {
        None
    }
}

/// `Ready.` when the message reports rate limits.
pub fn rate_limit_summary(params: &Json) -> (r: Option<String>)
    ensures
        r is Some <==> rate_limit_usage_spec(*params) is Some,
        r matches Some(s) ==> s@ == "Ready."@,
{
    match rate_limit_usage(params) {
        Some(_) => Some(owned("Ready.")),
        None => None,
    }
}

/// The token totals of a `thread/tokenUsage/updated` message.
pub open spec fn token_usage_spec(params: Json) -> Option<TokenUsage> {
    match json_get(params, "tokenUsage"@) {
        Some(tu) => match json_get(tu, "total"@) {
            Some(total) => {
                let input = match json_get(total, "inputTokens"@) {
                    Some(v) => json_u64(v),
                    None => None,
                };
                let output = match json_get(total, "outputTokens"@) {
                    Some(v) => json_u64(v),
                    None => None,
                };
                let cached = match json_get(total, "cachedInputTokens"@) {
                    Some(v) => match json_u64(v) {
                        Some(c) => c,
                        None => 0,
                    },
                    None => 0,
                };
                match (input, output) {
                    (Some(i), Some(o)) => Some(TokenUsage { input: i, cached, output: o }),
                    _ => None,
                }
            },
            None => None,
        },
        None => None,
    }
}

/// Token totals are read field by field: the input count from
/// `tokenUsage.total.inputTokens`, the output count from `outputTokens`,
/// and the cached count from `cachedInputTokens` (0 when absent).
pub proof fn lemma_token_usage_fields(
    params: Json,
    usage: Json,
    total: Json,
    input: u64,
    output: u64,
)
    requires
        json_get(params, "tokenUsage"@) == Some(usage),
        json_get(usage, "total"@) == Some(total),
        json_get(total, "inputTokens"@) == Some(Json::Number(Some(input))),
        json_get(total, "outputTokens"@) == Some(Json::Number(Some(output))),
    ensures
        token_usage_spec(params) matches Some(u) && u.input == input && u.output == output,
        json_get(total, "cachedInputTokens"@) is None ==> (token_usage_spec(params) matches Some(u)
            && u.cached == 0),
        json_get(total, "cachedInputTokens"@) matches Some(Json::Number(Some(c))) ==> (
        token_usage_spec(params) matches Some(u) && u.cached == c),
{
}

/// Without an input or an output count there are no totals.
pub proof fn lemma_token_usage_needs_both_counts(params: Json, usage: Json, total: Json)
    requires
        json_get(params, "tokenUsage"@) == Some(usage),
        json_get(usage, "total"@) == Some(total),
        json_get(total, "inputTokens"@) is None || json_get(total, "outputTokens"@) is None,
    ensures
        token_usage_spec(params) is None,
{
}

fn u64_member(value: &Json, key: &str) -> (r: Option<u64>)
    ensures
        r == match json_get(*value, key@) {
            Some(v) => json_u64(v),
            None => None,
        },
{
    match value.get(key) {
        Some(v) => v.as_u64(),
        None => None,
    }
}

/// The token totals of a `thread/tokenUsage/updated` message.
pub fn token_usage_from_params(params: &Json) -> (r: Option<TokenUsage>)
    ensures
        r == token_usage_spec(*params),
{
    let total = match params.get("tokenUsage") {
        Some(tu) => match tu.get("total") {
            Some(t) => t,
            None => {
                return None;
            },
        },
        None => {
            return None;
        },
    };
    let input = u64_member(total, "inputTokens");
    let output = u64_member(total, "outputTokens");
    let cached = match u64_member(total, "cachedInputTokens") {
        Some(c) => c,
        None => 0,
    };
    match (input, output) {
        (Some(i), Some(o)) => Some(TokenUsage { input: i, cached, output: o }),
        _ => None,
    }
}

// ---------------------------------------------------------------------------
// Tool calls and plans
// ---------------------------------------------------------------------------

/// The string of `item.first`, or of `item.second` when `first` is absent
/// (a present `first` that is not a string gives nothing).
pub open spec fn str_or_fallback(item: Json, first: Seq<char>, second: Seq<char>) -> Option<
    Seq<char>,
> {
    match json_get(item, first) {
        Some(v) => json_str(v),
        None => json_str_at(item, second),
    }
}

/// The label and text shown for a tool item; `started` picks the wording.
pub open spec fn tool_summary_spec(params: Json, started: bool) -> Option<(Seq<char>, Seq<char>)> {
    match json_get(params, "item"@) {
        Some(item) => match json_str_at(item, "type"@) {
            Some(t) => if t == "commandExecution"@ {
                Some(
                    (
                        "exec"@,
                        match json_str_at(item, "command"@) {
                            Some(c) => c,
                            None => if started {
                                "command started"@
                            } else {
                                "command completed"@
                            },
                        },
                    ),
                )
            } else if t == "fileChange"@ {
                Some(
                    (
                        "patch"@,
                        if started {
                            "file change started"@
                        } else {
                            "file change completed"@
                        },
                    ),
                )
            } else if t == "tool"@ || t == "mcpToolCall"@ || t == "dynamicToolCall"@ {
                Some(
                    (
                        "tool"@,
                        match str_or_fallback(item, "tool"@, "name"@) {
                            Some(n) => n,
                            None => if started {
                                "tool call started"@
                            } else {
                                "tool call completed"@
                            },
                        },
                    ),
                )
            } else {
                None
            },
            None => None,
        },
        None => None,
    }
}

fn str_member_or_fallback(item: &Json, first: &str, second: &str) -> (r: Option<String>)
    ensures
        opt_chars(r) == str_or_fallback(*item, first@, second@),
{
    match item.get(first) {
        Some(v) => match v.as_str() {
            Some(s) => Some(owned(s)),
            None => None,
        },
        None => item.str_at(second),
    }
}

fn tool_summary(params: &Json, started: bool) -> (r: Option<(String, String)>)
    ensures
        match tool_summary_spec(*params, started) {
            Some(p) => r matches Some(q) && q.0@ == p.0 && q.1@ == p.1,
            None => r is None,
        },
{
    let item = match params.get("item") {
        Some(item) => item,
        None => {
            return None;
        },
    };
    let kind = match item.get("type") {
        Some(t) => match t.as_str() {
            Some(s) => s,
            None => {
                return None;
            },
        },
        None => {
            return None;
        },
    };
    if str_eq(kind, "commandExecution") {
        let text = match item.str_at("command") {
            Some(c) => c,
            None => if started {
                owned("command started")
            } else {
                owned("command completed")
            },
        };
        Some((owned("exec"), text))
    } else if str_eq(kind, "fileChange") {
        let text = if started {
            owned("file change started")
        } else {
            owned("file change completed")
        };
        Some((owned("patch"), text))
    } else if str_eq(kind, "tool") || str_eq(kind, "mcpToolCall") || str_eq(
        kind,
        "dynamicToolCall",
    ) {
        let text = match str_member_or_fallback(item, "tool", "name") {
            Some(n) => n,
            None => if started {
                owned("tool call started")
            } else {
                owned("tool call completed")
            },
        };
        Some((owned("tool"), text))
    } else {
        None
    }
}

/// The label and text shown when a tool item starts.
pub fn started_tool_summary(params: &Json) -> (r: Option<(String, String)>)
    ensures
        match tool_summary_spec(*params, true) {
            Some(p) => r matches Some(q) && q.0@ == p.0 && q.1@ == p.1,
            None => r is None,
        },
{
    tool_summary(params, true)
}

/// The label and text shown when a tool item completes.
pub fn completed_tool_summary(params: &Json) -> (r: Option<(String, String)>)
    ensures
        match tool_summary_spec(*params, false) {
            Some(p) => r matches Some(q) && q.0@ == p.0 && q.1@ == p.1,
            None => r is None,
        },
{
    tool_summary(params, false)
}

/// One plan line: `<n>. [<status>] <text>`.
pub open spec fn plan_line(n: nat, step: Json) -> Seq<char> {
    let text = match str_or_fallback(step, "text"@, "step"@) {
        Some(t) => t,
        None => "(step)"@,
    };
    let status = match json_str_at(step, "status"@) {
        Some(s) => s,
        None => "pending"@,
    };
    decimal(n) + ". ["@ + status + "] "@ + text
}

/// The first `k` plan lines joined by newlines.
pub open spec fn plan_text(steps: Seq<Json>, k: nat) -> Seq<char>
    decreases k,
{
    if k == 0 {
        seq![]
    } else if k == 1 {
        plan_line(1, steps[0])
    } else {
        plan_text(steps, (k - 1) as nat) + "\n"@ + plan_line(k, steps[k - 1])
    }
}

/// The plan of a `turn/plan/updated` message as numbered lines; nothing
/// for a missing or empty plan.
pub fn format_plan(params: &Json) -> (r: Option<String>)
    ensures
        match json_get(*params, "plan"@) {
            Some(p) => match json_array(p) {
                Some(steps) => if steps.len() == 0 {
                    r is None
                } else {
                    r matches Some(s) && s@ == plan_text(steps, steps.len())
                },
                None => r is None,
            },
            None => r is None,
        },
{
    let steps = match params.get("plan") {
        Some(p) => match p.as_array() {
            Some(steps) => steps,
            None => {
                return None;
            },
        },
        None => {
            return None;
        },
    };
    if steps.len() == 0 {
        return None;
    }
    let mut out = String::new();
    let mut i: usize = 0;
    while i < steps.len()
        invariant
            i <= steps@.len(),
            out@ == plan_text(steps@, i as nat),
        decreases steps.len() - i,
    {
        let step = &steps[i];
        if i > 0 {
            push_str(&mut out, "\n");
        }
        let number = u64_to_decimal((i + 1) as u64);
        let text = match str_member_or_fallback(step, "text", "step") {
            Some(t) => t,
            None => owned("(step)"),
        };
        let status = match step.str_at("status") {
            Some(s) => s,
            None => owned("pending"),
        };
        let ghost before = out@;
        push_str(&mut out, number.as_str());
        push_str(&mut out, ". [");
        push_str(&mut out, status.as_str());
        push_str(&mut out, "] ");
        push_str(&mut out, text.as_str());
        proof {
            if i == 0 {
                assert(out@ =~= plan_line(1, steps@[0]));
            } else {
                assert(out@ =~= before + plan_line((i + 1) as nat, steps@[i as int]));
            }
        }
        i = i + 1;
    }
    Some(out)
}

// ---------------------------------------------------------------------------
// Approvals
// ---------------------------------------------------------------------------

/// The string at `key`, or `default`.
pub open spec fn str_or(params: Json, key: Seq<char>, default: Seq<char>) -> Seq<char> {
    match json_str_at(params, key) {
        Some(s) => s,
        None => default,
    }
}

fn str_member_or(params: &Json, key: &str, default: &str) -> (r: String)
    ensures
        r@ == str_or(*params, key@, default@),
{
    match params.str_at(key) {
        Some(s) => s,
        None => owned(default),
    }
}

/// What a command approval request shows.
pub open spec fn command_approval_text(params: Json) -> Seq<char> {
    let base = "command: "@ + str_or(params, "command"@, "(command unavailable)"@) + "\ncwd: "@
        + str_or(params, "cwd"@, "(cwd unknown)"@);
    let reason = str_or(params, "reason"@, seq![]);
    if reason.len() == 0 {
        base
    } else {
        base + "\nreason: "@ + reason
    }
}

/// The summary of a command approval request.
pub fn command_approval_summary(params: &Json) -> (r: String)
    ensures
        r@ == command_approval_text(*params),
{
    let command = str_member_or(params, "command", "(command unavailable)");
    let cwd = str_member_or(params, "cwd", "(cwd unknown)");
    let reason = str_member_or(params, "reason", "");
    let mut s = owned("command: ");
    push_str(&mut s, command.as_str());
    push_str(&mut s, "\ncwd: ");
    push_str(&mut s, cwd.as_str());
    if reason.as_str().unicode_len() > 0 {
        push_str(&mut s, "\nreason: ");
        push_str(&mut s, reason.as_str());
    }
    proof {
        reveal_strlit("");
    }
    s
}

/// What a file change approval request shows.
pub open spec fn file_approval_text(params: Json) -> Seq<char> {
    "file change item: "@ + str_or(params, "itemId"@, "(item unknown)"@) + "\nreason: "@ + str_or(
        params,
        "reason"@,
        seq![],
    ) + "\ngrant root: "@ + str_or(params, "grantRoot"@, seq![])
}

/// The summary of a file change approval request.
pub fn file_approval_summary(params: &Json) -> (r: String)
    ensures
        r@ == file_approval_text(*params),
{
    proof {
        reveal_strlit("");
    }
    let item = str_member_or(params, "itemId", "(item unknown)");
    let reason = str_member_or(params, "reason", "");
    let root = str_member_or(params, "grantRoot", "");
    let mut s = owned("file change item: ");
    push_str(&mut s, item.as_str());
    push_str(&mut s, "\nreason: ");
    push_str(&mut s, reason.as_str());
    push_str(&mut s, "\ngrant root: ");
    push_str(&mut s, root.as_str());
    s
}

/// The string items of `parts` joined by single spaces.
pub open spec fn join_strings(parts: Seq<Json>) -> Seq<char>
    decreases parts.len(),
{
    if parts.len() == 0 {
        seq![]
    } else {
        let rest = join_strings(parts.drop_last());
        match json_str(parts.last()) {
            Some(s) => if rest.len() == 0 && !has_string(parts.drop_last()) {
                s
            } else {
                rest + " "@ + s
            },
            None => rest,
        }
    }
}

/// Whether some item of `parts` is a string.
pub open spec fn has_string(parts: Seq<Json>) -> bool {
    exists|i: int| 0 <= i < parts.len() && #[trigger] json_str(parts[i]) is Some
}

/// What a legacy command approval request shows.
pub open spec fn legacy_exec_text(params: Json) -> Seq<char> {
    let command = match json_get(params, "command"@) {
        Some(c) => match json_array(c) {
            Some(parts) => join_strings(parts),
            None => "(command unavailable)"@,
        },
        None => "(command unavailable)"@,
    };
    "command: "@ + command + "\ncwd: "@ + str_or(params, "cwd"@, "(cwd unknown)"@)
}

/// The summary of a legacy command approval request.
pub fn legacy_exec_approval_summary(params: &Json) -> (r: String)
    ensures
        r@ == legacy_exec_text(*params),
{
    let cwd = str_member_or(params, "cwd", "(cwd unknown)");
    let mut command = String::new();
    let mut have_command = false;
    match params.get("command") {
        Some(c) => match c.as_array() {
            Some(parts) => {
                let mut any = false;
                let mut i: usize = 0;
                assert(parts@.take(0) =~= seq![]);
                while i < parts.len()
                    invariant
                        i <= parts@.len(),
                        command@ == join_strings(parts@.take(i as int)),
                        any == has_string(parts@.take(i as int)),
                        !any ==> command@.len() == 0,
                    decreases parts.len() - i,
                {
                    assert(parts@.take(i + 1).drop_last() =~= parts@.take(i as int));
                    assert(parts@.take(i + 1).last() == parts@[i as int]);
                    match parts[i].as_str() {
                        Some(s) => {
                            if any {
                                push_str(&mut command, " ");
                            }
                            push_str(&mut command, s);
                            proof {
                                assert(json_str(parts@.take(i + 1)[i as int]) is Some);
                                assert(has_string(parts@.take(i + 1)));
                            }
                            any = true;
                        },
                        None => {
                            proof {
                                if has_string(parts@.take(i + 1)) {
                                    let k = choose|k: int|
                                        0 <= k < parts@.take(i + 1).len() && #[trigger] json_str(
                                            parts@.take(i + 1)[k],
                                        ) is Some;
                                    if k < i {
                                        assert(json_str(parts@.take(i as int)[k]) is Some);
                                    }
                                }
                            }
                        },
                    }
                    i = i + 1;
                }
                assert(parts@.take(parts@.len() as int) =~= parts@);
                have_command = true;
            },
            None => {},
        },
        None => {},
    }
    if !have_command {
        command = owned("(command unavailable)");
    }
    let mut s = owned("command: ");
    push_str(&mut s, command.as_str());
    push_str(&mut s, "\ncwd: ");
    push_str(&mut s, cwd.as_str());
    s
}

/// The approval a server request asks for, if it is one: the method and
/// what to show the user.
pub open spec fn approval_request_spec(message: Json, params_text: Seq<char>) -> Option<
    (Seq<char>, Seq<char>),
> {
    match json_get(message, "id"@) {
        Some(_) => match json_str_at(message, "method"@) {
            Some(m) => {
                let params = match json_get(message, "params"@) {
                    Some(p) => p,
                    None => Json::Null,
                };
                if m == "item/commandExecution/requestApproval"@ {
                    Some((m, command_approval_text(params)))
                } else if m == "item/fileChange/requestApproval"@ {
                    Some((m, file_approval_text(params)))
                } else if m == "execCommandApproval"@ {
                    Some((m, legacy_exec_text(params)))
                } else if m == "applyPatchApproval"@ {
                    Some((m, "Patch approval requested: "@ + params_text))
                } else {
                    None
                }
            },
            None => None,
        },
        None => None,
    }
}

/// The approval asked for by a server request; the message is handed
/// back when it is not one.  `params_text` is the JSON text of the
/// request's `params`, shown for patch approvals.
pub fn pending_approval_from_message(message: Json, params_text: &str) -> (r: Result<
    PendingApproval,
    Json,
>)
    ensures
        match approval_request_spec(message, params_text@) {
            Some(p) => r matches Ok(a) && Some(a.id) == json_get(message, "id"@) && a.method@
                == p.0 && a.summary@ == p.1,
            None => r == Err::<PendingApproval, Json>(message),
        },
{
    let summary = {
        let method = match message.get("method") {
            Some(m) => match m.as_str() {
                Some(s) => s,
                None => {
                    return Err(message);
                },
            },
            None => {
                return Err(message);
            },
        };
        if message.get("id").is_none() {
            return Err(message);
        }
        let null = Json::Null;
        let params = match message.get("params") {
            Some(p) => p,
            None => &null,
        };
        if str_eq(method, "item/commandExecution/requestApproval") {
            (owned(method), command_approval_summary(params))
        } else if str_eq(method, "item/fileChange/requestApproval") {
            (owned(method), file_approval_summary(params))
        } else if str_eq(method, "execCommandApproval") {
            (owned(method), legacy_exec_approval_summary(params))
        } else if str_eq(method, "applyPatchApproval") {
            let mut s = owned("Patch approval requested: ");
            push_str(&mut s, params_text);
            (owned(method), s)
        } else {
            return Err(message);
        }
    };
    let ghost expected_id = json_get(message, "id"@);
    match take_member(message, "id") {
        Some(id) => Ok(PendingApproval { id, method: summary.0, summary: summary.1 }),
        None => {
            assert(false);
            Err(Json::Null)
        },
    }
}

/// The decision word a server request expects for a choice.
pub open spec fn decision_word(method: Seq<char>, choice: ApprovalChoice) -> Option<Seq<char>> {
    if method == "item/commandExecution/requestApproval"@ || method
        == "item/fileChange/requestApproval"@ {
        Some(
            match choice {
                ApprovalChoice::Approve => "accept"@,
                ApprovalChoice::ApproveForSession => "acceptForSession"@,
                ApprovalChoice::Deny => "decline"@,
                ApprovalChoice::Cancel => "cancel"@,
            },
        )
    } else if method == "execCommandApproval"@ {
        Some(
            match choice {
                ApprovalChoice::Approve => "approved"@,
                ApprovalChoice::ApproveForSession => "approved_for_session"@,
                ApprovalChoice::Deny => "denied"@,
                ApprovalChoice::Cancel => "abort"@,
            },
        )
    } else if method == "applyPatchApproval"@ {
        Some(
            match choice {
                ApprovalChoice::Approve | ApprovalChoice::ApproveForSession => "approved"@,
                ApprovalChoice::Deny => "denied"@,
                ApprovalChoice::Cancel => "abort"@,
            },
        )
    } else {
        None
    }
}

/// The answer to an approval request: `{"decision": ...}`; nothing for a
/// request kind the client does not know.
pub fn approval_result(method: &str, choice: ApprovalChoice) -> (r: Option<Json>)
    ensures
        match decision_word(method@, choice) {
            Some(d) => r matches Some(j) && json_str_at(j, "decision"@) == Some(d),
            None => r is None,
        },
{
    let word = if str_eq(method, "item/commandExecution/requestApproval") || str_eq(
        method,
        "item/fileChange/requestApproval",
    ) {
        match choice {
            ApprovalChoice::Approve => "accept",
            ApprovalChoice::ApproveForSession => "acceptForSession",
            ApprovalChoice::Deny => "decline",
            ApprovalChoice::Cancel => "cancel",
        }
    } else if str_eq(method, "execCommandApproval") {
        match choice {
            ApprovalChoice::Approve => "approved",
            ApprovalChoice::ApproveForSession => "approved_for_session",
            ApprovalChoice::Deny => "denied",
            ApprovalChoice::Cancel => "abort",
        }
    } else if str_eq(method, "applyPatchApproval") {
        match choice {
            ApprovalChoice::Approve | ApprovalChoice::ApproveForSession => "approved",
            ApprovalChoice::Deny => "denied",
            ApprovalChoice::Cancel => "abort",
        }
    } else {
        return None;
    };
    let e = vec![jmember("decision", jstr(word))];
    proof {
        lemma_distinct_members(e@);
    }
    Some(Json::Object(e))
}

/// The name shown for a thread: its name when that is a string, else its
/// preview when that is a string; `(untitled)` when neither is, or the
/// chosen one is empty.
pub open spec fn thread_title(thread: Json) -> Seq<char> {
    let chosen = match json_str_at(thread, "name"@) {
        Some(n) => Some(n),
        None => json_str_at(thread, "preview"@),
    };
    match chosen {
        Some(n) => if n.len() > 0 {
            n
        } else {
            "(untitled)"@
        },
        None => "(untitled)"@,
    }
}

/// One line of the thread list: id, title and directory.
pub open spec fn thread_list_line_spec(thread: Json) -> Seq<char> {
    str_or(thread, "id"@, "(no id)"@) + "  "@ + thread_title(thread) + "  "@ + str_or(
        thread,
        "cwd"@,
        seq![],
    )
}

/// One line of the thread list: id, title and directory.
pub fn thread_list_line(thread: &Json) -> (r: String)
    ensures
        r@ == thread_list_line_spec(*thread),
{
    proof {
        reveal_strlit("");
    }
    let id = str_member_or(thread, "id", "(no id)");
    let chosen = match thread.str_at("name") {
        Some(n) => Some(n),
        None => thread.str_at("preview"),
    };
    let title = match chosen {
        Some(n) => if n.as_str().unicode_len() > 0 {
            n
        } else {
            owned("(untitled)")
        },
        None => owned("(untitled)"),
    };
    let cwd = str_member_or(thread, "cwd", "");
    let mut s = id;
    push_str(&mut s, "  ");
    push_str(&mut s, title.as_str());
    push_str(&mut s, "  ");
    push_str(&mut s, cwd.as_str());
    s
}

// ---------------------------------------------------------------------------
// Session events
// ---------------------------------------------------------------------------

/// Whether a notification belongs to the turn in progress (also when
/// neither names a turn).
pub open spec fn belongs_spec(active_turn_id: Option<Seq<char>>, params: Json) -> bool {
    json_str_at(params, "turnId"@) == active_turn_id
}

/// Whether a notification belongs to the turn in progress.
pub fn belongs_to_active_turn(active_turn_id: Option<&str>, params: &Json) -> (b: bool)
    ensures
        b == belongs_spec(
            match active_turn_id {
                Some(t) => Some(t@),
                None => None,
            },
            *params,
        ),
{
    match params.get("turnId") {
        Some(t) => match t.as_str() {
            Some(s) => match active_turn_id {
                Some(a) => str_eq(s, a),
                None => false,
            },
            None => active_turn_id.is_none(),
        },
        None => active_turn_id.is_none(),
    }
}

/// What a server message asks the terminal to do.
#[derive(Debug)]
pub enum SessionEvent {
    /// Show and remember an approval request.
    ApprovalRequested(PendingApproval),
    /// Append streamed answer text.
    AssistantDelta(String),
    /// Replace the answer with its final text.
    AssistantAnswer(String),
    /// Show a tool call.
    ToolCall { label: String, text: String },
    /// Show a plan.
    Plan(String),
    /// The turn in progress is over.
    TurnCompleted,
    /// New token totals.
    TokenUsage(Option<TokenUsage>),
    /// New rate limits and the status to show.
    RateLimits { usage: Option<RateLimitUsage>, summary: Option<String> },
    /// The server reported an error.
    ServerError,
    /// Nothing to do.
    Ignored,
}

/// The plan text of a `turn/plan/updated` message.
pub open spec fn plan_spec(params: Json) -> Option<Seq<char>> {
    match json_get(params, "plan"@) {
        Some(p) => match json_array(p) {
            Some(steps) => if steps.len() == 0 {
                None
            } else {
                Some(plan_text(steps, steps.len()))
            },
            None => None,
        },
        None => None,
    }
}

/// The event a server message stands for, given the turn in progress.
pub open spec fn session_event_matches(
    r: SessionEvent,
    active: Option<Seq<char>>,
    message: Json,
    params_text: Seq<char>,
) -> bool {
    match approval_request_spec(message, params_text) {
        Some(p) => r matches SessionEvent::ApprovalRequested(a) && a.method@ == p.0 && a.summary@
            == p.1 && Some(a.id) == json_get(message, "id"@),
        None => {
            let params = crate::protocol::params_of(message);
            let belongs = belongs_spec(active, params);
            match crate::protocol::method_of(message) {
                Some(m) => if m == "item/agentMessage/delta"@ {
                    match json_str_at(params, "delta"@) {
                        Some(d) if belongs => r matches SessionEvent::AssistantDelta(x) && x@ == d,
                        _ => r is Ignored,
                    }
                } else if m == "item/completed"@ {
                    if belongs && completed_answer_spec(params) is Some {
                        r matches SessionEvent::AssistantAnswer(x) && Some(x@)
                            == completed_answer_spec(params)
                    } else if belongs && tool_summary_spec(params, false) is Some {
                        r matches SessionEvent::ToolCall { label, text } && Some((label@, text@))
                            == tool_summary_spec(params, false)
                    } else {
                        r is Ignored
                    }
                } else if m == "item/started"@ {
                    if belongs && tool_summary_spec(params, true) is Some {
                        r matches SessionEvent::ToolCall { label, text } && Some((label@, text@))
                            == tool_summary_spec(params, true)
                    } else {
                        r is Ignored
                    }
                } else if m == "item/plan/delta"@ {
                    match json_str_at(params, "delta"@) {
                        Some(d) if belongs => r matches SessionEvent::Plan(x) && x@ == d,
                        _ => r is Ignored,
                    }
                } else if m == "turn/plan/updated"@ {
                    match plan_spec(params) {
                        Some(t) if belongs => r matches SessionEvent::Plan(x) && x@ == t,
                        _ => r is Ignored,
                    }
                } else if m == "turn/completed"@ {
                    if crate::protocol::turn_field(params, "id"@) == active {
                        r is TurnCompleted
                    } else {
                        r is Ignored
                    }
                } else if m == "thread/tokenUsage/updated"@ {
                    r == SessionEvent::TokenUsage(token_usage_spec(params))
                } else if m == "account/rateLimits/updated"@ {
                    r matches SessionEvent::RateLimits { usage, summary } && usage
                        == rate_limit_usage_spec(params) && (summary is Some <==> usage is Some) && (
                    summary matches Some(t) ==> t@ == "Ready."@)
                } else if m == "error"@ {
                    r is ServerError
                } else {
                    r is Ignored
                },
                None => r is Ignored,
            }
        },
    }
}

/// What the terminal does with a server message.  `params_text` is the
/// JSON text of the message's `params`, shown for patch approvals.
pub fn classify_server_message(active_turn_id: Option<&str>, message: Json, params_text: &str) -> (r:
    SessionEvent)
    ensures
        session_event_matches(
            r,
            match active_turn_id {
                Some(t) => Some(t@),
                None => None,
            },
            message,
            params_text@,
        ),
{
    let ghost original = message;
    let message = match pending_approval_from_message(message, params_text) {
        Ok(approval) => {
            return SessionEvent::ApprovalRequested(approval);
        },
        Err(m) => m,
    };
    assert(message == original);
    let method = match message.get("method") {
        Some(m) => match m.as_str() {
            Some(s) => s,
            None => {
                return SessionEvent::Ignored;
            },
        },
        None => {
            return SessionEvent::Ignored;
        },
    };
    let null = Json::Null;
    let params = match message.get("params") {
        Some(p) => p,
        None => &null,
    };
    let belongs = belongs_to_active_turn(active_turn_id, params);
    if str_eq(method, "item/agentMessage/delta") {
        match params.str_at("delta") {
            Some(d) => if belongs {
                SessionEvent::AssistantDelta(d)
            } else {
                SessionEvent::Ignored
            },
            None => SessionEvent::Ignored,
        }
    } else if str_eq(method, "item/completed") {
        if belongs {
            match completed_agent_answer(params) {
                Some(text) => {
                    return SessionEvent::AssistantAnswer(text);
                },
                None => {},
            }
            match completed_tool_summary(params) {
                Some((label, text)) => SessionEvent::ToolCall { label, text },
                None => SessionEvent::Ignored,
            }
        } else {
            SessionEvent::Ignored
        }
    } else if str_eq(method, "item/started") {
        if belongs {
            match started_tool_summary(params) {
                Some((label, text)) => SessionEvent::ToolCall { label, text },
                None => SessionEvent::Ignored,
            }
        } else {
            SessionEvent::Ignored
        }
    } else if str_eq(method, "item/plan/delta") {
        match params.str_at("delta") {
            Some(d) => if belongs {
                SessionEvent::Plan(d)
            } else {
                SessionEvent::Ignored
            },
            None => SessionEvent::Ignored,
        }
    } else if str_eq(method, "turn/plan/updated") {
        if belongs {
            match format_plan(params) {
                Some(t) => SessionEvent::Plan(t),
                None => SessionEvent::Ignored,
            }
        } else {
            SessionEvent::Ignored
        }
    } else if str_eq(method, "turn/completed") {
        let id = match params.get("turn") {
            Some(t) => t.str_at("id"),
            None => None,
        };
        let same = match (id, active_turn_id) {
            (Some(a), Some(b)) => str_eq(a.as_str(), b),
            (None, None) => true,
            _ => false,
        };
        if same {
            SessionEvent::TurnCompleted
        } else {
            SessionEvent::Ignored
        }
    } else if str_eq(method, "thread/tokenUsage/updated") {
        SessionEvent::TokenUsage(token_usage_from_params(params))
    } else if str_eq(method, "account/rateLimits/updated") {
        SessionEvent::RateLimits {
            usage: rate_limit_usage(params),
            summary: rate_limit_summary(params),
        }
    } else if str_eq(method, "error") {
        SessionEvent::ServerError
    } else {
        SessionEvent::Ignored
    }
}

} // verus!
