//! The JSON-lines protocol of `codex app-server`: the messages the client
//! writes, and how it reads the messages the server sends back.

use crate::json::{
    distinct_keys, jmember, jopt_str, json_get, json_str, json_str_at, jstr, lemma_distinct_members,
    Json,
};
use crate::text::{opt_chars, owned, push_str, str_eq};
use std::path::PathBuf;
use vstd::prelude::*;

verus! {

#[verifier::external_type_specification]
#[verifier::external_body]
pub struct ExPathBuf(PathBuf);

/// A one-shot prompt: the text and the directory Codex works in.
#[derive(Debug)]
pub struct RunOptions {
    pub prompt: String,
    pub cwd: PathBuf,
}

/// The outcome of a one-shot prompt.
#[derive(Debug, Clone, PartialEq, Eq)]
pub struct RunResult {
    pub answer: String,
    pub thread_id: String,
    pub turn_id: String,
    pub account: AccountSummary,
}

/// The signed-in Codex account.
#[derive(Debug, Clone, PartialEq, Eq)]
pub struct AccountSummary {
    pub account_type: Option<String>,
    pub plan_type: Option<String>,
    pub requires_openai_auth: bool,
}

/// The string at `key` of an optional object.
pub open spec fn opt_str_at(value: Option<Json>, key: Seq<char>) -> Option<Seq<char>> {
    match value {
        Some(v) => json_str_at(v, key),
        None => None,
    }
}

/// The account described by an `account/read` result.
pub fn account_summary_from(result: &Json) -> (r: AccountSummary)
    ensures
        opt_chars(r.account_type) == opt_str_at(json_get(*result, "account"@), "type"@),
        opt_chars(r.plan_type) == opt_str_at(json_get(*result, "account"@), "planType"@),
        r.requires_openai_auth == match json_get(*result, "requiresOpenaiAuth"@) {
            Some(Json::Bool(b)) => b,
            _ => false,
        },
{
    let (account_type, plan_type) = match result.get("account") {
        Some(account) => (account.str_at("type"), account.str_at("planType")),
        None => (None, None),
    };
    let requires_openai_auth = match result.get("requiresOpenaiAuth") {
        Some(v) => match v.as_bool() {
            Some(b) => b,
            None => false,
        },
        None => false,
    };
    AccountSummary { account_type, plan_type, requires_openai_auth }
}

/// The value reached from `value` by following the object keys of `path`.
pub open spec fn json_walk(value: Json, path: Seq<Seq<char>>) -> Option<Json>
    decreases path.len(),
{
    if path.len() == 0 {
        Some(value)
    } else {
        match json_get(value, path[0]) {
            Some(next) => json_walk(next, path.drop_first()),
            None => None,
        }
    }
}

/// The views of a list of string slices.
pub open spec fn str_views(path: Seq<&str>) -> Seq<Seq<char>> {
    path.map_values(|p: &str| p@)
}

/// The string found by following the object keys of `path`.
pub fn json_string_at(value: &Json, path: &[&str]) -> (r: Option<String>)
    ensures
        match json_walk(*value, str_views(path@)) {
            Some(v) => opt_chars(r) == json_str(v),
            None => r is None,
        },
{
    let mut current = value;
    let mut i: usize = 0;
    assert(str_views(path@).skip(0) =~= str_views(path@));
    while i < path.len()
        invariant
            i <= path@.len(),
            json_walk(*value, str_views(path@)) == json_walk(*current, str_views(path@).skip(i as int)),
        decreases path.len() - i,
    {
        assert(str_views(path@).skip(i as int).drop_first() =~= str_views(path@).skip(i + 1));
        assert(str_views(path@).skip(i as int)[0] == path@[i as int]@);
        match current.get(path[i]) {
            Some(next) => {
                current = next;
            },
            None => {
                return None;
            },
        }
        i = i + 1;
    }
    assert(str_views(path@).skip(path@.len() as int) =~= seq![]);
    match current.as_str() {
        Some(s) => Some(owned(s)),
        None => None,
    }
}

/// The final answer text of a completed agent message item: the item must
/// be an `agentMessage` whose phase, when given, is `final_answer`.
pub open spec fn completed_answer_spec(params: Json) -> Option<Seq<char>> {
    match json_get(params, "item"@) {
        Some(item) => if json_str_at(item, "type"@) != Some("agentMessage"@) {
            None
        } else if json_str_at(item, "phase"@) matches Some(p) && p != "final_answer"@ {
            None
        } else {
            json_str_at(item, "text"@)
        },
        None => None,
    }
}

/// The final answer in an `item/completed` notification, if it holds one.
pub fn completed_agent_answer(params: &Json) -> (r: Option<String>)
    ensures
        opt_chars(r) == completed_answer_spec(*params),
{
    let item = match params.get("item") {
        Some(item) => item,
        None => {
            return None;
        },
    };
    let is_agent_message = match item.get("type") {
        Some(t) => match t.as_str() {
            Some(s) => str_eq(s, "agentMessage"),
            None => false,
        },
        None => false,
    };
    if !is_agent_message {
        return None;
    }
    match item.get("phase") {
        Some(p) => match p.as_str() {
            Some(phase) => {
                if !str_eq(phase, "final_answer") {
                    return None;
                }
            },
            None => {},
        },
        None => {},
    }
    item.str_at("text")
}

// ---------------------------------------------------------------------------
// Messages the client writes
// ---------------------------------------------------------------------------

/// Hands out request ids 0, 1, 2, ... .
#[derive(Debug)]
pub struct RequestIds {
    pub next_id: u64,
}

impl RequestIds {
    /// Ids starting at 0.
    pub fn new() -> (r: RequestIds)
        ensures
            r.next_id == 0,
    {
        RequestIds { next_id: 0 }
    }

    /// The next id; every id handed out is larger than all before it.
    pub fn next_request_id(&mut self) -> (id: u64)
        requires
            old(self).next_id < u64::MAX,
        ensures
            id == old(self).next_id,
            final(self).next_id == old(self).next_id + 1,
    {
        let id = self.next_id;
        self.next_id = self.next_id + 1;
        id
    }
}

/// `m` is an object whose members are named `keys`, in this order.
pub open spec fn has_keys(m: Json, keys: Seq<Seq<char>>) -> bool {
    match m {
        Json::Object(e) => e@.len() == keys.len() && forall|i: int|
            0 <= i < keys.len() ==> #[trigger] e@[i].0@ == keys[i],
        _ => false,
    }
}

/// `{"id": id, "method": method, "params": params}`.
pub fn request_message(id: u64, method: &str, params: Json) -> (r: Json)
    ensures
        has_keys(r, seq!["id"@, "method"@, "params"@]),
        json_get(r, "id"@) == Some(Json::Number(Some(id))),
        json_str_at(r, "method"@) == Some(method@),
        json_get(r, "params"@) == Some(params),
{
    let e = vec![
        jmember("id", Json::Number(Some(id))),
        jmember("method", jstr(method)),
        jmember("params", params),
    ];
    proof {
        reveal_strlit("id");
        reveal_strlit("method");
        reveal_strlit("params");
        assert("id"@.len() == 2 && "method"@.len() == 6 && "params"@.len() == 6);
        assert("method"@[0] == 'm' && "params"@[0] == 'p');
        lemma_distinct_members(e@);
    }
    Json::Object(e)
}

/// `{"method": method, "params": params}`.
pub fn notification_message(method: &str, params: Json) -> (r: Json)
    ensures
        has_keys(r, seq!["method"@, "params"@]),
        json_str_at(r, "method"@) == Some(method@),
        json_get(r, "params"@) == Some(params),
{
    let e = vec![jmember("method", jstr(method)), jmember("params", params)];
    proof {
        reveal_strlit("method");
        reveal_strlit("params");
        assert("method"@[0] == 'm' && "params"@[0] == 'p');
        lemma_distinct_members(e@);
    }
    Json::Object(e)
}

/// `{"id": id, "result": result}`, the answer to a server request.
pub fn response_message(id: Json, result: Json) -> (r: Json)
    ensures
        has_keys(r, seq!["id"@, "result"@]),
        json_get(r, "id"@) == Some(id),
        json_get(r, "result"@) == Some(result),
{
    let e = vec![jmember("id", id), jmember("result", result)];
    proof {
        reveal_strlit("id");
        reveal_strlit("result");
        assert("id"@.len() == 2 && "result"@.len() == 6);
        lemma_distinct_members(e@);
    }
    Json::Object(e)
}

/// The `initialize` parameters: who the client is, no experimental API.
pub fn initialize_params(version: &str) -> (r: Json)
    ensures
        has_keys(r, seq!["clientInfo"@, "capabilities"@]),
        json_get(r, "clientInfo"@) matches Some(info) && json_str_at(info, "name"@) == Some(
            "oh_my_limit"@,
        ) && json_str_at(info, "title"@) == Some("Oh My Limit for Codex"@) && json_str_at(
            info,
            "version"@,
        ) == Some(version@),
        json_get(r, "capabilities"@) matches Some(c) && json_get(c, "experimentalApi"@) == Some(
            Json::Bool(false),
        ),
{
    let info = vec![
        jmember("name", jstr("oh_my_limit")),
        jmember("title", jstr("Oh My Limit for Codex")),
        jmember("version", jstr(version)),
    ];
    let caps = vec![jmember("experimentalApi", Json::Bool(false))];
    let e = vec![jmember("clientInfo", Json::Object(info)), jmember("capabilities", Json::Object(caps))];
    proof {
        reveal_strlit("name");
        reveal_strlit("title");
        reveal_strlit("version");
        reveal_strlit("clientInfo");
        reveal_strlit("capabilities");
        reveal_strlit("experimentalApi");
        assert("name"@.len() == 4 && "title"@.len() == 5 && "version"@.len() == 7);
        assert("clientInfo"@.len() == 10 && "capabilities"@.len() == 12);
        lemma_distinct_members(info@);
        lemma_distinct_members(caps@);
        lemma_distinct_members(e@);
    }
    Json::Object(e)
}

/// The `account/read` parameters: `{"refreshToken": false}`.
pub fn account_read_params() -> (r: Json)
    ensures
        has_keys(r, seq!["refreshToken"@]),
        json_get(r, "refreshToken"@) == Some(Json::Bool(false)),
{
    let e = vec![jmember("refreshToken", Json::Bool(false))];
    proof {
        lemma_distinct_members(e@);
    }
    Json::Object(e)
}

/// The `thread/start` parameters: an ephemeral thread in `cwd`, served as
/// `oh-my-limit`, with the model when one is chosen.
pub fn thread_start_params(cwd: &str, model: Option<&str>) -> (r: Json)
    ensures
        has_keys(r, seq!["cwd"@, "ephemeral"@, "serviceName"@, "model"@]),
        json_str_at(r, "cwd"@) == Some(cwd@),
        json_get(r, "ephemeral"@) == Some(Json::Bool(true)),
        json_str_at(r, "serviceName"@) == Some("oh-my-limit"@),
        json_get(r, "model"@) matches Some(m) && match model {
            Some(name) => json_str(m) == Some(name@),
            None => m == Json::Null,
        },
{
    let e = vec![
        jmember("cwd", jstr(cwd)),
        jmember("ephemeral", Json::Bool(true)),
        jmember("serviceName", jstr("oh-my-limit")),
        jmember("model", jopt_str(model)),
    ];
    proof {
        reveal_strlit("cwd");
        reveal_strlit("ephemeral");
        reveal_strlit("serviceName");
        reveal_strlit("model");
        assert("cwd"@.len() == 3 && "ephemeral"@.len() == 9 && "serviceName"@.len() == 11
            && "model"@.len() == 5);
        lemma_distinct_members(e@);
    }
    Json::Object(e)
}

/// The `turn/start` parameters: the prompt as one text input, with the
/// model and reasoning effort when chosen.
pub fn turn_start_params(
    thread_id: &str,
    cwd: &str,
    prompt: &str,
    model: Option<&str>,
    effort: Option<&str>,
) -> (r: Json)
    ensures
        has_keys(r, seq!["threadId"@, "cwd"@, "input"@, "model"@, "effort"@]),
        json_str_at(r, "threadId"@) == Some(thread_id@),
        json_str_at(r, "cwd"@) == Some(cwd@),
        json_get(r, "input"@) matches Some(Json::Array(items)) && items@.len() == 1
            && json_str_at(items@[0], "type"@) == Some("text"@) && json_str_at(items@[0], "text"@)
            == Some(prompt@),
        json_get(r, "model"@) matches Some(m) && match model {
            Some(name) => json_str(m) == Some(name@),
            None => m == Json::Null,
        },
        json_get(r, "effort"@) matches Some(m) && match effort {
            Some(name) => json_str(m) == Some(name@),
            None => m == Json::Null,
        },
{
    let text = vec![jmember("type", jstr("text")), jmember("text", jstr(prompt))];
    let e = vec![
        jmember("threadId", jstr(thread_id)),
        jmember("cwd", jstr(cwd)),
        jmember("input", Json::Array(vec![Json::Object(text)])),
        jmember("model", jopt_str(model)),
        jmember("effort", jopt_str(effort)),
    ];
    proof {
        reveal_strlit("threadId");
        reveal_strlit("cwd");
        reveal_strlit("input");
        reveal_strlit("model");
        reveal_strlit("effort");
        reveal_strlit("type");
        reveal_strlit("text");
        assert("threadId"@.len() == 8 && "cwd"@.len() == 3 && "input"@.len() == 5
            && "model"@.len() == 5 && "effort"@.len() == 6 && "type"@.len() == 4
            && "text"@.len() == 4);
        assert("input"@[0] == 'i' && "model"@[0] == 'm' && "type"@[1] == 'y' && "text"@[1]
            == 'e');
        lemma_distinct_members(text@);
        lemma_distinct_members(e@);
    }
    Json::Object(e)
}

/// The `turn/interrupt` parameters.
pub fn turn_interrupt_params(thread_id: &str, turn_id: &str) -> (r: Json)
    ensures
        has_keys(r, seq!["threadId"@, "turnId"@]),
        json_str_at(r, "threadId"@) == Some(thread_id@),
        json_str_at(r, "turnId"@) == Some(turn_id@),
{
    let e = vec![jmember("threadId", jstr(thread_id)), jmember("turnId", jstr(turn_id))];
    proof {
        reveal_strlit("threadId");
        reveal_strlit("turnId");
        assert("threadId"@.len() == 8 && "turnId"@.len() == 6);
        lemma_distinct_members(e@);
    }
    Json::Object(e)
}

/// The `model/list` parameters: `{"includeHidden": false}`.
pub fn model_list_params() -> (r: Json)
    ensures
        has_keys(r, seq!["includeHidden"@]),
        json_get(r, "includeHidden"@) == Some(Json::Bool(false)),
{
    let e = vec![jmember("includeHidden", Json::Bool(false))];
    proof {
        lemma_distinct_members(e@);
    }
    Json::Object(e)
}

/// The `thread/compact/start` parameters.
pub fn compact_start_params(thread_id: &str) -> (r: Json)
    ensures
        has_keys(r, seq!["threadId"@]),
        json_str_at(r, "threadId"@) == Some(thread_id@),
{
    let e = vec![jmember("threadId", jstr(thread_id))];
    proof {
        lemma_distinct_members(e@);
    }
    Json::Object(e)
}

/// The `review/start` parameters: an inline review of uncommitted changes.
pub fn review_start_params(thread_id: &str) -> (r: Json)
    ensures
        has_keys(r, seq!["threadId"@, "delivery"@, "target"@]),
        json_str_at(r, "threadId"@) == Some(thread_id@),
        json_str_at(r, "delivery"@) == Some("inline"@),
        json_get(r, "target"@) matches Some(t) && json_str_at(t, "type"@) == Some(
            "uncommittedChanges"@,
        ),
{
    let target = vec![jmember("type", jstr("uncommittedChanges"))];
    let e = vec![
        jmember("threadId", jstr(thread_id)),
        jmember("delivery", jstr("inline")),
        jmember("target", Json::Object(target)),
    ];
    proof {
        reveal_strlit("threadId");
        reveal_strlit("delivery");
        reveal_strlit("target");
        assert("threadId"@.len() == 8 && "delivery"@.len() == 8 && "target"@.len() == 6);
        assert("threadId"@[0] == 't' && "delivery"@[0] == 'd');
        lemma_distinct_members(target@);
        lemma_distinct_members(e@);
    }
    Json::Object(e)
}

/// The `thread/list` parameters: unarchived threads, most recently updated
/// first, at most `limit`, in `cwd` when given.
pub fn thread_list_params(cwd: Option<&str>, limit: u64) -> (r: Json)
    ensures
        has_keys(r, seq!["cwd"@, "limit"@, "archived"@, "sortDirection"@, "sortKey"@]),
        json_get(r, "cwd"@) matches Some(c) && match cwd {
            Some(d) => json_str(c) == Some(d@),
            None => c == Json::Null,
        },
        json_get(r, "limit"@) == Some(Json::Number(Some(limit))),
        json_get(r, "archived"@) == Some(Json::Bool(false)),
        json_str_at(r, "sortDirection"@) == Some("desc"@),
        json_str_at(r, "sortKey"@) == Some("updated_at"@),
{
    let e = vec![
        jmember("cwd", jopt_str(cwd)),
        jmember("limit", Json::Number(Some(limit))),
        jmember("archived", Json::Bool(false)),
        jmember("sortDirection", jstr("desc")),
        jmember("sortKey", jstr("updated_at")),
    ];
    proof {
        reveal_strlit("cwd");
        reveal_strlit("limit");
        reveal_strlit("archived");
        reveal_strlit("sortDirection");
        reveal_strlit("sortKey");
        assert("cwd"@.len() == 3 && "limit"@.len() == 5 && "archived"@.len() == 8
            && "sortDirection"@.len() == 13 && "sortKey"@.len() == 7);
        lemma_distinct_members(e@);
    }
    Json::Object(e)
}

/// The `thread/resume` parameters, without the old turns.
pub fn thread_resume_params(thread_id: &str, cwd: &str) -> (r: Json)
    ensures
        has_keys(r, seq!["threadId"@, "cwd"@, "excludeTurns"@]),
        json_str_at(r, "threadId"@) == Some(thread_id@),
        json_str_at(r, "cwd"@) == Some(cwd@),
        json_get(r, "excludeTurns"@) == Some(Json::Bool(true)),
{
    let e = vec![
        jmember("threadId", jstr(thread_id)),
        jmember("cwd", jstr(cwd)),
        jmember("excludeTurns", Json::Bool(true)),
    ];
    proof {
        reveal_strlit("threadId");
        reveal_strlit("cwd");
        reveal_strlit("excludeTurns");
        assert("threadId"@.len() == 8 && "cwd"@.len() == 3 && "excludeTurns"@.len() == 12);
        lemma_distinct_members(e@);
    }
    Json::Object(e)
}

// ---------------------------------------------------------------------------
// Reading what the server sends
// ---------------------------------------------------------------------------

/// How a server message relates to a pending request.
#[derive(Debug)]
pub enum ResponseMatch<'a> {
    /// Not the answer to this request.
    Unrelated,
    /// The request failed; the `error` member.
    Failed(&'a Json),
    /// The request succeeded; the `result` member.
    Succeeded(&'a Json),
    /// The answer has neither `error` nor `result`.
    MissingResult,
}

/// The reading of a message while waiting for request `id`: answers with
/// another id (or none) are passed over, an `error` member wins over a
/// `result` member.
pub fn match_response(message: &Json, id: u64) -> (r: ResponseMatch<'_>)
    ensures
        json_get(*message, "id"@) != Some(Json::Number(Some(id))) ==> r is Unrelated,
        json_get(*message, "id"@) == Some(Json::Number(Some(id))) ==> match json_get(
            *message,
            "error"@,
        ) {
            Some(e) => r matches ResponseMatch::Failed(x) && *x == e,
            None => match json_get(*message, "result"@) {
                Some(v) => r matches ResponseMatch::Succeeded(x) && *x == v,
                None => r is MissingResult,
            },
        },
{
    let matches_id = match message.get("id") {
        Some(v) => match v.as_u64() {
            Some(n) => n == id,
            None => false,
        },
        None => false,
    };
    if !matches_id {
        return ResponseMatch::Unrelated;
    }
    match message.get("error") {
        Some(e) => ResponseMatch::Failed(e),
        None => match message.get("result") {
            Some(v) => ResponseMatch::Succeeded(v),
            None => ResponseMatch::MissingResult,
        },
    }
}

/// What a message means to a client waiting for one turn to finish.
#[derive(Debug, PartialEq, Eq)]
pub enum TurnStep {
    /// Keep reading.
    Pending,
    /// The turn finished with this answer.
    Completed(String),
    /// The turn failed with this message.
    Failed(String),
    /// The server sent an `error` notification.
    ServerError,
}

/// What a client has gathered of the answer to one turn.
#[derive(Debug)]
pub struct TurnWait {
    pub answer: String,
    pub completed_item_answer: Option<String>,
}

/// The notification method of a message.
pub open spec fn method_of(message: Json) -> Option<Seq<char>> {
    json_str_at(message, "method"@)
}

/// The `params` member, or `null`.
pub open spec fn params_of(message: Json) -> Json {
    match json_get(message, "params"@) {
        Some(p) => p,
        None => Json::Null,
    }
}

/// The `turn.<key>` string of a `turn/completed` notification.
pub open spec fn turn_field(params: Json, key: Seq<char>) -> Option<Seq<char>> {
    match json_get(params, "turn"@) {
        Some(t) => json_str_at(t, key),
        None => None,
    }
}

/// The failure message of a failed turn.
pub open spec fn turn_error_message(params: Json) -> Seq<char> {
    match json_get(params, "turn"@) {
        Some(t) => match json_get(t, "error"@) {
            Some(e) => match json_str_at(e, "message"@) {
                Some(m) => m,
                None => "turn failed without error message"@,
            },
            None => "turn failed without error message"@,
        },
        None => "turn failed without error message"@,
    }
}

impl TurnWait {
    /// Nothing gathered yet.
    pub fn new() -> (r: TurnWait)
        ensures
            r.answer@.len() == 0,
            r.completed_item_answer is None,
    {
        TurnWait { answer: String::new(), completed_item_answer: None }
    }

    /// Reads one server message: deltas of this turn are appended to the
    /// answer, a completed final answer item of this turn is kept, and
    /// the completion of this turn ends the wait with the streamed answer
    /// (or the kept item when nothing was streamed), or with its error.
    pub fn observe(&mut self, message: &Json, turn_id: &str) -> (step: TurnStep)
        ensures
            ({
                let params = params_of(*message);
                let this_turn = json_str_at(params, "turnId"@) == Some(turn_id@);
                match method_of(*message) {
                    Some(m) => if m == "item/agentMessage/delta"@ {
                        step is Pending && final(self).completed_item_answer
                            == old(self).completed_item_answer && final(self).answer@ == (
                        if this_turn && json_str_at(params, "delta"@) is Some {
                            old(self).answer@ + json_str_at(params, "delta"@).unwrap()
                        } else {
                            old(self).answer@
                        })
                    } else if m == "item/completed"@ {
                        step is Pending && final(self).answer == old(self).answer && (
                        if this_turn && completed_answer_spec(params) is Some {
                            opt_chars(final(self).completed_item_answer)
                                == completed_answer_spec(params)
                        } else {
                            final(self).completed_item_answer == old(self).completed_item_answer
                        })
                    } else if m == "turn/completed"@ {
                        if turn_field(params, "id"@) != Some(turn_id@) {
                            step is Pending && *final(self) == *old(self)
                        } else if turn_field(params, "status"@) == Some("failed"@) {
                            step matches TurnStep::Failed(e) && e@ == turn_error_message(params)
                        } else if old(self).answer@.len() == 0 {
                            step matches TurnStep::Completed(a) && a@ == match opt_chars(
                                old(self).completed_item_answer,
                            ) {
                                Some(x) => x,
                                None => seq![],
                            }
                        } else {
                            step matches TurnStep::Completed(a) && a@ == old(self).answer@
                        }
                    } else if m == "error"@ {
                        step is ServerError
                    } else {
                        step is Pending && *final(self) == *old(self)
                    },
                    None => step is Pending && *final(self) == *old(self),
                }
            }),
    {
        let method = match message.get("method") {
            Some(m) => match m.as_str() {
                Some(s) => s,
                None => {
                    return TurnStep::Pending;
                },
            },
            None => {
                return TurnStep::Pending;
            },
        };
        let null = Json::Null;
        let params = match message.get("params") {
            Some(p) => p,
            None => &null,
        };
        let this_turn = match params.get("turnId") {
            Some(t) => match t.as_str() {
                Some(s) => str_eq(s, turn_id),
                None => false,
            },
            None => false,
        };
        if str_eq(method, "item/agentMessage/delta") {
            if this_turn {
                match params.get("delta") {
                    Some(d) => match d.as_str() {
                        Some(delta) => {
                            push_str(&mut self.answer, delta);
                        },
                        None => {},
                    },
                    None => {},
                }
            }
            TurnStep::Pending
        } else if str_eq(method, "item/completed") {
            if this_turn {
                match completed_agent_answer(params) {
                    Some(answer) => {
                        self.completed_item_answer = Some(answer);
                    },
                    None => {},
                }
            }
            TurnStep::Pending
        } else if str_eq(method, "turn/completed") {
            let turn = params.get("turn");
            let same_turn = match turn {
                Some(t) => match t.get("id") {
                    Some(i) => match i.as_str() {
                        Some(s) => str_eq(s, turn_id),
                        None => false,
                    },
                    None => false,
                },
                None => false,
            };
            if !same_turn {
                return TurnStep::Pending;
            }
            let failed = match turn {
                Some(t) => match t.get("status") {
                    Some(st) => match st.as_str() {
                        Some(s) => str_eq(s, "failed"),
                        None => false,
                    },
                    None => false,
                },
                None => false,
            };
            if failed {
                let mut message_text = owned("turn failed without error message");
                match turn {
                    Some(t) => match t.get("error") {
                        Some(e) => match e.str_at("message") {
                            Some(m) => {
                                message_text = m;
                            },
                            None => {},
                        },
                        None => {},
                    },
                    None => {},
                }
                return TurnStep::Failed(message_text);
            }
            if self.answer.as_str().unicode_len() == 0 {
                match &self.completed_item_answer {
                    Some(a) => TurnStep::Completed(a.clone()),
                    None => TurnStep::Completed(String::new()),
                }
            } else {
                TurnStep::Completed(self.answer.clone())
            }
        } else if str_eq(method, "error") {
            TurnStep::ServerError
        } else {
            TurnStep::Pending
        }
    }
}

} // verus!
