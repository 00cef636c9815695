//! The streaming/cancellation orchestrator: the per-query state machine that
//! sends a query, then takes, one at a time, the outcome of a race between
//! the cancellation flag and the next notification, and says what to do.
//! The application performs each action (print, render, prompt, send) and
//! reports the next event.

use crate::ipc::client::{IpcClient, next_interactive};
use crate::ipc::error::IpcError;
use crate::ipc::codec::{find_pair, find_pair_exec};
use crate::ipc::json::{json_members, json_string_value, object_members, string_value};
use crate::ipc::message::{
    Notification, NotificationView, Request, RequestId, Response, agent_query_params, text_view, tool_approve_params,
};
use crate::text::{chars_of, str_eq, string_of};
use vstd::prelude::*;

verus! {

/// Where one query stands.
#[derive(Debug, Clone, Copy, PartialEq, Eq, Structural)]
pub enum QueryState {
    Idle,
    Sent,
    Streaming,
    Complete,
    Cancelled,
    Failed,
}

/// What a notification of the stream means.
#[derive(Debug, Clone)]
pub enum Notice {
    /// `stream.token`: incremental text (absent when the notification
    /// carried none).
    Token(Option<String>),
    /// `stream.block`: a structured block to render.
    Block { kind: String, language: String, content: String },
    /// `tool.request_approval`: the backend asks before running a tool.
    ApprovalRequest {
        tool_name: String,
        description: String,
        risk_level: String,
        preview: String,
        execution_id: String,
    },
    /// `stream.complete`: the stream ended.
    Complete,
    /// Any other method, kept for the log.
    Unknown(String),
}

/// What the driver does after one step.
#[derive(Debug, Clone)]
pub enum StreamAction {
    /// Print this text and keep streaming.
    Show(String),
    /// Render this block and keep streaming.
    Render { kind: String, language: String, content: String },
    /// Run the approval sub-dialogue for this tool, then keep streaming.
    Approve {
        tool_name: String,
        description: String,
        risk_level: String,
        preview: String,
        execution_id: String,
    },
    /// Log the unknown method and keep streaming.
    Ignore(String),
    /// The stream is over; leave the loop.
    Stop,
}

/// A single-key answer to an approval prompt.
#[derive(Debug, Clone, Copy, PartialEq, Eq, Structural)]
pub enum KeyDecision {
    Approve,
    Deny,
    Cancel,
    Undecided,
}

/// The string member `key` of a parameter object, if the parameters are an
/// object holding a string under that name.
pub open spec fn param_str(params: Option<Seq<char>>, key: Seq<char>) -> Option<Seq<char>> {
    match params {
        Some(p) => match json_members(p) {
            Some(ps) => match find_pair(ps, key) {
                Some(m) => json_string_value(m.1),
                None => None,
            },
            None => None,
        },
        None => None,
    }
}

/// The string member `key`, or `fallback`.
pub open spec fn param_or(params: Option<Seq<char>>, key: Seq<char>, fallback: Seq<char>) -> Seq<char> {
    match param_str(params, key) {
        Some(s) => s,
        None => fallback,
    }
}

/// The notice a notification denotes: chosen by its method, with fields read
/// from its parameters (defaults `"text"`, `""` and `"unknown"`).
pub open spec fn notice_of(n: NotificationView, r: Notice) -> bool {
    let p = n.params;
    if n.method == "stream.token"@ {
        r matches Notice::Token(t) && text_view(t) == param_str(p, "content"@)
    } else if n.method == "stream.block"@ {
        r matches Notice::Block { kind, language, content } && kind@ == param_or(p, "type"@, "text"@)
            && language@ == param_or(p, "language"@, "text"@) && content@ == param_or(p, "content"@, ""@)
    } else if n.method == "tool.request_approval"@ {
        r matches Notice::ApprovalRequest { tool_name, description, risk_level, preview, execution_id }
            && tool_name@ == param_or(p, "tool_name"@, "unknown"@) && description@ == param_or(p, "description"@, ""@)
            && risk_level@ == param_or(p, "risk_level"@, "unknown"@) && preview@ == param_or(p, "preview"@, ""@)
            && execution_id@ == param_or(p, "execution_id"@, ""@)
    } else if n.method == "stream.complete"@ {
        r is Complete
    } else {
        r matches Notice::Unknown(m) && m@ == n.method
    }
}

fn param_text(params: &Option<String>, key: &str) -> (r: Option<String>)
    ensures
        text_view(r) == param_str(text_view(*params), key@),
{
    let p = match params {
        Some(p) => p,
        None => return None,
    };
    let pairs = match object_members(p.as_str()) {
        Some(ps) => ps,
        None => return None,
    };
    let ghost pv = pairs@.map_values(|q: (String, String)| (q.0@, q.1@));
    assert(pv =~= json_members(p@)->Some_0);
    match find_pair_exec(&pairs, key) {
        Some(i) => string_value(pairs[i].1.as_str()),
        None => None,
    }
}

fn param_text_or(params: &Option<String>, key: &str, fallback: &str) -> (r: String)
    ensures
        r@ == param_or(text_view(*params), key@, fallback@),
{
    match param_text(params, key) {
        Some(t) => t,
        None => fallback.to_owned(),
    }
}

impl Notice {
    /// Reads a notification by its method; the fields come from its
    /// parameters, with the defaults `"text"`, `""` and `"unknown"` where a
    /// parameter is missing.
    pub fn from_notification(n: &Notification) -> (r: Notice)
        ensures
            notice_of(n@, r),
    {
        let m = n.method.as_str();
        if str_eq(m, "stream.token") {
            Notice::Token(param_text(&n.params, "content"))
        } else if str_eq(m, "stream.block") {
            Notice::Block {
                kind: param_text_or(&n.params, "type", "text"),
                language: param_text_or(&n.params, "language", "text"),
                content: param_text_or(&n.params, "content", ""),
            }
        } else if str_eq(m, "tool.request_approval") {
            Notice::ApprovalRequest {
                tool_name: param_text_or(&n.params, "tool_name", "unknown"),
                description: param_text_or(&n.params, "description", ""),
                risk_level: param_text_or(&n.params, "risk_level", "unknown"),
                preview: param_text_or(&n.params, "preview", ""),
                execution_id: param_text_or(&n.params, "execution_id", ""),
            }
        } else if str_eq(m, "stream.complete") {
            Notice::Complete
        } else {
            Notice::Unknown(n.method.clone())
        }
    }
}

/// The stream identifier that confirms a query started: the `query_id`
/// string of the result.
pub fn stream_id_of(resp: &Response) -> (r: Option<String>)
    ensures
        text_view(r) == param_str(text_view(resp.result), "query_id"@),
{
    param_text(&resp.result, "query_id")
}

/// The state of one query and the text it has printed so far.
pub struct QueryStream {
    state: QueryState,
    transcript: Vec<char>,
}

impl QueryStream {
    pub closed spec fn state(&self) -> QueryState {
        self.state
    }

    /// The concatenation of every token printed so far.
    pub closed spec fn transcript(&self) -> Seq<char> {
        self.transcript@
    }

    /// A query not yet sent.
    pub fn new() -> (r: QueryStream)
        ensures
            r.state() == QueryState::Idle,
            r.transcript() == Seq::<char>::empty(),
    {
        QueryStream { state: QueryState::Idle, transcript: Vec::new() }
    }

    /// The current state.
    pub fn current(&self) -> (r: QueryState)
        ensures
            r == self.state(),
    {
        self.state
    }

    /// The text printed so far.
    pub fn text(&self) -> (r: String)
        ensures
            r@ == self.transcript(),
    {
        string_of(self.transcript.as_slice())
    }

    /// `Idle -> Sent`: the query request, with an id of the interactive range.
    pub fn send(&mut self, client: &mut IpcClient, query: &str) -> (r: Request)
        requires
            old(self).state() == QueryState::Idle,
        ensures
            final(self).state() == QueryState::Sent,
            final(self).transcript() == old(self).transcript(),
            final(client).last_id() == next_interactive(old(client).last_id()),
            r.id == RequestId::Number(final(client).last_id()),
            r.method@ == "agent.query"@,
            r.params matches Some(p) && p@ == agent_query_params(query@),
    {
        let id = client.next_request_id();
        self.state = QueryState::Sent;
        Request::agent_query(id, query)
    }

    /// `Sent -> Streaming` when the confirmation carried a stream id;
    /// `Sent -> Failed` when the request failed or carried none.
    pub fn started(&mut self, confirmation: Result<Option<String>, IpcError>)
        requires
            old(self).state() == QueryState::Sent,
        ensures
            confirmation matches Ok(Some(_)) ==> final(self).state() == QueryState::Streaming,
            !(confirmation matches Ok(Some(_))) ==> final(self).state() == QueryState::Failed,
            final(self).transcript() == old(self).transcript(),
    {
        match confirmation {
            Ok(Some(_)) => self.state = QueryState::Streaming,
            _ => self.state = QueryState::Failed,
        }
    }

    /// One step of the streaming loop. `cancelled` is the value of the
    /// cancellation flag when the race resolved; `next` is the notice that
    /// arrived, or `None` when the notification channel closed. Cancellation
    /// wins over any notice, even one already queued: the loop stops without
    /// processing it.
    pub fn step(&mut self, cancelled: bool, next: Option<Notice>) -> (r: StreamAction)
        requires
            old(self).state() == QueryState::Streaming,
        ensures
            cancelled ==> r is Stop && final(self).state() == QueryState::Cancelled
                && final(self).transcript() == old(self).transcript(),
            !cancelled && next is None ==> r is Stop && final(self).state() == QueryState::Failed
                && final(self).transcript() == old(self).transcript(),
            !cancelled ==> match next {
                Some(Notice::Token(Some(t))) => (r matches StreamAction::Show(s) && s == t)
                    && final(self).state() == QueryState::Streaming
                    && final(self).transcript() == old(self).transcript() + t@,
                Some(Notice::Token(None)) => (r matches StreamAction::Show(s) && s@.len() == 0)
                    && final(self).state() == QueryState::Streaming
                    && final(self).transcript() == old(self).transcript(),
                Some(Notice::Block { kind, language, content }) => (r matches StreamAction::Render {
                    kind: k,
                    language: l,
                    content: c,
                } && k == kind && l == language && c == content)
                    && final(self).state() == QueryState::Streaming
                    && final(self).transcript() == old(self).transcript(),
                Some(Notice::ApprovalRequest { tool_name, description, risk_level, preview, execution_id }) => (
                r matches StreamAction::Approve { tool_name: a, description: b, risk_level: c, preview: d, execution_id: e }
                    && a == tool_name && b == description && c == risk_level && d == preview && e == execution_id)
                    && final(self).state() == QueryState::Streaming
                    && final(self).transcript() == old(self).transcript(),
                Some(Notice::Complete) => r is Stop && final(self).state() == QueryState::Complete
                    && final(self).transcript() == old(self).transcript(),
                Some(Notice::Unknown(m)) => (r matches StreamAction::Ignore(x) && x == m)
                    && final(self).state() == QueryState::Streaming
                    && final(self).transcript() == old(self).transcript(),
                None => true,
            },
    {
        if cancelled {
            self.state = QueryState::Cancelled;
            return StreamAction::Stop;
        }
        match next {
            None => {
                self.state = QueryState::Failed;
                StreamAction::Stop
            },
            Some(Notice::Token(Some(t))) => {
                let mut piece = chars_of(t.as_str());
                self.transcript.append(&mut piece);
                StreamAction::Show(t)
            },
            Some(Notice::Token(None)) => StreamAction::Show(String::new()),
            Some(Notice::Block { kind, language, content }) => StreamAction::Render { kind, language, content },
            Some(Notice::ApprovalRequest { tool_name, description, risk_level, preview, execution_id }) => {
                StreamAction::Approve { tool_name, description, risk_level, preview, execution_id }
            },
            Some(Notice::Complete) => {
                self.state = QueryState::Complete;
                StreamAction::Stop
            },
            Some(Notice::Unknown(m)) => StreamAction::Ignore(m),
        }
    }
}

/// A key pressed at the approval prompt.
#[derive(Debug, Clone, Copy, PartialEq, Eq, Structural)]
pub enum PromptKey {
    Char(char),
    Enter,
    Esc,
    Other,
}

/// What a key at the approval prompt means: `y`/`Y` approves and `n`/`N`,
/// Enter and Esc deny, whatever modifiers are held; Ctrl+C cancels; every
/// other key leaves the prompt waiting.
pub open spec fn key_decision(key: PromptKey, ctrl: bool) -> KeyDecision {
    match key {
        PromptKey::Char(c) => if c == 'y' || c == 'Y' {
            KeyDecision::Approve
        } else if c == 'n' || c == 'N' {
            KeyDecision::Deny
        } else if c == 'c' && ctrl {
            KeyDecision::Cancel
        } else {
            KeyDecision::Undecided
        },
        PromptKey::Enter | PromptKey::Esc => KeyDecision::Deny,
        PromptKey::Other => KeyDecision::Undecided,
    }
}

/// Reads a key of the approval prompt. Only `y` or `Y` approves.
pub fn decide_key(key: PromptKey, ctrl: bool) -> (r: KeyDecision)
    ensures
        r == key_decision(key, ctrl),
        r == KeyDecision::Approve <==> (key == PromptKey::Char('y') || key == PromptKey::Char('Y')),
{
    match key {
        PromptKey::Char(c) => {
            if c == 'y' || c == 'Y' {
                KeyDecision::Approve
            } else if c == 'n' || c == 'N' {
                KeyDecision::Deny
            } else if c == 'c' && ctrl {
                KeyDecision::Cancel
            } else {
                KeyDecision::Undecided
            }
        },
        PromptKey::Enter | PromptKey::Esc => KeyDecision::Deny,
        PromptKey::Other => KeyDecision::Undecided,
    }
}

/// The outcome of the approval prompt: approved only by an explicit
/// approving key, and never once the cancellation flag is set.
pub fn approval_decision(cancelled: bool, key: KeyDecision) -> (r: bool)
    ensures
        r == (!cancelled && key == KeyDecision::Approve),
{
    !cancelled && key == KeyDecision::Approve
}

/// The `tool.approve` request that answers a prompt, with the next
/// interactive id.
pub fn approval_request(client: &mut IpcClient, execution_id: &str, approved: bool) -> (r: Request)
    ensures
        final(client).last_id() == next_interactive(old(client).last_id()),
        r.id == RequestId::Number(final(client).last_id()),
        r.method@ == "tool.approve"@,
        r.params matches Some(p) && p@ == tool_approve_params(execution_id@, approved),
{
    let id = client.next_request_id();
    Request::tool_approve(id, execution_id, approved)
}

/// Approval comes only from `y` or `Y`, read while the cancellation flag is
/// clear: a set flag, any other key, or no decision yet never approves.
pub proof fn lemma_approval_only_by_yes(cancelled: bool, key: PromptKey, ctrl: bool)
    ensures
        (!cancelled && key_decision(key, ctrl) == KeyDecision::Approve) <==> (!cancelled && (key
            == PromptKey::Char('y') || key == PromptKey::Char('Y'))),
{
}

/// The line shown once the backend answered the approval.
pub fn approval_outcome(approved: bool) -> (r: &'static str)
    ensures
        approved ==> r@ == "Tool approved and executed"@,
        !approved ==> r@ == "Tool execution denied"@,
{
    if approved { "Tool approved and executed" } else { "Tool execution denied" }
}

} // verus!
