//! What the session-persistence caller needs from the protocol engine: its
//! own request-id range, the requests it sends, and how it reads a response.

use crate::ipc::client::{INTERACTIVE_ID_MAX, SESSION_ID_MIN, next_interactive};
use crate::ipc::error::IpcError;
use crate::ipc::json::{json_quoted, quote};
use crate::ipc::message::{JSONRPC_VERSION, Request, RequestId, Response};
use crate::text::{decimal, push_decimal, push_str_chars, string_of};
use vstd::prelude::*;

verus! {

/// Highest value the session counter reaches before wrapping.
pub const SESSION_ID_MAX: u64 = 18446744073709551615;

/// The role of a message in a conversation.
#[derive(Debug, Clone, Copy, PartialEq, Eq, Structural)]
pub enum MessageRole {
    User,
    Assistant,
    System,
}

impl MessageRole {
    /// The lowercase wire name of the role.
    pub fn as_str(&self) -> (r: &'static str)
        ensures
            *self == MessageRole::User ==> r@ == "user"@,
            *self == MessageRole::Assistant ==> r@ == "assistant"@,
            *self == MessageRole::System ==> r@ == "system"@,
    {
        match self {
            MessageRole::User => "user",
            MessageRole::Assistant => "assistant",
            MessageRole::System => "system",
        }
    }
}

/// The session id that follows `last`: one more, reset to the floor of the
/// range when the counter is below it (corrupted) or at the top.
pub open spec fn next_session(last: u64) -> u64 {
    if last as int + 1 < SESSION_ID_MIN || last as int + 1 >= SESSION_ID_MAX {
        SESSION_ID_MIN
    } else {
        (last + 1) as u64
    }
}

/// The request-id allocator of the session caller: ids from 10000 up.
pub struct SessionIds {
    counter: u64,
}

impl SessionIds {
    /// The last id handed out (one below the floor before the first).
    pub closed spec fn last(&self) -> u64 {
        self.counter
    }

    /// An allocator whose first id is the floor of the range.
    pub fn new() -> (r: SessionIds)
        ensures
            r.last() == SESSION_ID_MIN - 1,
    {
        SessionIds { counter: SESSION_ID_MIN - 1 }
    }

    /// The next id of the session range: always at least 10000.
    pub fn next_request_id(&mut self) -> (r: u64)
        ensures
            r == next_session(old(self).last()),
            SESSION_ID_MIN <= r < SESSION_ID_MAX,
            final(self).last() == r,
    {
        if self.counter >= SESSION_ID_MAX - 1 || self.counter < SESSION_ID_MIN - 1 {
            self.counter = SESSION_ID_MIN;
        } else {
            self.counter = self.counter + 1;
        }
        self.counter
    }
}

/// Id partition: every id of the interactive allocator lies in `0..=9999`,
/// every id of the session allocator is at least 10000, so no id is ever
/// handed out by both.
pub proof fn lemma_id_partition(interactive_last: u64, session_last: u64)
    ensures
        next_interactive(interactive_last) <= INTERACTIVE_ID_MAX,
        next_session(session_last) >= SESSION_ID_MIN,
        next_interactive(interactive_last) != next_session(session_last),
{
}

/// Reads a response of a session call: an error response becomes an RPC
/// error with its code and message; a response without a result is a parse
/// error; otherwise the result's JSON text.
pub fn response_result(resp: Response) -> (r: Result<String, IpcError>)
    ensures
        resp.error matches Some(e) ==> (r matches Err(IpcError::RpcError { code, message })
            && code == e.code && message == e.message),
        resp.error is None && resp.result is None ==> r matches Err(IpcError::ParseError(_)),
        resp.error is None && resp.result is Some ==> r == Ok::<String, IpcError>(resp.result->Some_0),
{
    if let Some(e) = resp.error {
        return Err(IpcError::RpcError { code: e.code, message: e.message });
    }
    match resp.result {
        Some(v) => Ok(v),
        None => Err(IpcError::ParseError("No result in response".to_owned())),
    }
}

/// The parameters of `session.list`.
pub open spec fn list_params(limit: Option<u64>) -> Seq<char> {
    match limit {
        Some(n) => "{\"limit\":"@ + decimal(n as nat) + "}"@,
        None => "{}"@,
    }
}

/// The parameters that name one session.
pub open spec fn session_params(session_id: Seq<char>) -> Seq<char> {
    "{\"session_id\":"@ + json_quoted(session_id) + "}"@
}

/// The parameters of `session.export`.
pub open spec fn export_params(session_id: Option<Seq<char>>, format: Seq<char>) -> Seq<char> {
    match session_id {
        Some(s) => "{\"format\":"@ + json_quoted(format) + ",\"session_id\":"@ + json_quoted(s) + "}"@,
        None => "{\"format\":"@ + json_quoted(format) + "}"@,
    }
}

impl Request {
    /// `session.list`, with an optional limit.
    pub fn session_list(id: u64, limit: Option<u64>) -> (r: Request)
        ensures
            r.jsonrpc@ == JSONRPC_VERSION@,
            r.id == RequestId::Number(id),
            r.method@ == "session.list"@,
            r.params matches Some(p) && p@ == list_params(limit),
    {
        let mut out: Vec<char> = Vec::new();
        match limit {
            Some(n) => {
                push_str_chars(&mut out, "{\"limit\":");
                push_decimal(n, &mut out);
                push_str_chars(&mut out, "}");
            },
            None => push_str_chars(&mut out, "{}"),
        }
        assert(out@ =~= list_params(limit));
        Request::new(id, "session.list", Some(string_of(out.as_slice())))
    }

    fn naming_session(id: u64, method: &str, session_id: &str) -> (r: Request)
        ensures
            r.jsonrpc@ == JSONRPC_VERSION@,
            r.id == RequestId::Number(id),
            r.method@ == method@,
            r.params matches Some(p) && p@ == session_params(session_id@),
    {
        let mut out: Vec<char> = Vec::new();
        push_str_chars(&mut out, "{\"session_id\":");
        let q = quote(session_id);
        push_str_chars(&mut out, q.as_str());
        push_str_chars(&mut out, "}");
        assert(out@ =~= session_params(session_id@));
        Request::new(id, method, Some(string_of(out.as_slice())))
    }

    /// `session.load` of one session.
    pub fn session_load(id: u64, session_id: &str) -> (r: Request)
        ensures
            r.jsonrpc@ == JSONRPC_VERSION@,
            r.id == RequestId::Number(id),
            r.method@ == "session.load"@,
            r.params matches Some(p) && p@ == session_params(session_id@),
    {
        Request::naming_session(id, "session.load", session_id)
    }

    /// `session.delete` of one session.
    pub fn session_delete(id: u64, session_id: &str) -> (r: Request)
        ensures
            r.jsonrpc@ == JSONRPC_VERSION@,
            r.id == RequestId::Number(id),
            r.method@ == "session.delete"@,
            r.params matches Some(p) && p@ == session_params(session_id@),
    {
        Request::naming_session(id, "session.delete", session_id)
    }

    /// `session.export` of the given session (or the current one) in a format.
    pub fn session_export(id: u64, session_id: Option<&str>, format: &str) -> (r: Request)
        ensures
            r.jsonrpc@ == JSONRPC_VERSION@,
            r.id == RequestId::Number(id),
            r.method@ == "session.export"@,
            r.params matches Some(p) && p@ == export_params(
                match session_id {
                    Some(s) => Some(s@),
                    None => None,
                },
                format@,
            ),
    {
        let mut out: Vec<char> = Vec::new();
        push_str_chars(&mut out, "{\"format\":");
        let f = quote(format);
        push_str_chars(&mut out, f.as_str());
        match session_id {
            Some(s) => {
                push_str_chars(&mut out, ",\"session_id\":");
                let q = quote(s);
                push_str_chars(&mut out, q.as_str());
                push_str_chars(&mut out, "}");
            },
            None => push_str_chars(&mut out, "}"),
        }
        Request::new(id, "session.export", Some(string_of(out.as_slice())))
    }
}

} // verus!
