//! The three wire message shapes and the requests this client sends.
//!
//! Payloads (`params`, `result`, `error.data`) are held as JSON text: the
//! library writes outbound ones itself, and inbound ones are the raw text
//! of the member as it arrived.

use crate::ipc::json::{json_quoted, quote};
use crate::text::{decimal, push_decimal, push_str_chars, string_of};
use vstd::prelude::*;

verus! {

/// The protocol version every message carries.
pub const JSONRPC_VERSION: &'static str = "2.0";

/// The version this client reports in its handshake.
pub const CLIENT_VERSION: &'static str = "0.1.0";

/// A correlation id: a number or a string, compared as an opaque key.
#[derive(Debug, Clone, PartialEq, Eq, Hash)]
pub enum RequestId {
    Number(u64),
    String(String),
}

/// A request; `params`, when present, is compact JSON text.
#[derive(Debug, Clone)]
pub struct Request {
    pub jsonrpc: String,
    pub id: RequestId,
    pub method: String,
    pub params: Option<String>,
}

/// A response to a request: a result or an error.
#[derive(Debug, Clone)]
pub struct Response {
    pub jsonrpc: String,
    pub id: RequestId,
    pub result: Option<String>,
    pub error: Option<RpcError>,
}

/// A one-way message; it carries no id.
#[derive(Debug, Clone)]
pub struct Notification {
    pub jsonrpc: String,
    pub method: String,
    pub params: Option<String>,
}

/// The error object of a response.
#[derive(Debug, Clone)]
pub struct RpcError {
    pub code: i32,
    pub message: String,
    pub data: Option<String>,
}

/// An id, with a string id as its characters.
pub enum IdView {
    Number(u64),
    Text(Seq<char>),
}

pub struct NotificationView {
    pub jsonrpc: Seq<char>,
    pub method: Seq<char>,
    pub params: Option<Seq<char>>,
}

pub struct RpcErrorView {
    pub code: i32,
    pub message: Seq<char>,
    pub data: Option<Seq<char>>,
}

pub struct ResponseView {
    pub jsonrpc: Seq<char>,
    pub id: IdView,
    pub result: Option<Seq<char>>,
    pub error: Option<RpcErrorView>,
}

impl View for RequestId {
    type V = IdView;

    open spec fn view(&self) -> IdView {
        match self {
            RequestId::Number(n) => IdView::Number(*n),
            RequestId::String(s) => IdView::Text(s@),
        }
    }
}

impl View for Notification {
    type V = NotificationView;

    open spec fn view(&self) -> NotificationView {
        NotificationView { jsonrpc: self.jsonrpc@, method: self.method@, params: text_view(self.params) }
    }
}

impl View for RpcError {
    type V = RpcErrorView;

    open spec fn view(&self) -> RpcErrorView {
        RpcErrorView { code: self.code, message: self.message@, data: text_view(self.data) }
    }
}

impl View for Response {
    type V = ResponseView;

    open spec fn view(&self) -> ResponseView {
        ResponseView {
            jsonrpc: self.jsonrpc@,
            id: self.id@,
            result: text_view(self.result),
            error: match self.error {
                Some(e) => Some(e@),
                None => None,
            },
        }
    }
}

/// The JSON text of an id.
pub open spec fn id_json(id: RequestId) -> Seq<char> {
    match id {
        RequestId::Number(n) => decimal(n as nat),
        RequestId::String(s) => json_quoted(s@),
    }
}

/// The framed line of a request: one compact JSON object and a newline.
pub open spec fn request_line(r: Request) -> Seq<char> {
    "{\"jsonrpc\":"@ + json_quoted(r.jsonrpc@) + ",\"id\":"@ + id_json(r.id) + ",\"method\":"@
        + json_quoted(r.method@) + match r.params {
        Some(p) => ",\"params\":"@ + p@,
        None => Seq::<char>::empty(),
    } + "}\n"@
}

/// The parameters of an `agent.query` request.
pub open spec fn agent_query_params(message: Seq<char>) -> Seq<char> {
    "{\"message\":"@ + json_quoted(message) + ",\"options\":{\"stream\":true}}"@
}

/// The parameters of a `tool.approve` request.
pub open spec fn tool_approve_params(execution_id: Seq<char>, approved: bool) -> Seq<char> {
    "{\"approved\":"@ + (if approved { "true"@ } else { "false"@ }) + ",\"execution_id\":"@
        + json_quoted(execution_id) + "}"@
}

/// The terminal geometry as a JSON object.
pub open spec fn size_json(cols: u16, rows: u16) -> Seq<char> {
    "{\"cols\":"@ + decimal(cols as nat) + ",\"rows\":"@ + decimal(rows as nat) + "}"@
}

/// The parameters of the `initialize` handshake.
pub open spec fn initialize_params(cols: u16, rows: u16) -> Seq<char> {
    "{\"capabilities\":[\"streaming\",\"blocks\",\"syntax_highlighting\"],\"client_info\":{\"name\":\"openagent-terminal\",\"version\":"@
        + json_quoted(CLIENT_VERSION@) + "},\"protocol_version\":\"1.0.0\",\"terminal_size\":"@
        + size_json(cols, rows) + "}"@
}

/// The parameters of a `context.update` that reports the terminal size.
pub open spec fn terminal_size_params(cols: u16, rows: u16) -> Seq<char> {
    "{\"terminal_size\":"@ + size_json(cols, rows) + "}"@
}

/// The parameters of a `context.update` that reports the working directory.
pub open spec fn cwd_params(cwd: Seq<char>) -> Seq<char> {
    "{\"cwd\":"@ + json_quoted(cwd) + "}"@
}

/// The parameters of a `context.update` with any of its fields.
pub open spec fn context_params(cwd: Option<Seq<char>>, size: Option<(u16, u16)>) -> Seq<char> {
    match (cwd, size) {
        (Some(c), Some((w, h))) => "{\"cwd\":"@ + json_quoted(c) + ",\"terminal_size\":"@ + size_json(w, h) + "}"@,
        (Some(c), None) => cwd_params(c),
        (None, Some((w, h))) => terminal_size_params(w, h),
        (None, None) => "{}"@,
    }
}

/// The framed line of a notification.
pub open spec fn notification_line(n: NotificationView) -> Seq<char> {
    "{\"jsonrpc\":"@ + json_quoted(n.jsonrpc) + ",\"method\":"@ + json_quoted(n.method) + match n.params {
        Some(p) => ",\"params\":"@ + p,
        None => Seq::<char>::empty(),
    } + "}\n"@
}

/// The characters of an optional string.
pub open spec fn text_view(s: Option<String>) -> Option<Seq<char>> {
    match s {
        Some(t) => Some(t@),
        None => None,
    }
}

fn push_size_json(cols: u16, rows: u16, out: &mut Vec<char>)
    ensures
        final(out)@ == old(out)@ + size_json(cols, rows),
{
    push_str_chars(out, "{\"cols\":");
    push_decimal(cols as u64, out);
    push_str_chars(out, ",\"rows\":");
    push_decimal(rows as u64, out);
    push_str_chars(out, "}");
    assert(out@ =~= old(out)@ + size_json(cols, rows));
}

impl Request {
    /// Creates a request with a numeric id.
    pub fn new(id: u64, method: &str, params: Option<String>) -> (r: Request)
        ensures
            r.jsonrpc@ == JSONRPC_VERSION@,
            r.id == RequestId::Number(id),
            r.method@ == method@,
            r.params == params,
    {
        Request { jsonrpc: JSONRPC_VERSION.to_owned(), id: RequestId::Number(id), method: method.to_owned(), params }
    }

    /// The capability/version handshake, reporting the terminal geometry.
    pub fn initialize(id: u64, cols: u16, rows: u16) -> (r: Request)
        ensures
            r.jsonrpc@ == JSONRPC_VERSION@,
            r.id == RequestId::Number(id),
            r.method@ == "initialize"@,
            r.params matches Some(p) && p@ == initialize_params(cols, rows),
    {
        let mut out: Vec<char> = Vec::new();
        push_str_chars(&mut out, "{\"capabilities\":[\"streaming\",\"blocks\",\"syntax_highlighting\"],\"client_info\":{\"name\":\"openagent-terminal\",\"version\":");
        let v = quote(CLIENT_VERSION);
        push_str_chars(&mut out, v.as_str());
        push_str_chars(&mut out, "},\"protocol_version\":\"1.0.0\",\"terminal_size\":");
        push_size_json(cols, rows, &mut out);
        push_str_chars(&mut out, "}");
        assert(out@ =~= initialize_params(cols, rows));
        Request::new(id, "initialize", Some(string_of(out.as_slice())))
    }

    /// A streaming `agent.query` for the given text.
    pub fn agent_query(id: u64, message: &str) -> (r: Request)
        ensures
            r.jsonrpc@ == JSONRPC_VERSION@,
            r.id == RequestId::Number(id),
            r.method@ == "agent.query"@,
            r.params matches Some(p) && p@ == agent_query_params(message@),
    {
        let mut out: Vec<char> = Vec::new();
        push_str_chars(&mut out, "{\"message\":");
        let q = quote(message);
        push_str_chars(&mut out, q.as_str());
        push_str_chars(&mut out, ",\"options\":{\"stream\":true}}");
        assert(out@ =~= agent_query_params(message@));
        Request::new(id, "agent.query", Some(string_of(out.as_slice())))
    }

    /// The answer to a tool approval prompt.
    pub fn tool_approve(id: u64, execution_id: &str, approved: bool) -> (r: Request)
        ensures
            r.jsonrpc@ == JSONRPC_VERSION@,
            r.id == RequestId::Number(id),
            r.method@ == "tool.approve"@,
            r.params matches Some(p) && p@ == tool_approve_params(execution_id@, approved),
    {
        let mut out: Vec<char> = Vec::new();
        push_str_chars(&mut out, "{\"approved\":");
        if approved {
            push_str_chars(&mut out, "true");
        } else {
            push_str_chars(&mut out, "false");
        }
        push_str_chars(&mut out, ",\"execution_id\":");
        let q = quote(execution_id);
        push_str_chars(&mut out, q.as_str());
        push_str_chars(&mut out, "}");
        assert(out@ =~= tool_approve_params(execution_id@, approved));
        Request::new(id, "tool.approve", Some(string_of(out.as_slice())))
    }

    /// The framed wire form of this request.
    pub fn encode(&self) -> (r: String)
        ensures
            r@ == request_line(*self),
    {
        let mut out: Vec<char> = Vec::new();
        push_str_chars(&mut out, "{\"jsonrpc\":");
        let v = quote(self.jsonrpc.as_str());
        push_str_chars(&mut out, v.as_str());
        push_str_chars(&mut out, ",\"id\":");
        match &self.id {
            RequestId::Number(n) => push_decimal(*n, &mut out),
            RequestId::String(s) => {
                let q = quote(s.as_str());
                push_str_chars(&mut out, q.as_str());
            },
        }
        push_str_chars(&mut out, ",\"method\":");
        let m = quote(self.method.as_str());
        push_str_chars(&mut out, m.as_str());
        match &self.params {
            Some(p) => {
                push_str_chars(&mut out, ",\"params\":");
                push_str_chars(&mut out, p.as_str());
            },
            None => {},
        }
        push_str_chars(&mut out, "}\n");
        assert(out@ =~= request_line(*self));
        string_of(out.as_slice())
    }
}

impl Notification {
    /// Creates a notification.
    pub fn new(method: &str, params: Option<String>) -> (r: Notification)
        ensures
            r.jsonrpc@ == JSONRPC_VERSION@,
            r.method@ == method@,
            r.params == params,
    {
        Notification { jsonrpc: JSONRPC_VERSION.to_owned(), method: method.to_owned(), params }
    }


    /// A `context.update` that reports the working directory.
    pub fn context_update(cwd: &str) -> (r: Notification)
        ensures
            r.jsonrpc@ == JSONRPC_VERSION@,
            r.method@ == "context.update"@,
            text_view(r.params) == Some(cwd_params(cwd@)),
    {
        Notification::context_update_full(Some(cwd.to_owned()), None)
    }

    /// A `context.update` that reports the terminal size.
    pub fn context_update_terminal_size(cols: u16, rows: u16) -> (r: Notification)
        ensures
            r.jsonrpc@ == JSONRPC_VERSION@,
            r.method@ == "context.update"@,
            text_view(r.params) == Some(terminal_size_params(cols, rows)),
    {
        Notification::context_update_full(None, Some((cols, rows)))
    }

    /// A `context.update` with the fields that are given.
    pub fn context_update_full(cwd: Option<String>, terminal_size: Option<(u16, u16)>) -> (r: Notification)
        ensures
            r.jsonrpc@ == JSONRPC_VERSION@,
            r.method@ == "context.update"@,
            text_view(r.params) == Some(context_params(text_view(cwd), terminal_size)),
    {
        let ghost cwd_view = text_view(cwd);
        let mut out: Vec<char> = Vec::new();
        match (&cwd, terminal_size) {
            (Some(c), Some((w, h))) => {
                push_str_chars(&mut out, "{\"cwd\":");
                let q = quote(c.as_str());
                push_str_chars(&mut out, q.as_str());
                push_str_chars(&mut out, ",\"terminal_size\":");
                push_size_json(w, h, &mut out);
                push_str_chars(&mut out, "}");
            },
            (Some(c), None) => {
                push_str_chars(&mut out, "{\"cwd\":");
                let q = quote(c.as_str());
                push_str_chars(&mut out, q.as_str());
                push_str_chars(&mut out, "}");
            },
            (None, Some((w, h))) => {
                push_str_chars(&mut out, "{\"terminal_size\":");
                push_size_json(w, h, &mut out);
                push_str_chars(&mut out, "}");
            },
            (None, None) => {
                push_str_chars(&mut out, "{}");
            },
        }
        assert(out@ =~= context_params(cwd_view, terminal_size));
        Notification::new("context.update", Some(string_of(out.as_slice())))
    }

    /// The framed wire form of this notification.
    pub fn encode(&self) -> (r: String)
        ensures
            r@ == notification_line(self@),
    {
        let mut out: Vec<char> = Vec::new();
        push_str_chars(&mut out, "{\"jsonrpc\":");
        let v = quote(self.jsonrpc.as_str());
        push_str_chars(&mut out, v.as_str());
        push_str_chars(&mut out, ",\"method\":");
        let m = quote(self.method.as_str());
        push_str_chars(&mut out, m.as_str());
        match &self.params {
            Some(p) => {
                push_str_chars(&mut out, ",\"params\":");
                push_str_chars(&mut out, p.as_str());
            },
            None => {},
        }
        push_str_chars(&mut out, "}\n");
        assert(out@ =~= notification_line(self@));
        string_of(out.as_slice())
    }
}

} // verus!
