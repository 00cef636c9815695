//! Strict classification of inbound lines, and drift detection.
//!
//! A line is read into a [`Frame`]: the members of its top-level object,
//! each with its raw text and the shape `serde_json` reads in it, and the
//! members of its `error` member when that is an object. Classification is a
//! function of the frame: the notification shape is tried first, the
//! response shape second, and a member outside a shape's schema rejects that
//! shape.

use crate::ipc::error::IpcError;
use crate::ipc::json::{
    i64_value, json_i64_value, json_is_null, json_members, json_string_value, json_u64_value, null_value,
    object_members, string_value, u64_value,
};
use crate::ipc::message::{
    IdView, Notification, NotificationView, RequestId, Response, ResponseView, RpcError, RpcErrorView, text_view,
};
use crate::text::str_eq;
use vstd::prelude::*;

verus! {

/// What a JSON value is, as far as the schemas care.
#[derive(Debug, Clone)]
pub enum Shape {
    Null,
    Text(String),
    Unsigned(u64),
    Signed(i64),
    Other,
}

/// One member of a JSON object: its name, its value's raw text, and the
/// shape of that value.
#[derive(Debug, Clone)]
pub struct Member {
    pub name: String,
    pub raw: String,
    pub shape: Shape,
}

/// The members of an inbound message, and those of its `error` member when
/// that member is an object.
#[derive(Debug, Clone)]
pub struct Frame {
    pub members: Vec<Member>,
    pub error_members: Option<Vec<Member>>,
}

/// A classified inbound message.
#[derive(Debug, Clone)]
pub enum Inbound {
    Notify(Notification),
    Reply(Response),
}

pub enum ShapeView {
    Null,
    Text(Seq<char>),
    Unsigned(u64),
    Signed(i64),
    Other,
}

pub struct MemberView {
    pub name: Seq<char>,
    pub raw: Seq<char>,
    pub shape: ShapeView,
}

pub struct FrameView {
    pub members: Seq<MemberView>,
    pub error_members: Option<Seq<MemberView>>,
}

pub enum InboundView {
    Notify(NotificationView),
    Reply(ResponseView),
}

impl View for Shape {
    type V = ShapeView;

    open spec fn view(&self) -> ShapeView {
        match self {
            Shape::Null => ShapeView::Null,
            Shape::Text(s) => ShapeView::Text(s@),
            Shape::Unsigned(n) => ShapeView::Unsigned(*n),
            Shape::Signed(n) => ShapeView::Signed(*n),
            Shape::Other => ShapeView::Other,
        }
    }
}

impl View for Member {
    type V = MemberView;

    open spec fn view(&self) -> MemberView {
        MemberView { name: self.name@, raw: self.raw@, shape: self.shape@ }
    }
}

/// The views of a list of members.
pub open spec fn views(ms: Seq<Member>) -> Seq<MemberView> {
    ms.map_values(|m: Member| m@)
}

impl View for Frame {
    type V = FrameView;

    open spec fn view(&self) -> FrameView {
        FrameView {
            members: views(self.members@),
            error_members: match self.error_members {
                Some(es) => Some(views(es@)),
                None => None,
            },
        }
    }
}

impl View for Inbound {
    type V = InboundView;

    open spec fn view(&self) -> InboundView {
        match self {
            Inbound::Notify(n) => InboundView::Notify(n@),
            Inbound::Reply(r) => InboundView::Reply(r@),
        }
    }
}

/// The shape `serde_json` reads in a JSON text: `null`, a string, an integer
/// that fits in `u64`, else one that fits in `i64`, else anything else.
pub open spec fn shape_of_text(t: Seq<char>) -> ShapeView {
    if json_is_null(t) {
        ShapeView::Null
    } else if json_string_value(t) is Some {
        ShapeView::Text(json_string_value(t)->Some_0)
    } else if json_u64_value(t) is Some {
        ShapeView::Unsigned(json_u64_value(t)->Some_0)
    } else if json_i64_value(t) is Some {
        ShapeView::Signed(json_i64_value(t)->Some_0)
    } else {
        ShapeView::Other
    }
}

/// A member read from its name and raw text.
pub open spec fn member_model(p: (Seq<char>, Seq<char>)) -> MemberView {
    MemberView { name: p.0, raw: p.1, shape: shape_of_text(p.1) }
}

/// Members read from names and raw texts.
pub open spec fn members_model(ps: Seq<(Seq<char>, Seq<char>)>) -> Seq<MemberView> {
    ps.map_values(|p: (Seq<char>, Seq<char>)| member_model(p))
}

/// The last pair called `name`.
pub open spec fn find_pair(ps: Seq<(Seq<char>, Seq<char>)>, name: Seq<char>) -> Option<(Seq<char>, Seq<char>)>
    decreases ps.len(),
{
    if ps.len() == 0 {
        None
    } else if ps.last().0 == name {
        Some(ps.last())
    } else {
        find_pair(ps.drop_last(), name)
    }
}

/// The frame of an object's members: the members, and those of its `error`
/// member when that member's text is an object.
pub open spec fn frame_model(ps: Seq<(Seq<char>, Seq<char>)>) -> FrameView {
    FrameView {
        members: members_model(ps),
        error_members: match find_pair(ps, "error"@) {
            Some(e) => match json_members(e.1) {
                Some(es) => Some(members_model(es)),
                None => None,
            },
            None => None,
        },
    }
}

/// The index of the last member called `name`, or -1.
pub open spec fn last_index(ms: Seq<MemberView>, name: Seq<char>) -> int
    decreases ms.len(),
{
    if ms.len() == 0 {
        -1
    } else if ms.last().name == name {
        ms.len() - 1
    } else {
        last_index(ms.drop_last(), name)
    }
}

/// The member called `name` (the last one, were there several).
pub open spec fn find(ms: Seq<MemberView>, name: Seq<char>) -> Option<MemberView> {
    let i = last_index(ms, name);
    if i >= 0 { Some(ms[i]) } else { None }
}

/// Every member's name is in `allowed`.
pub open spec fn only_names(ms: Seq<MemberView>, allowed: Set<Seq<char>>) -> bool {
    forall|i: int| 0 <= i < ms.len() ==> allowed.contains(#[trigger] ms[i].name)
}

/// The member is present and holds a string.
pub open spec fn is_text(m: Option<MemberView>) -> bool {
    m matches Some(x) && x.shape is Text
}

/// The string that a member holds.
pub open spec fn text_of(m: Option<MemberView>) -> Seq<char> {
    m->Some_0.shape->Text_0
}

/// An optional payload: absent and `null` both read as `None`.
pub open spec fn payload(m: Option<MemberView>) -> Option<Seq<char>> {
    match m {
        None => None,
        Some(x) => if x.shape is Null { None } else { Some(x.raw) },
    }
}

/// The member is a valid id: an unsigned integer or a string.
pub open spec fn id_fits(m: Option<MemberView>) -> bool {
    m matches Some(x) && (x.shape is Unsigned || x.shape is Text)
}

/// The id that a valid id member holds.
pub open spec fn id_of(m: Option<MemberView>) -> IdView {
    match m->Some_0.shape {
        ShapeView::Unsigned(n) => IdView::Number(n),
        ShapeView::Text(s) => IdView::Text(s),
        _ => IdView::Number(0),
    }
}

/// The member is an integer that fits in `i32`.
pub open spec fn code_fits(m: Option<MemberView>) -> bool {
    m matches Some(x) && match x.shape {
        ShapeView::Unsigned(n) => n <= i32::MAX,
        ShapeView::Signed(n) => i32::MIN <= n <= i32::MAX,
        _ => false,
    }
}

/// The integer that a valid code member holds.
pub open spec fn code_of(m: Option<MemberView>) -> i32 {
    match m->Some_0.shape {
        ShapeView::Unsigned(n) => n as i32,
        ShapeView::Signed(n) => n as i32,
        _ => 0,
    }
}

pub open spec fn notification_names() -> Set<Seq<char>> {
    set!["jsonrpc"@, "method"@, "params"@]
}

pub open spec fn response_names() -> Set<Seq<char>> {
    set!["jsonrpc"@, "id"@, "result"@, "error"@]
}

pub open spec fn error_names() -> Set<Seq<char>> {
    set!["code"@, "message"@, "data"@]
}

/// The names that the envelope defines; any other name is drift.
pub open spec fn known_names() -> Set<Seq<char>> {
    set!["jsonrpc"@, "method"@, "id"@, "params"@, "result"@, "error"@]
}

/// The error object fits its schema.
pub open spec fn rpc_error_fits(es: Seq<MemberView>) -> bool {
    &&& only_names(es, error_names())
    &&& code_fits(find(es, "code"@))
    &&& is_text(find(es, "message"@))
}

/// The frame fits the notification schema.
pub open spec fn notification_fits(f: FrameView) -> bool {
    &&& only_names(f.members, notification_names())
    &&& is_text(find(f.members, "jsonrpc"@))
    &&& is_text(find(f.members, "method"@))
}

/// The frame's `error` member is absent, `null`, or a valid error object.
pub open spec fn error_member_fits(f: FrameView) -> bool {
    match find(f.members, "error"@) {
        None => true,
        Some(m) => m.shape is Null || (f.error_members matches Some(es) && rpc_error_fits(es)),
    }
}

/// The frame fits the response schema.
pub open spec fn response_fits(f: FrameView) -> bool {
    &&& only_names(f.members, response_names())
    &&& is_text(find(f.members, "jsonrpc"@))
    &&& id_fits(find(f.members, "id"@))
    &&& error_member_fits(f)
}

/// The notification that a fitting frame denotes.
pub open spec fn notification_of(f: FrameView) -> NotificationView {
    NotificationView {
        jsonrpc: text_of(find(f.members, "jsonrpc"@)),
        method: text_of(find(f.members, "method"@)),
        params: payload(find(f.members, "params"@)),
    }
}

/// The error that a fitting frame's `error` member denotes.
pub open spec fn rpc_error_of(f: FrameView) -> Option<RpcErrorView> {
    match find(f.members, "error"@) {
        None => None,
        Some(m) => if m.shape is Null {
            None
        } else {
            let es = f.error_members->Some_0;
            Some(RpcErrorView {
                code: code_of(find(es, "code"@)),
                message: text_of(find(es, "message"@)),
                data: payload(find(es, "data"@)),
            })
        },
    }
}

/// The response that a fitting frame denotes.
pub open spec fn response_of(f: FrameView) -> ResponseView {
    ResponseView {
        jsonrpc: text_of(find(f.members, "jsonrpc"@)),
        id: id_of(find(f.members, "id"@)),
        result: payload(find(f.members, "result"@)),
        error: rpc_error_of(f),
    }
}

/// Classification: the notification if the frame fits that schema, else the
/// response if it fits that one, else nothing.
pub open spec fn inbound_of(f: FrameView) -> Option<InboundView> {
    if notification_fits(f) {
        Some(InboundView::Notify(notification_of(f)))
    } else if response_fits(f) {
        Some(InboundView::Reply(response_of(f)))
    } else {
        None
    }
}

/// What strict decoding makes of a line: `None` when it is not a JSON object
/// or fits neither schema.
pub open spec fn decoded(line: Seq<char>) -> Option<InboundView> {
    match json_members(line) {
        Some(ps) => inbound_of(frame_model(ps)),
        None => None,
    }
}

/// The names outside the envelope, in the order they appear.
pub open spec fn unknown_names(ms: Seq<MemberView>) -> Seq<Seq<char>>
    decreases ms.len(),
{
    if ms.len() == 0 {
        Seq::empty()
    } else if known_names().contains(ms.last().name) {
        unknown_names(ms.drop_last())
    } else {
        unknown_names(ms.drop_last()).push(ms.last().name)
    }
}

/// The tolerant envelope reads: `jsonrpc` is a string and `method`, if
/// present and not `null`, is a string.
pub open spec fn tolerant_fits(f: FrameView) -> bool {
    &&& is_text(find(f.members, "jsonrpc"@))
    &&& match find(f.members, "method"@) {
        None => true,
        Some(m) => m.shape is Null || m.shape is Text,
    }
}

/// What drift detection reports for a frame.
pub open spec fn drift_report(f: FrameView) -> Option<Seq<Seq<char>>> {
    if tolerant_fits(f) && unknown_names(f.members).len() > 0 {
        Some(unknown_names(f.members))
    } else {
        None
    }
}

/// The position of the last member called `name`.
pub fn position(ms: &Vec<Member>, name: &str) -> (r: Option<usize>)
    ensures
        match r {
            Some(i) => i as int == last_index(views(ms@), name@) && i < ms@.len(),
            None => last_index(views(ms@), name@) == -1,
        },
{
    let ghost vs = views(ms@);
    let mut found: Option<usize> = None;
    let mut i: usize = 0;
    while i < ms.len()
        invariant
            i <= ms@.len(),
            vs == views(ms@),
            match found {
                Some(k) => k as int == last_index(vs.take(i as int), name@) && k < i,
                None => last_index(vs.take(i as int), name@) == -1,
            },
        decreases ms@.len() - i,
    {
        assert(vs.take(i as int + 1).drop_last() =~= vs.take(i as int));
        assert(vs[i as int] == ms@[i as int]@);
        if str_eq(ms[i].name.as_str(), name) {
            found = Some(i);
        }
        i = i + 1;
    }
    assert(vs.take(ms@.len() as int) =~= vs);
    found
}

/// The member called `name`, if any.
pub fn lookup<'a>(ms: &'a Vec<Member>, name: &str) -> (r: Option<&'a Member>)
    ensures
        match r {
            Some(m) => find(views(ms@), name@) == Some(m@),
            None => find(views(ms@), name@) is None,
        },
{
    match position(ms, name) {
        Some(i) => Some(&ms[i]),
        None => None,
    }
}

/// The schemas whose member names are checked.
#[derive(Debug, Clone, Copy, PartialEq, Eq)]
pub enum Schema {
    NotificationShape,
    ResponseShape,
    ErrorShape,
    Envelope,
}

/// The member names that a schema allows.
pub open spec fn schema_names(s: Schema) -> Set<Seq<char>> {
    match s {
        Schema::NotificationShape => notification_names(),
        Schema::ResponseShape => response_names(),
        Schema::ErrorShape => error_names(),
        Schema::Envelope => known_names(),
    }
}

/// Whether the schema allows a member called `n`.
pub fn allows(schema: Schema, n: &str) -> (r: bool)
    ensures
        r == schema_names(schema).contains(n@),
{
    match schema {
        Schema::NotificationShape => str_eq(n, "jsonrpc") || str_eq(n, "method") || str_eq(n, "params"),
        Schema::ResponseShape => str_eq(n, "jsonrpc") || str_eq(n, "id") || str_eq(n, "result") || str_eq(n, "error"),
        Schema::ErrorShape => str_eq(n, "code") || str_eq(n, "message") || str_eq(n, "data"),
        Schema::Envelope => str_eq(n, "jsonrpc") || str_eq(n, "method") || str_eq(n, "id")
            || str_eq(n, "params") || str_eq(n, "result") || str_eq(n, "error"),
    }
}

/// Whether every member's name is allowed by the schema.
pub fn names_within(ms: &Vec<Member>, schema: Schema) -> (r: bool)
    ensures
        r == only_names(views(ms@), schema_names(schema)),
{
    let mut i: usize = 0;
    while i < ms.len()
        invariant
            i <= ms@.len(),
            forall|j: int| 0 <= j < i ==> schema_names(schema).contains(#[trigger] views(ms@)[j].name),
        decreases ms@.len() - i,
    {
        assert(views(ms@)[i as int] == ms@[i as int]@);
        if !allows(schema, ms[i].name.as_str()) {
            assert(!schema_names(schema).contains(views(ms@)[i as int].name));
            return false;
        }
        i = i + 1;
    }
    true
}

fn text_field(ms: &Vec<Member>, name: &str) -> (r: Option<String>)
    ensures
        is_text(find(views(ms@), name@)) ==> (r matches Some(t) && t@ == text_of(find(views(ms@), name@))),
        !is_text(find(views(ms@), name@)) ==> r is None,
{
    match lookup(ms, name) {
        Some(m) => match &m.shape {
            Shape::Text(s) => Some(s.clone()),
            _ => None,
        },
        None => None,
    }
}

fn payload_field(ms: &Vec<Member>, name: &str) -> (r: Option<String>)
    ensures
        text_view(r) == payload(find(views(ms@), name@)),
{
    match lookup(ms, name) {
        Some(m) => match &m.shape {
            Shape::Null => None,
            _ => Some(m.raw.clone()),
        },
        None => None,
    }
}

fn id_field(ms: &Vec<Member>) -> (r: Option<RequestId>)
    ensures
        id_fits(find(views(ms@), "id"@)) ==> (r matches Some(i) && i@ == id_of(find(views(ms@), "id"@))),
        !id_fits(find(views(ms@), "id"@)) ==> r is None,
{
    match lookup(ms, "id") {
        Some(m) => match &m.shape {
            Shape::Unsigned(n) => Some(RequestId::Number(*n)),
            Shape::Text(s) => Some(RequestId::String(s.clone())),
            _ => None,
        },
        None => None,
    }
}

fn code_field(ms: &Vec<Member>) -> (r: Option<i32>)
    ensures
        code_fits(find(views(ms@), "code"@)) ==> r == Some(code_of(find(views(ms@), "code"@))),
        !code_fits(find(views(ms@), "code"@)) ==> r is None,
{
    match lookup(ms, "code") {
        Some(m) => match &m.shape {
            Shape::Unsigned(n) => if *n <= 2147483647 { Some(*n as i32) } else { None },
            Shape::Signed(n) => if -2147483648 <= *n && *n <= 2147483647 { Some(*n as i32) } else { None },
            _ => None,
        },
        None => None,
    }
}

/// Reads the frame as a notification, if it fits that schema.
pub fn read_notification(frame: &Frame) -> (r: Option<Notification>)
    ensures
        notification_fits(frame@) ==> (r matches Some(n) && n@ == notification_of(frame@)),
        !notification_fits(frame@) ==> r is None,
{
    if !names_within(&frame.members, Schema::NotificationShape) {
        return None;
    }
    let jsonrpc = match text_field(&frame.members, "jsonrpc") {
        Some(t) => t,
        None => return None,
    };
    let method = match text_field(&frame.members, "method") {
        Some(t) => t,
        None => return None,
    };
    let params = payload_field(&frame.members, "params");
    Some(Notification { jsonrpc, method, params })
}

fn read_rpc_error(frame: &Frame) -> (r: Option<Option<RpcError>>)
    ensures
        error_member_fits(frame@) ==> (r matches Some(e) && match e {
            Some(x) => rpc_error_of(frame@) == Some(x@),
            None => rpc_error_of(frame@) is None,
        }),
        !error_member_fits(frame@) ==> r is None,
{
    match lookup(&frame.members, "error") {
        None => Some(None),
        Some(m) => {
            if let Shape::Null = m.shape {
                return Some(None);
            }
            match &frame.error_members {
                None => None,
                Some(es) => {
                    if !names_within(es, Schema::ErrorShape) {
                        return None;
                    }
                    let code = match code_field(es) {
                        Some(c) => c,
                        None => return None,
                    };
                    let message = match text_field(es, "message") {
                        Some(t) => t,
                        None => return None,
                    };
                    let data = payload_field(es, "data");
                    Some(Some(RpcError { code, message, data }))
                },
            }
        },
    }
}

/// Reads the frame as a response, if it fits that schema.
pub fn read_response(frame: &Frame) -> (r: Option<Response>)
    ensures
        response_fits(frame@) ==> (r matches Some(x) && x@ == response_of(frame@)),
        !response_fits(frame@) ==> r is None,
{
    if !names_within(&frame.members, Schema::ResponseShape) {
        return None;
    }
    let jsonrpc = match text_field(&frame.members, "jsonrpc") {
        Some(t) => t,
        None => return None,
    };
    let id = match id_field(&frame.members) {
        Some(i) => i,
        None => return None,
    };
    let error = match read_rpc_error(frame) {
        Some(e) => e,
        None => return None,
    };
    let result = payload_field(&frame.members, "result");
    Some(Response { jsonrpc, id, result, error })
}

/// Classifies a frame: as a notification if it fits that schema, else as a
/// response if it fits that one, else a parse error.
pub fn classify(frame: &Frame) -> (r: Result<Inbound, IpcError>)
    ensures
        match inbound_of(frame@) {
            Some(iv) => r matches Ok(x) && x@ == iv,
            None => r matches Err(IpcError::ParseError(_)),
        },
{
    if let Some(n) = read_notification(frame) {
        return Ok(Inbound::Notify(n));
    }
    match read_response(frame) {
        Some(resp) => Ok(Inbound::Reply(resp)),
        None => Err(IpcError::ParseError("message fits neither the notification nor the response schema".to_owned())),
    }
}

/// The names of the members outside the envelope, in order.
pub fn unknown_fields(ms: &Vec<Member>) -> (r: Vec<String>)
    ensures
        r@.len() == unknown_names(views(ms@)).len(),
        forall|i: int| 0 <= i < r@.len() ==> (#[trigger] r@[i])@ == unknown_names(views(ms@))[i],
{
    let ghost vs = views(ms@);
    let mut out: Vec<String> = Vec::new();
    let mut i: usize = 0;
    while i < ms.len()
        invariant
            i <= ms@.len(),
            vs == views(ms@),
            out@.len() == unknown_names(vs.take(i as int)).len(),
            forall|k: int| 0 <= k < out@.len() ==> (#[trigger] out@[k])@ == unknown_names(vs.take(i as int))[k],
        decreases ms@.len() - i,
    {
        assert(vs.take(i as int + 1).drop_last() =~= vs.take(i as int));
        assert(vs[i as int] == ms@[i as int]@);
        if !allows(Schema::Envelope, ms[i].name.as_str()) {
            out.push(ms[i].name.clone());
        }
        i = i + 1;
    }
    assert(vs.take(ms@.len() as int) =~= vs);
    out
}

/// Drift detection: the names of the members outside the envelope, when the
/// tolerant envelope reads and there is at least one such name. It never
/// affects the strict result.
pub fn drift(frame: &Frame) -> (r: Option<Vec<String>>)
    ensures
        r is Some <==> drift_report(frame@) is Some,
        r matches Some(names) ==> names@.len() == unknown_names(frame@.members).len()
            && forall|i: int| 0 <= i < names@.len() ==> (#[trigger] names@[i])@ == unknown_names(frame@.members)[i],
{
    if text_field(&frame.members, "jsonrpc").is_none() {
        return None;
    }
    match lookup(&frame.members, "method") {
        Some(m) => match &m.shape {
            Shape::Null => {},
            Shape::Text(_) => {},
            _ => return None,
        },
        None => {},
    }
    let names = unknown_fields(&frame.members);
    if names.len() == 0 {
        None
    } else {
        Some(names)
    }
}

proof fn lemma_unknown_names(ms: Seq<MemberView>)
    ensures
        unknown_names(ms).len() > 0 <==> exists|i: int|
            0 <= i < ms.len() && !known_names().contains(#[trigger] ms[i].name),
    decreases ms.len(),
{
    if ms.len() > 0 {
        lemma_unknown_names(ms.drop_last());
        if unknown_names(ms.drop_last()).len() > 0 {
            let i = choose|i: int| 0 <= i < ms.drop_last().len() && !known_names().contains(#[trigger] ms.drop_last()[i].name);
            assert(ms[i] == ms.drop_last()[i]);
        }
        if exists|i: int| 0 <= i < ms.len() && !known_names().contains(#[trigger] ms[i].name) {
            let i = choose|i: int| 0 <= i < ms.len() && !known_names().contains(#[trigger] ms[i].name);
            if i < ms.len() - 1 {
                assert(ms[i] == ms.drop_last()[i]);
            }
        }
    }
}

/// Drift tolerance: a message with a member outside the envelope fits
/// neither strict schema, so strict decoding rejects it, while drift
/// detection reports it (one report) whenever the tolerant envelope reads; a
/// message whose members all belong to the envelope is never reported.
pub proof fn lemma_drift_tolerance(f: FrameView)
    ensures
        unknown_names(f.members).len() > 0 ==> inbound_of(f) is None,
        unknown_names(f.members).len() > 0 && tolerant_fits(f) ==> drift_report(f) is Some,
        unknown_names(f.members).len() == 0 ==> drift_report(f) is None,
{
    lemma_unknown_names(f.members);
    if unknown_names(f.members).len() > 0 {
        let i = choose|i: int| 0 <= i < f.members.len() && !known_names().contains(#[trigger] f.members[i].name);
        assert(!notification_names().contains(f.members[i].name));
        assert(!response_names().contains(f.members[i].name));
    }
}

/// The shape of a JSON text.
fn shape_of(raw: &str) -> (r: Shape)
    ensures
        r@ == shape_of_text(raw@),
{
    if null_value(raw) {
        return Shape::Null;
    }
    if let Some(t) = string_value(raw) {
        return Shape::Text(t);
    }
    if let Some(n) = u64_value(raw) {
        return Shape::Unsigned(n);
    }
    if let Some(n) = i64_value(raw) {
        return Shape::Signed(n);
    }
    Shape::Other
}

/// The members read from names and raw texts.
fn members_from(pairs: &Vec<(String, String)>) -> (r: Vec<Member>)
    ensures
        views(r@) == members_model(pairs@.map_values(|p: (String, String)| (p.0@, p.1@))),
{
    let ghost pv = pairs@.map_values(|p: (String, String)| (p.0@, p.1@));
    let mut out: Vec<Member> = Vec::new();
    let mut i: usize = 0;
    while i < pairs.len()
        invariant
            i <= pairs@.len(),
            pv == pairs@.map_values(|p: (String, String)| (p.0@, p.1@)),
            views(out@) =~= members_model(pv.take(i as int)),
        decreases pairs@.len() - i,
    {
        let name = pairs[i].0.clone();
        let raw = pairs[i].1.clone();
        let shape = shape_of(raw.as_str());
        let m = Member { name, raw, shape };
        let ghost before = out@;
        assert(pv[i as int] == (pairs@[i as int].0@, pairs@[i as int].1@));
        assert(m@ == member_model(pv[i as int]));
        out.push(m);
        assert(out@ =~= before.push(m));
        assert(views(before.push(m)) =~= views(before).push(m@));
        assert(pv.take(i as int + 1) =~= pv.take(i as int).push(pv[i as int]));
        assert(members_model(pv.take(i as int).push(pv[i as int])) =~= members_model(pv.take(i as int)).push(
            member_model(pv[i as int]),
        ));
        i = i + 1;
    }
    assert(pv.take(pairs@.len() as int) =~= pv);
    out
}

/// The position of the last pair called `name`.
pub(crate) fn find_pair_exec(pairs: &Vec<(String, String)>, name: &str) -> (r: Option<usize>)
    ensures
        match r {
            Some(i) => i < pairs@.len() && find_pair(pairs@.map_values(|p: (String, String)| (p.0@, p.1@)), name@)
                == Some((pairs@[i as int].0@, pairs@[i as int].1@)),
            None => find_pair(pairs@.map_values(|p: (String, String)| (p.0@, p.1@)), name@) is None,
        },
{
    let ghost pv = pairs@.map_values(|p: (String, String)| (p.0@, p.1@));
    let mut i: usize = pairs.len();
    assert(pv.take(pv.len() as int) =~= pv);
    while i > 0
        invariant
            i <= pairs@.len(),
            pv == pairs@.map_values(|p: (String, String)| (p.0@, p.1@)),
            find_pair(pv, name@) == find_pair(pv.take(i as int), name@),
        decreases i,
    {
        assert(pv.take(i as int).drop_last() =~= pv.take(i - 1));
        assert(pv.take(i as int).last() == pv[i - 1]);
        if str_eq(pairs[i - 1].0.as_str(), name) {
            return Some(i - 1);
        }
        i = i - 1;
    }
    None
}

/// Reads one line into a frame. Text that is not one JSON object is a parse
/// error.
pub fn read_frame(line: &str) -> (r: Result<Frame, IpcError>)
    ensures
        match json_members(line@) {
            Some(ps) => r matches Ok(f) && f@ == frame_model(ps),
            None => r matches Err(IpcError::ParseError(_)),
        },
{
    let pairs = match object_members(line) {
        Some(ps) => ps,
        None => return Err(IpcError::ParseError("line is not a JSON object".to_owned())),
    };
    let ghost pv = pairs@.map_values(|p: (String, String)| (p.0@, p.1@));
    assert(pv =~= json_members(line@)->Some_0);
    let members = members_from(&pairs);
    let error_members = match find_pair_exec(&pairs, "error") {
        Some(i) => match object_members(pairs[i].1.as_str()) {
            Some(es) => {
                let ghost ev = es@.map_values(|p: (String, String)| (p.0@, p.1@));
                assert(ev =~= json_members(pairs@[i as int].1@)->Some_0);
                Some(members_from(&es))
            },
            None => None,
        },
        None => None,
    };
    Ok(Frame { members, error_members })
}

/// Strict decoding of one line: read, then classify.
pub fn decode(line: &str) -> (r: Result<Inbound, IpcError>)
    ensures
        match decoded(line@) {
            Some(iv) => r matches Ok(x) && x@ == iv,
            None => r matches Err(IpcError::ParseError(_)),
        },
{
    let frame = read_frame(line)?;
    classify(&frame)
}

} // verus!
