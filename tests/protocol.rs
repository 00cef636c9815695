use openagent_terminal::ipc::client::{
    connect_delay_ms, connect_failure, handle_line, settle, ConnectStep, WaitOutcome, ConnectionState, Delivery, IpcClient, CONNECT_ATTEMPTS,
};
use openagent_terminal::ipc::codec::{classify, decode, drift, read_frame, Inbound};
use openagent_terminal::ipc::error::IpcError;
use openagent_terminal::ipc::message::{Notification, Request, RequestId};
use openagent_terminal::ipc::pending::PendingTable;
use openagent_terminal::ipc::stream::{
    approval_decision, approval_outcome, approval_request, decide_key, stream_id_of, KeyDecision, Notice, PromptKey, QueryState,
    QueryStream, StreamAction,
};
use openagent_terminal::session::{response_result, SessionIds};

fn connected() -> IpcClient {
    let mut client = IpcClient::new();
    client.start_connect("/tmp/test.sock");
    client.attempt_succeeded();
    client
}

fn notice(line: &str) -> Notice {
    match decode(line) {
        Ok(Inbound::Notify(n)) => Notice::from_notification(&n),
        _ => panic!("not a notification: {}", line),
    }
}

#[test]
fn test_client_creation() {
    let client = IpcClient::new();
    assert!(!client.is_connected());
}

#[test]
fn test_request_id_wraparound() {
    let mut client = IpcClient::new();
    for _ in 0..10100 {
        let id = client.next_request_id();
        assert!(id <= 9999, "Request ID {} exceeded maximum", id);
    }
}

#[test]
fn test_send_request_not_connected() {
    let client = IpcClient::new();
    let request = Request::new(1, "test", None);
    let result = client.prepare_request(&request);
    assert!(result.is_err());
    assert!(matches!(result, Err(IpcError::NotConnected)));
}

#[test]
fn test_serialize_request() {
    let req = Request::new(1, "test_method", None);
    let json = req.encode();
    assert!(json.contains("\"jsonrpc\":\"2.0\""));
    assert!(json.contains("\"id\":1"));
    assert!(json.contains("\"method\":\"test_method\""));
}

#[test]
fn message_test_initialize_request() {
    let req = Request::initialize(1, 80, 24);
    assert_eq!(req.method, "initialize");
    assert!(req.params.is_some());
    let params = req.params.unwrap();
    assert!(params.contains("\"terminal_size\":{\"cols\":80,\"rows\":24}"));
}

#[test]
fn request_line_is_one_json_object_and_newline() {
    let req = Request::agent_query(7, "say \"hi\"");
    let line = req.encode();
    assert_eq!(
        line,
        "{\"jsonrpc\":\"2.0\",\"id\":7,\"method\":\"agent.query\",\"params\":{\"message\":\"say \\\"hi\\\"\",\"options\":{\"stream\":true}}}\n"
    );
    let value: serde_json::Value = serde_json::from_str(line.trim_end()).unwrap();
    assert_eq!(value["params"]["message"], "say \"hi\"");
    let string_id = Request { id: RequestId::String("a".to_string()), ..Request::new(0, "m", None) };
    assert_eq!(string_id.encode(), "{\"jsonrpc\":\"2.0\",\"id\":\"a\",\"method\":\"m\"}\n");
}

#[test]
fn context_update_notifications_carry_params() {
    let n = Notification::context_update_terminal_size(120, 40);
    assert_eq!(n.method, "context.update");
    assert_eq!(n.params.as_deref(), Some("{\"terminal_size\":{\"cols\":120,\"rows\":40}}"));
    let params: serde_json::Value = serde_json::from_str(n.params.as_deref().unwrap()).unwrap();
    assert_eq!(params["terminal_size"]["cols"], 120);
    let line = n.encode();
    assert_eq!(
        line,
        "{\"jsonrpc\":\"2.0\",\"method\":\"context.update\",\"params\":{\"terminal_size\":{\"cols\":120,\"rows\":40}}}\n"
    );
    let full = Notification::context_update_full(Some("/home".to_string()), Some((1, 2)));
    assert_eq!(full.params.as_deref(), Some("{\"cwd\":\"/home\",\"terminal_size\":{\"cols\":1,\"rows\":2}}"));
    assert_eq!(Notification::context_update("/x").params.as_deref(), Some("{\"cwd\":\"/x\"}"));
}

#[test]
fn notification_decoded_before_response() {
    match decode("{\"jsonrpc\":\"2.0\",\"method\":\"stream.token\",\"params\":{\"content\":\"x\"}}") {
        Ok(Inbound::Notify(n)) => {
            assert_eq!(n.method, "stream.token");
            assert!(n.params.is_some());
        }
        _ => panic!("expected a notification"),
    }
    match decode("{\"jsonrpc\":\"2.0\",\"id\":3,\"error\":{\"code\":-32601,\"message\":\"Method not found\"}}") {
        Ok(Inbound::Reply(r)) => {
            assert_eq!(r.id, RequestId::Number(3));
            let e = r.error.unwrap();
            assert_eq!(e.code, -32601);
            assert_eq!(e.message, "Method not found");
            assert!(r.result.is_none());
        }
        _ => panic!("expected a response"),
    }
}

#[test]
fn malformed_and_off_schema_lines_are_parse_errors() {
    assert!(matches!(decode("invalid json {"), Err(IpcError::ParseError(_))));
    assert!(matches!(decode("[1,2]"), Err(IpcError::ParseError(_))));
    assert!(matches!(decode("{\"jsonrpc\":\"2.0\",\"id\":-1,\"result\":1}"), Err(IpcError::ParseError(_))));
    assert!(matches!(decode("{\"jsonrpc\":\"2.0\"}"), Err(IpcError::ParseError(_))));
    assert!(matches!(
        decode("{\"jsonrpc\":\"2.0\",\"id\":1,\"error\":{\"code\":1,\"message\":\"m\",\"extra\":0}}"),
        Err(IpcError::ParseError(_))
    ));
}

#[test]
fn drift_tolerance_round_trip() {
    let extra = read_frame("{\"jsonrpc\":\"2.0\",\"method\":\"stream.token\",\"surprise\":1}").unwrap();
    assert!(matches!(classify(&extra), Err(IpcError::ParseError(_))));
    assert_eq!(drift(&extra), Some(vec!["surprise".to_string()]));
    let clean = read_frame("{\"jsonrpc\":\"2.0\",\"method\":\"stream.token\",\"params\":{}}").unwrap();
    assert!(classify(&clean).is_ok());
    assert_eq!(drift(&clean), None);
    let reply = read_frame("{\"jsonrpc\":\"2.0\",\"id\":1,\"result\":null,\"extra\":true}").unwrap();
    assert!(classify(&reply).is_err());
    assert_eq!(drift(&reply), Some(vec!["extra".to_string()]));
}

#[test]
fn exactly_once_delivery_to_each_caller() {
    let mut pending: PendingTable<u64> = PendingTable::new();
    for id in 1..=10u64 {
        assert!(pending.register(id, id * 100).is_ok());
    }
    assert!(pending.register(3, 0).is_err());
    for id in [7u64, 2, 10, 1, 9, 3, 8, 4, 6, 5] {
        let line = format!("{{\"jsonrpc\":\"2.0\",\"id\":{},\"result\":{{\"count\":{}}}}}", id, id);
        match handle_line(&line, &mut pending) {
            Ok(Delivery::Deliver(acceptor, resp)) => {
                assert_eq!(acceptor, id * 100);
                assert_eq!(resp.id, RequestId::Number(id));
                assert_eq!(resp.result.unwrap(), format!("{{\"count\":{}}}", id));
            }
            _ => panic!("response {} was not delivered", id),
        }
        assert!(matches!(handle_line(&line, &mut pending), Ok(Delivery::Unmatched(_))));
    }
    assert_eq!(pending.len(), 0);
}

#[test]
fn leak_free_timeout() {
    let mut pending: PendingTable<&str> = PendingTable::new();
    pending.register(1, "live").unwrap();
    let before = pending.len();
    pending.register(2, "waiting").unwrap();
    assert!(pending.expire(2));
    assert_eq!(pending.len(), before);
    assert!(!pending.expire(2));
    assert!(pending.contains(1));
}

#[test]
fn unknown_id_response_is_dropped() {
    let mut pending: PendingTable<u8> = PendingTable::new();
    let stray = "{\"jsonrpc\":\"2.0\",\"id\":99,\"result\":{}}";
    assert!(matches!(handle_line(stray, &mut pending), Ok(Delivery::Unmatched(_))));
    assert!(handle_line("not json", &mut pending).is_err());
    pending.register(4, 1).unwrap();
    let good = "{\"jsonrpc\":\"2.0\",\"id\":4,\"result\":{}}";
    assert!(matches!(handle_line(good, &mut pending), Ok(Delivery::Deliver(1, _))));
    let string_id = "{\"jsonrpc\":\"2.0\",\"id\":\"4\",\"result\":{}}";
    assert!(matches!(handle_line(string_id, &mut pending), Ok(Delivery::Unmatched(_))));
}

#[test]
fn id_partition() {
    let mut client = IpcClient::new();
    let mut session = SessionIds::new();
    assert_eq!(session.next_request_id(), 10000);
    for _ in 0..20000 {
        let i = client.next_request_id();
        let s = session.next_request_id();
        assert!(i <= 9999);
        assert!(s >= 10000);
    }
}

#[test]
fn connect_fails_twice_then_succeeds() {
    let mut client = IpcClient::new();
    let outcomes = [false, false, true];
    let mut waits = Vec::new();
    let mut step = client.start_connect("/tmp/s.sock");
    assert_eq!(client.connection_state(), ConnectionState::Connecting);
    let mut used = 0;
    loop {
        match step {
            ConnectStep::Attempt { attempt } | ConnectStep::Wait { attempt, .. } => {
                if let ConnectStep::Wait { attempt, delay_ms } = step {
                    assert_eq!(client.connection_state(), ConnectionState::Reconnecting { attempt });
                    waits.push((attempt, delay_ms));
                }
                let ok = outcomes[used];
                used += 1;
                if ok {
                    client.attempt_succeeded();
                    break;
                }
                step = client.attempt_failed(attempt, 5);
            }
            ConnectStep::GiveUp => panic!("gave up"),
        }
    }
    assert_eq!(client.connection_state(), ConnectionState::Connected);
    assert!(client.is_connected());
    assert_eq!(waits, vec![(1, 200), (2, 400)]);
}

#[test]
fn connect_gives_up_after_the_budget() {
    let mut client = IpcClient::new();
    client.start_connect("/nonexistent.sock");
    assert_eq!(client.attempt_failed(0, 1), ConnectStep::GiveUp);
    assert_eq!(client.connection_state(), ConnectionState::Failed);
    assert!(!client.is_connected());
    assert_eq!(connect_delay_ms(0), 0);
    assert_eq!(connect_delay_ms(3), 800);
    assert_eq!(connect_delay_ms(200), u64::MAX);
    match connect_failure(3, "refused") {
        IpcError::ConnectionError(m) => assert_eq!(m, "Failed to connect after 3 attempts. Last error: refused"),
        _ => panic!(),
    }
}

#[test]
fn disconnect_refuses_further_sends() {
    let mut client = connected();
    assert!(client.prepare_notification(&Notification::new("x", None)).is_ok());
    let mut table: PendingTable<u8> = PendingTable::new();
    client.disconnect(&mut table);
    assert_eq!(client.connection_state(), ConnectionState::Disconnected);
    assert!(matches!(client.prepare_notification(&Notification::new("x", None)), Err(IpcError::NotConnected)));
    let string_req = Request { id: RequestId::String("s".to_string()), ..Request::new(0, "m", None) };
    let client = connected();
    assert!(matches!(client.prepare_request(&string_req), Err(IpcError::InternalError(_))));
}

#[test]
fn cancellation_precedence() {
    let mut client = connected();
    let mut q = QueryStream::new();
    q.send(&mut client, "hello");
    q.started(Ok(Some("q1".to_string())));
    let queued = notice("{\"jsonrpc\":\"2.0\",\"method\":\"stream.token\",\"params\":{\"content\":\"x\"}}");
    let action = q.step(true, Some(queued));
    assert!(matches!(action, StreamAction::Stop));
    assert_eq!(q.current(), QueryState::Cancelled);
    assert_eq!(q.text(), "");
}

#[test]
fn streaming_renders_hello_and_completes() {
    let mut client = connected();
    let mut q = QueryStream::new();
    let request = q.send(&mut client, "greet");
    assert_eq!(request.method, "agent.query");
    assert_eq!(q.current(), QueryState::Sent);
    let confirmation = match decode("{\"jsonrpc\":\"2.0\",\"id\":1,\"result\":{\"query_id\":\"q-1\"}}") {
        Ok(Inbound::Reply(r)) => stream_id_of(&r),
        _ => panic!(),
    };
    assert_eq!(confirmation, Some("q-1".to_string()));
    q.started(Ok(confirmation));
    assert_eq!(q.current(), QueryState::Streaming);
    let mut printed = String::new();
    for line in [
        "{\"jsonrpc\":\"2.0\",\"method\":\"stream.token\",\"params\":{\"content\":\"Hel\"}}",
        "{\"jsonrpc\":\"2.0\",\"method\":\"stream.token\",\"params\":{\"content\":\"lo\"}}",
        "{\"jsonrpc\":\"2.0\",\"method\":\"stream.complete\"}",
    ] {
        match q.step(false, Some(notice(line))) {
            StreamAction::Show(t) => printed.push_str(&t),
            StreamAction::Stop => break,
            _ => panic!("unexpected action"),
        }
    }
    assert_eq!(printed, "Hello");
    assert_eq!(q.text(), "Hello");
    assert_eq!(q.current(), QueryState::Complete);
}

#[test]
fn denied_approval_sends_one_tool_approve() {
    let mut client = connected();
    let mut q = QueryStream::new();
    q.send(&mut client, "run it");
    q.started(Ok(Some("q".to_string())));
    let ask = notice(
        "{\"jsonrpc\":\"2.0\",\"method\":\"tool.request_approval\",\"params\":{\"tool_name\":\"shell\",\"execution_id\":\"x1\",\"risk_level\":\"high\"}}",
    );
    let mut sent = Vec::new();
    match q.step(false, Some(ask)) {
        StreamAction::Approve { execution_id, tool_name, risk_level, .. } => {
            assert_eq!(execution_id, "x1");
            assert_eq!(tool_name, "shell");
            assert_eq!(risk_level, "high");
            let key = decide_key(PromptKey::Char('n'), false);
            assert_eq!(key, KeyDecision::Deny);
            let approved = approval_decision(false, key);
            assert!(!approved);
            sent.push(approval_request(&mut client, &execution_id, approved));
        }
        _ => panic!("expected an approval prompt"),
    }
    assert_eq!(sent.len(), 1);
    assert_eq!(sent[0].method, "tool.approve");
    assert_eq!(sent[0].params.as_deref(), Some("{\"approved\":false,\"execution_id\":\"x1\"}"));
    let response = match decode("{\"jsonrpc\":\"2.0\",\"id\":2,\"result\":{\"status\":\"denied\"}}") {
        Ok(Inbound::Reply(r)) => r,
        _ => panic!(),
    };
    assert!(response_result(response).is_ok());
    assert_eq!(approval_outcome(false), "Tool execution denied");
    assert_eq!(q.current(), QueryState::Streaming);
    assert!(matches!(q.step(false, Some(notice("{\"jsonrpc\":\"2.0\",\"method\":\"other.thing\"}"))), StreamAction::Ignore(_)));
}

#[test]
fn cancelled_prompt_is_denied() {
    assert!(!approval_decision(true, KeyDecision::Approve));
    assert!(approval_decision(false, KeyDecision::Approve));
    assert_eq!(decide_key(PromptKey::Char('c'), true), KeyDecision::Cancel);
    assert_eq!(decide_key(PromptKey::Char('c'), false), KeyDecision::Undecided);
    assert_eq!(decide_key(PromptKey::Enter, false), KeyDecision::Deny);
    assert_eq!(decide_key(PromptKey::Esc, true), KeyDecision::Deny);
    assert_eq!(decide_key(PromptKey::Char('x'), false), KeyDecision::Undecided);
    assert_eq!(decide_key(PromptKey::Char('Y'), true), KeyDecision::Approve);
    assert_eq!(decide_key(PromptKey::Char('N'), true), KeyDecision::Deny);
    assert_eq!(decide_key(PromptKey::Other, false), KeyDecision::Undecided);
}

#[test]
fn failed_confirmation_fails_the_query() {
    let mut client = connected();
    let mut q = QueryStream::new();
    q.send(&mut client, "x");
    q.started(Err(IpcError::Timeout));
    assert_eq!(q.current(), QueryState::Failed);
}

#[test]
fn rpc_error_response_is_surfaced() {
    let response = match decode("{\"jsonrpc\":\"2.0\",\"id\":10000,\"error\":{\"code\":-32601,\"message\":\"Method not found\"}}") {
        Ok(Inbound::Reply(r)) => r,
        _ => panic!(),
    };
    match response_result(response) {
        Err(IpcError::RpcError { code, message }) => {
            assert_eq!(code, -32601);
            assert_eq!(message, "Method not found");
        }
        _ => panic!("expected an RPC error"),
    }
}

#[test]
fn session_requests_use_their_own_ids() {
    let mut ids = SessionIds::new();
    let list = Request::session_list(ids.next_request_id(), Some(10));
    assert_eq!(list.encode(), "{\"jsonrpc\":\"2.0\",\"id\":10000,\"method\":\"session.list\",\"params\":{\"limit\":10}}\n");
    let export = Request::session_export(ids.next_request_id(), None, "markdown");
    assert_eq!(export.params.as_deref(), Some("{\"format\":\"markdown\"}"));
    let load = Request::session_load(ids.next_request_id(), "abc");
    assert_eq!(load.id, RequestId::Number(10002));
    assert_eq!(load.params.as_deref(), Some("{\"session_id\":\"abc\"}"));
}

#[test]
fn lost_connection_is_observed() {
    let mut client = connected();
    client.connection_lost();
    assert_eq!(client.connection_state(), ConnectionState::Disconnected);
    assert!(matches!(client.prepare_request(&Request::new(1, "m", None)), Err(IpcError::NotConnected)));
    let mut failed = IpcClient::new();
    failed.start_connect("/x");
    assert_eq!(failed.attempt_failed(0, 1), ConnectStep::GiveUp);
    failed.connection_lost();
    assert_eq!(failed.connection_state(), ConnectionState::Failed);
}

#[test]
fn test_connection_state_transitions() {
    let mut client = IpcClient::new();
    assert!(matches!(client.connection_state(), ConnectionState::Disconnected));
    let mut step = client.start_connect("/nonexistent.sock");
    loop {
        match step {
            ConnectStep::Attempt { attempt } | ConnectStep::Wait { attempt, .. } => {
                step = client.attempt_failed(attempt, CONNECT_ATTEMPTS);
            }
            ConnectStep::GiveUp => break,
        }
    }
    assert!(matches!(client.connection_state(), ConnectionState::Failed));
}

#[test]
fn test_disconnect() {
    let mut client = connected();
    assert!(client.is_connected());
    let mut pending: PendingTable<u8> = PendingTable::new();
    pending.register(1, 0).unwrap();
    client.disconnect(&mut pending);
    assert!(!client.is_connected());
    assert_eq!(client.connection_state(), ConnectionState::Disconnected);
    assert_eq!(pending.len(), 0);
    assert!(matches!(client.prepare_request(&Request::new(2, "m", None)), Err(IpcError::NotConnected)));
    assert!(matches!(client.prepare_notification(&Notification::new("n", None)), Err(IpcError::NotConnected)));
    assert!(matches!(client.check_receive(), Err(IpcError::NotConnected)));
}

#[test]
fn notification_line_is_exact() {
    let client = connected();
    let n = Notification::new("context.update", Some("{\"cwd\":\"/\"}".to_string()));
    assert_eq!(
        client.prepare_notification(&n).unwrap(),
        "{\"jsonrpc\":\"2.0\",\"method\":\"context.update\",\"params\":{\"cwd\":\"/\"}}\n"
    );
    assert!(client.check_receive().is_ok());
}

#[test]
fn settle_removes_the_entry_only_on_timeout() {
    let mut pending: PendingTable<u8> = PendingTable::new();
    pending.register(5, 1).unwrap();
    assert!(matches!(settle(&mut pending, 5, WaitOutcome::Dropped), Err(IpcError::InternalError(_))));
    assert!(pending.contains(5));
    assert!(matches!(settle(&mut pending, 5, WaitOutcome::TimedOut), Err(IpcError::Timeout)));
    assert!(!pending.contains(5));
    let response = match decode("{\"jsonrpc\":\"2.0\",\"id\":5,\"result\":true}") {
        Ok(Inbound::Reply(r)) => r,
        _ => panic!(),
    };
    assert_eq!(settle(&mut pending, 5, WaitOutcome::Answered(response)).unwrap().result.as_deref(), Some("true"));
}

#[test]
fn decoded_payloads_keep_their_raw_text() {
    match decode("{\"jsonrpc\":\"2.0\",\"method\":\"tool.request_approval\",\"params\":{\"execution_id\":\"x\\\"1\",\"n\":[1, 2]}}") {
        Ok(Inbound::Notify(n)) => {
            assert_eq!(n.params.as_deref(), Some("{\"execution_id\":\"x\\\"1\",\"n\":[1, 2]}"));
            match Notice::from_notification(&n) {
                Notice::ApprovalRequest { execution_id, tool_name, .. } => {
                    assert_eq!(execution_id, "x\"1");
                    assert_eq!(tool_name, "unknown");
                }
                _ => panic!(),
            }
        }
        _ => panic!(),
    }
    match decode("{\"jsonrpc\":\"2.0\",\"id\":\"s\",\"result\":null,\"error\":null}") {
        Ok(Inbound::Reply(r)) => {
            assert_eq!(r.id, RequestId::String("s".to_string()));
            assert!(r.result.is_none());
            assert!(r.error.is_none());
        }
        _ => panic!(),
    }
    match decode("{\"jsonrpc\":\"2.0\",\"id\":1,\"result\":{\"other\":1}}") {
        Ok(Inbound::Reply(r)) => assert_eq!(stream_id_of(&r), None),
        _ => panic!(),
    }
}


#[test]
fn quoting_escapes_controls_and_quotes() {
    let req = Request::tool_approve(3, "a\tb\u{1}\"\\é", true);
    assert_eq!(req.params.as_deref(), Some("{\"approved\":true,\"execution_id\":\"a\\tb\\u0001\\\"\\\\é\"}"));
}
