use openagent_terminal::ipc::error::IpcError;

#[test]
fn test_connection_error() {
    let err = IpcError::ConnectionError("test error".to_string());
    assert!(err.to_string().contains("Connection error"));
    assert!(err.to_string().contains("test error"));
}

#[test]
fn test_socket_not_found() {
    let path = "/tmp/test.sock";
    let err = IpcError::SocketNotFound(path.to_string());
    assert!(err.to_string().contains("Socket not found"));
    assert!(err.to_string().contains(path));
}

#[test]
fn test_send_failed() {
    let err = IpcError::SendFailed("network error".to_string());
    assert!(err.to_string().contains("Failed to send"));
}

#[test]
fn test_receive_failed() {
    let err = IpcError::ReceiveFailed("timeout".to_string());
    assert!(err.to_string().contains("Failed to receive"));
}

#[test]
fn test_serialization_error() {
    let err = IpcError::SerializationError("invalid json".to_string());
    assert!(err.to_string().contains("serialization error"));
}

#[test]
fn test_parse_error() {
    let err = IpcError::ParseError("unexpected token".to_string());
    assert!(err.to_string().contains("parse error"));
}

#[test]
fn test_protocol_error() {
    let err = IpcError::ProtocolError("version mismatch".to_string());
    assert!(err.to_string().contains("Protocol error"));
}

#[test]
fn test_timeout() {
    let err = IpcError::Timeout;
    assert!(err.to_string().contains("Timeout"));
}

#[test]
fn test_rpc_error() {
    let err = IpcError::rpc(-32600, "Invalid Request");
    let error_string = err.to_string();
    assert!(error_string.contains("RPC error"));
    assert!(error_string.contains("-32600"));
    assert!(error_string.contains("Invalid Request"));
}

#[test]
fn test_rpc_error_with_string() {
    let err = IpcError::rpc(-32601, &"Method not found".to_string());
    assert!(err.to_string().contains("-32601"));
    assert!(err.to_string().contains("Method not found"));
}

#[test]
fn test_not_connected() {
    let err = IpcError::NotConnected;
    assert_eq!(err.to_string(), "Not connected");
}

#[test]
fn test_internal_error() {
    let err = IpcError::InternalError("unexpected state".to_string());
    assert!(err.to_string().contains("Internal error"));
}

#[test]
fn test_io_error_conversion() {
    let io_err = std::io::Error::new(std::io::ErrorKind::NotFound, "file not found");
    let ipc_err: IpcError = io_err.into();
    assert!(ipc_err.to_string().contains("IO error"));
}

#[test]
fn test_error_is_send() {
    let err: Box<dyn Send> = Box::new(IpcError::Timeout);
    drop(err);
}

#[test]
fn test_error_is_sync() {
    let err: Box<dyn Sync> = Box::new(IpcError::NotConnected);
    drop(err);
}

#[test]
fn rpc_error_text_is_exact() {
    assert_eq!(IpcError::rpc(7, "x").to_string(), "RPC error (code 7): x");
    assert_eq!(IpcError::rpc(-1, "y").to_string(), "RPC error (code -1): y");
    assert_eq!(IpcError::rpc(i32::MIN, "z").to_string(), "RPC error (code -2147483648): z");
}
