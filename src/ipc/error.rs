//! Errors of the protocol engine.

use crate::text::{push_signed_decimal, push_str_chars, signed_decimal, string_of};
use vstd::prelude::*;

verus! {

/// An error of the IPC layer.
#[derive(Debug)]
pub enum IpcError {
    ConnectionError(String),
    SocketNotFound(String),
    SendFailed(String),
    ReceiveFailed(String),
    SerializationError(String),
    ParseError(String),
    ProtocolError(String),
    Timeout,
    RpcError { code: i32, message: String },
    /// An I/O failure, held as the text that the I/O error displays.
    IoError(String),
    NotConnected,
    InternalError(String),
}

impl IpcError {
    /// The human-readable message of this error.
    pub open spec fn text(&self) -> Seq<char> {
        match self {
            IpcError::ConnectionError(s) => "Connection error: "@ + s@,
            IpcError::SocketNotFound(s) => "Socket not found at path: "@ + s@,
            IpcError::SendFailed(s) => "Failed to send message: "@ + s@,
            IpcError::ReceiveFailed(s) => "Failed to receive message: "@ + s@,
            IpcError::SerializationError(s) => "JSON serialization error: "@ + s@,
            IpcError::ParseError(s) => "JSON parse error: "@ + s@,
            IpcError::ProtocolError(s) => "Protocol error: "@ + s@,
            IpcError::Timeout => "Timeout waiting for response"@,
            IpcError::RpcError { code, message } =>
                "RPC error (code "@ + signed_decimal(*code as int) + "): "@ + message@,
            IpcError::IoError(s) => "IO error: "@ + s@,
            IpcError::NotConnected => "Not connected"@,
            IpcError::InternalError(s) => "Internal error: "@ + s@,
        }
    }

    /// Creates an RPC error.
    pub fn rpc(code: i32, message: &str) -> (r: IpcError)
        ensures
            r matches IpcError::RpcError { code: c, message: m } && c == code && m@ == message@,
    {
        IpcError::RpcError { code, message: message.to_owned() }
    }

    /// The human-readable message of this error.
    pub fn to_string(&self) -> (r: String)
        ensures
            r@ == self.text(),
    {
        let mut out: Vec<char> = Vec::new();
        match self {
            IpcError::ConnectionError(s) => {
                push_str_chars(&mut out, "Connection error: ");
                push_str_chars(&mut out, s.as_str());
            },
            IpcError::SocketNotFound(s) => {
                push_str_chars(&mut out, "Socket not found at path: ");
                push_str_chars(&mut out, s.as_str());
            },
            IpcError::SendFailed(s) => {
                push_str_chars(&mut out, "Failed to send message: ");
                push_str_chars(&mut out, s.as_str());
            },
            IpcError::ReceiveFailed(s) => {
                push_str_chars(&mut out, "Failed to receive message: ");
                push_str_chars(&mut out, s.as_str());
            },
            IpcError::SerializationError(s) => {
                push_str_chars(&mut out, "JSON serialization error: ");
                push_str_chars(&mut out, s.as_str());
            },
            IpcError::ParseError(s) => {
                push_str_chars(&mut out, "JSON parse error: ");
                push_str_chars(&mut out, s.as_str());
            },
            IpcError::ProtocolError(s) => {
                push_str_chars(&mut out, "Protocol error: ");
                push_str_chars(&mut out, s.as_str());
            },
            IpcError::Timeout => {
                push_str_chars(&mut out, "Timeout waiting for response");
            },
            IpcError::RpcError { code, message } => {
                push_str_chars(&mut out, "RPC error (code ");
                push_signed_decimal(*code, &mut out);
                push_str_chars(&mut out, "): ");
                push_str_chars(&mut out, message.as_str());
            },
            IpcError::IoError(s) => {
                push_str_chars(&mut out, "IO error: ");
                push_str_chars(&mut out, s.as_str());
            },
            IpcError::NotConnected => {
                push_str_chars(&mut out, "Not connected");
            },
            IpcError::InternalError(s) => {
                push_str_chars(&mut out, "Internal error: ");
                push_str_chars(&mut out, s.as_str());
            },
        }
        assert(out@ =~= self.text());
        string_of(out.as_slice())
    }
}

#[verifier::external_type_specification]
#[verifier::external_body]
pub struct ExIoError(std::io::Error);

/// Relies on `std::io::Error`'s `Display`: the text of the error.
#[verifier::external_body]
pub(crate) fn io_error_text(e: &std::io::Error) -> (r: String) {
    e.to_string()
}

impl From<std::io::Error> for IpcError {
    /// Keeps the text that the I/O error displays.
    fn from(e: std::io::Error) -> (r: IpcError)
        ensures
            r is IoError,
    {
        IpcError::IoError(io_error_text(&e))
    }
}

impl vstd::std_specs::convert::FromSpecImpl<std::io::Error> for IpcError {
    open spec fn obeys_from_spec() -> bool {
        false
    }

    /// An I/O error; the text it keeps is not modelled.
    open spec fn from_spec(e: std::io::Error) -> IpcError {
        IpcError::IoError(vstd::pervasive::arbitrary())
    }
}

} // verus!
