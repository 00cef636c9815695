//! Front end of an interactive terminal client that talks to a long-running
//! backend over a line-delimited JSON-RPC protocol.
//!
//! The library holds the protocol engine (message framing and strict
//! classification, the pending-request table, request-id allocation, the
//! connection state machine and the streaming/cancellation orchestrator)
//! together with the line editor, the ANSI renderer and the error taxonomy.
//! Everything that touches a socket, the terminal or the clock lives in the
//! application around it.

pub mod text;
pub mod ansi;
pub mod cli;
pub mod commands;
pub mod config;
pub mod error;
pub mod ipc;
pub mod line_editor;
pub mod session;
pub mod terminal_manager;
