//! The protocol engine: wire messages, their strict classification, the
//! pending-request table, request-id allocation, the connection state machine
//! and the streaming orchestrator.

pub mod error;
pub mod json;

pub mod message;
pub mod codec;
pub mod pending;
pub mod client;
pub mod stream;
