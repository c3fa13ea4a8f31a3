//! Proof lookup service core: request routing, the lookup outcome mapping and
//! the JSON-RPC style response envelope, with their contracts.
pub mod config;
pub mod envelope;
pub mod laws;
pub mod lookup;
pub mod router;
