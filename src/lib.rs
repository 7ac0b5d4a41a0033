//! Client binding for a remote agent-run service: the request that a call
//! sends (target, headers, JSON body) and the way a reply is read, with
//! their contracts. The transport itself is driven by the caller.
pub mod body;
pub mod client;
pub mod json;
pub mod laws;

pub use body::AgentRunParams;
pub use client::{read_reply, AIOSClient, AgentRequest};
