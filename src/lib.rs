//! A detection-aware gateway in front of a chat-completion orchestrator:
//! detector resolution, request building, fallback substitution and
//! server-sent-event re-framing, each with a verified contract.

pub mod json;
pub mod config;
pub mod api;
pub mod resolve;
pub mod fallback;
pub mod sse;
pub mod request;
pub mod tls;
