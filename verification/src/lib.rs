//! Relay for permission-request and job-status events.
//!
//! An external automation tool raises events (permission requests, job
//! completions, notifications); this library decides how each event is
//! handled: whether a tool is auto-approved from a persistent allow-list,
//! how a prompt is correlated with the operator's reply over a chat
//! backend, when a pending request times out, and what message text and
//! structured result each flow produces.

pub mod allow_list;
pub mod config;
pub mod decision;
pub mod flow;
pub mod jsonio;
pub mod message;
pub mod notification_handler;
pub mod num;
pub mod reply;
pub mod split;
pub mod stop_handler;
pub mod text;
pub mod wait;
