//! The core of a gateway between HTTP clients and a signal-cli daemon that is
//! reached over one connection of newline-delimited JSON-RPC.
//!
//! The library decides; the program around it reads, writes and waits. It
//! holds
//! - the calls in flight and the routing of every line that the daemon sends
//!   (`jsonrpc`),
//! - the channel on which events go out to any number of subscribers
//!   (`events`),
//! - the registry of webhooks and the choice of those that get an event
//!   (`webhooks`),
//! - the lifecycle of the daemon process (`daemon`),
//! - the counters and the one context that ties these together (`state`).
//!
//! `json` and `pending` hold what is taken on trust of serde_json, dashmap and
//! tokio; `text` writes numbers.
use vstd::prelude::*;

pub mod daemon;
pub mod events;
pub mod json;
pub mod jsonrpc;
pub mod pending;
pub mod state;
pub mod text;
pub mod webhooks;

verus! {

} // verus!
