//! Coordination core of pattern-clock: a fixed pool of worker agents, the
//! registry that starts them once, and the broadcast bridge that carries their
//! results to long-polling observers.

pub mod agents;
pub mod bridge;
pub mod connections;
pub mod desktop;
pub mod lstm;
pub mod mcp_server;
pub mod shared;
pub mod text;
pub mod web;
