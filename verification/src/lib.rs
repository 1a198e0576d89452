//! Core orchestration and action-coordination layer of an edge
//! data-collection gateway: the supervision model over a variable set of
//! protocol adapters, the forwarding and response-routing contract between
//! the adapters and the central broker, the device action coordinator
//! (debounce, cooldown, mutual exclusion, pause/resume bracket), and the
//! health monitor with its multi-step restart flow.

pub mod collectors;
pub mod config;
pub mod coordinator;
pub mod health;
pub mod json;
pub mod router;
pub mod service;
pub mod text;
