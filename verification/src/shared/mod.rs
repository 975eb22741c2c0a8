//! What client and worker have in common: error kinds, wire messages, the
//! retry schedule and the circuit breaker.

pub mod circuit_breaker;
pub mod errors;
pub mod http;
pub mod json;
pub mod models;
pub mod retry;
pub mod settings;
pub mod tailscale;
