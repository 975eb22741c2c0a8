//! The worker: engines and their models, the heartbeat, and the proxy that
//! checks tickets.

pub mod config;
pub mod engines;
pub mod gpu;
pub mod heartbeat;
pub mod proxy;
