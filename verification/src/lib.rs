//! Brokerage of inference requests between clients, a coordinator and workers:
//! the decisions of the request lifecycle, stated and proved.

pub mod client;
pub mod shared;
pub mod text;
pub mod worker;
