//! The client: a local endpoint in the OpenAI format that gets a ticket from
//! the coordinator and sends each request on to the worker it names.

pub mod config;
pub mod proxy;
