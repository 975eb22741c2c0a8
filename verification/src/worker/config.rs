//! The settings of a worker.

use crate::shared::settings::{default_coordinator, number_or, read_setting};
use vstd::prelude::*;

verus! {

/// The settings of a worker.
#[derive(Debug, Clone)]
pub struct Config {
    pub node_id: String,
    pub coordinator_url: String,
    pub proxy_port: u16,
    /// Seconds from one heartbeat to the next.
    pub heartbeat_interval: u64,
    /// Seconds from one refresh of the registry to the next.
    pub model_refresh_interval: u64,
}

impl Config {
    /// The settings that the environment gives. Each argument is the value
    /// of a variable, where it is set; `hostname` is the name of the
    /// machine. A number that cannot be read gives way to its default: port
    /// 8080, a heartbeat every 10 seconds, a refresh every 180.
    pub fn from_values(
        node_id: Option<String>,
        hostname: String,
        coordinator_url: Option<String>,
        proxy_port: Option<String>,
        heartbeat_interval: Option<String>,
        model_refresh_interval: Option<String>,
    ) -> (c: Config)
        ensures
            c.node_id@ == match node_id {
                Some(id) => id@,
                None => hostname@,
            },
            c.coordinator_url@ == match coordinator_url {
                Some(url) => url@,
                None => default_coordinator(),
            },
            c.proxy_port == number_or(proxy_port, u16::MAX as nat, 8080),
            c.heartbeat_interval == number_or(heartbeat_interval, u64::MAX as nat, 10),
            c.model_refresh_interval == number_or(model_refresh_interval, u64::MAX as nat, 180),
    {
        Config {
            node_id: match node_id {
                Some(id) => id,
                None => hostname,
            },
            coordinator_url: match coordinator_url {
                Some(url) => url,
                None => "https://troop.100monkeys.ai".to_owned(),
            },
            proxy_port: read_setting(&proxy_port, 65535, 8080) as u16,
            heartbeat_interval: read_setting(&heartbeat_interval, u64::MAX, 10),
            model_refresh_interval: read_setting(&model_refresh_interval, u64::MAX, 180),
        }
    }
}

} // verus!
