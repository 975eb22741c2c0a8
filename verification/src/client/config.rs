//! The settings of a client.

use crate::shared::tailscale::address_or_unknown;
use crate::shared::settings::{default_coordinator, number_or, read_setting};
use vstd::prelude::*;

verus! {

/// The settings of a client.
#[derive(Debug, Clone)]
pub struct Config {
    pub coordinator_url: String,
    pub proxy_port: u16,
    pub requester_id: String,
}

impl Config {
    /// The settings that the environment gives. Each of the first three
    /// arguments is the value of a variable, where it is set; `tailscale_ip`
    /// is the address of this node among its peers, where it is known. A
    /// port that cannot be read gives way to 9000. A client without a name
    /// goes by its address, or by `unknown`.
    pub fn from_values(
        coordinator_url: Option<String>,
        proxy_port: Option<String>,
        requester_id: Option<String>,
        tailscale_ip: Option<String>,
    ) -> (c: Config)
        ensures
            c.coordinator_url@ == match coordinator_url {
                Some(url) => url@,
                None => default_coordinator(),
            },
            c.proxy_port == number_or(proxy_port, u16::MAX as nat, 9000),
            c.requester_id@ == match requester_id {
                Some(id) => id@,
                None => match tailscale_ip {
                    Some(ip) => ip@,
                    None => "unknown"@,
                },
            },
    {
        Config {
            coordinator_url: match coordinator_url {
                Some(url) => url,
                None => "https://troop.100monkeys.ai".to_owned(),
            },
            proxy_port: read_setting(&proxy_port, 65535, 9000) as u16,
            requester_id: match requester_id {
                Some(id) => id,
                None => address_or_unknown(tailscale_ip),
            },
        }
    }

    /// Where the balance of this client is asked for.
    pub fn balance_url(&self) -> (url: String)
        ensures
            url@ == self.coordinator_url@ + "/users/"@ + self.requester_id@ + "/balance"@,
    {
        let mut url = self.coordinator_url.clone();
        url.append("/users/");
        url.append(self.requester_id.as_str());
        url.append("/balance");
        url
    }

    /// Where the transactions of this client are asked for.
    pub fn transactions_url(&self) -> (url: String)
        ensures
            url@ == self.coordinator_url@ + "/users/"@ + self.requester_id@ + "/transactions"@,
    {
        let mut url = self.coordinator_url.clone();
        url.append("/users/");
        url.append(self.requester_id.as_str());
        url.append("/transactions");
        url
    }

    /// Where the peers are asked for.
    pub fn peers_url(&self) -> (url: String)
        ensures
            url@ == self.coordinator_url@ + "/peers"@,
    {
        let mut url = self.coordinator_url.clone();
        url.append("/peers");
        url
    }
}

} // verus!
