//! vLLM: where it listens and what it is.

use crate::shared::models::EngineInfo;
use crate::text::join2;
use vstd::prelude::*;

verus! {

/// The version to report for an engine whose health check told `status`:
/// the status, where there is one and it is not empty.
pub open spec fn version_from_health(status: Option<String>) -> Seq<char> {
    match status {
        Some(s) => if s@.len() > 0 {
            s@
        } else {
            "unknown"@
        },
        None => "unknown"@,
    }
}

/// The driver of vLLM.
#[derive(Debug)]
pub struct VllmDriver {
    base_url: String,
}

impl View for VllmDriver {
    type V = Seq<char>;

    /// The address of the engine.
    closed spec fn view(&self) -> Seq<char> {
        self.base_url@
    }
}

impl VllmDriver {
    /// The driver of the vLLM at `host`; of the one on this machine where no
    /// host is named.
    pub fn new(host: Option<String>) -> (d: VllmDriver)
        ensures
            d@ == match host {
                Some(h) => h@,
                None => "http://localhost:8000"@,
            },
    {
        match host {
            Some(h) => VllmDriver { base_url: h },
            None => VllmDriver { base_url: "http://localhost:8000".to_owned() },
        }
    }

    /// Where to ask whether the engine answers, and for its models.
    pub fn models_url(&self) -> (url: String)
        ensures
            url@ == self@ + "/v1/models"@,
    {
        join2(self.base_url.as_str(), "/v1/models")
    }

    /// Where to ask for the health of the engine.
    pub fn health_url(&self) -> (url: String)
        ensures
            url@ == self@ + "/health"@,
    {
        join2(self.base_url.as_str(), "/health")
    }

    /// What the engine is, given the status that its health check told;
    /// `None` where the check failed or told nothing that could be read.
    pub fn info(status: Option<String>) -> (info: EngineInfo)
        ensures
            info.engine_type@ == "vllm"@,
            info.version@ == version_from_health(status),
            info.port == 8000,
    {
        let version = match status {
            Some(s) => {
                if s.as_str().unicode_len() > 0 {
                    s
                } else {
                    "unknown".to_owned()
                }
            },
            None => "unknown".to_owned(),
        };
        EngineInfo { engine_type: "vllm".to_owned(), version, port: 8000 }
    }

    /// Where the engine listens.
    pub fn get_base_url(&self) -> (url: String)
        ensures
            url@ == self@,
    {
        self.base_url.clone()
    }
}

} // verus!
