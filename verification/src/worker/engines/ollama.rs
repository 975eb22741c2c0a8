//! Ollama: where it listens and what it is.

use crate::shared::models::EngineInfo;
use crate::text::join2;
use vstd::prelude::*;

verus! {

/// The driver of Ollama.
#[derive(Debug)]
pub struct OllamaDriver {
    base_url: String,
}

impl View for OllamaDriver {
    type V = Seq<char>;

    /// The address of the engine.
    closed spec fn view(&self) -> Seq<char> {
        self.base_url@
    }
}

impl OllamaDriver {
    /// The driver of the Ollama at `host`; of the one on this machine where
    /// no host is named.
    pub fn new(host: Option<String>) -> (d: OllamaDriver)
        ensures
            d@ == match host {
                Some(h) => h@,
                None => "http://localhost:11434"@,
            },
    {
        match host {
            Some(h) => OllamaDriver { base_url: h },
            None => OllamaDriver { base_url: "http://localhost:11434".to_owned() },
        }
    }

    /// Where to ask whether the engine answers, and for its version.
    pub fn version_url(&self) -> (url: String)
        ensures
            url@ == self@ + "/api/version"@,
    {
        join2(self.base_url.as_str(), "/api/version")
    }

    /// Where to ask for the models.
    pub fn models_url(&self) -> (url: String)
        ensures
            url@ == self@ + "/api/tags"@,
    {
        join2(self.base_url.as_str(), "/api/tags")
    }

    /// What the engine is, given the version that it told.
    pub fn info(version: String) -> (info: EngineInfo)
        ensures
            info.engine_type@ == "ollama"@,
            info.version == version,
            info.port == 11434,
    {
        EngineInfo { engine_type: "ollama".to_owned(), version, port: 11434 }
    }

    /// Where the engine listens.
    pub fn get_base_url(&self) -> (url: String)
        ensures
            url@ == self@,
    {
        self.base_url.clone()
    }
}

} // verus!
