//! LM Studio: where it listens and what it is.

use crate::shared::errors::TroopError;
use crate::shared::models::EngineInfo;
use crate::text::join2;
use vstd::prelude::*;

verus! {

/// The address at which LM Studio listens.
pub open spec fn lmstudio_address() -> Seq<char> {
    "http://localhost:1234"@
}

/// The driver of LM Studio.
#[derive(Debug)]
pub struct LMStudioDriver {
    base_url: String,
}

impl View for LMStudioDriver {
    type V = Seq<char>;

    /// The address of the engine.
    closed spec fn view(&self) -> Seq<char> {
        self.base_url@
    }
}

impl LMStudioDriver {
    /// The driver of the LM Studio of this machine.
    pub fn new() -> (d: LMStudioDriver)
        ensures
            d@ == lmstudio_address(),
    {
        LMStudioDriver { base_url: "http://localhost:1234".to_owned() }
    }

    /// Where to ask whether the engine answers, and for its models.
    pub fn models_url(&self) -> (url: String)
        ensures
            url@ == self@ + "/v1/models"@,
    {
        join2(self.base_url.as_str(), "/v1/models")
    }

    /// What the engine is. LM Studio does not tell its version.
    pub fn get_info(&self) -> (r: Result<EngineInfo, TroopError>)
        ensures
            r matches Ok(info) && info.engine_type@ == "lmstudio"@ && info.version@ == "unknown"@
                && info.port == 1234,
    {
        Ok(
            EngineInfo {
                engine_type: "lmstudio".to_owned(),
                version: "unknown".to_owned(),
                port: 1234,
            },
        )
    }

    /// Where the engine listens.
    pub fn get_base_url(&self) -> (url: String)
        ensures
            url@ == self@,
    {
        self.base_url.clone()
    }
}

} // verus!
