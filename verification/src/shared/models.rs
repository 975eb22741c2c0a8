//! The messages that travel between client, coordinator and worker.

use vstd::prelude::*;

verus! {

/// An inference engine that runs on a node.
#[derive(Debug, Clone)]
pub struct EngineInfo {
    /// `"ollama"`, `"lmstudio"` or `"vllm"`; on the wire the field is `type`.
    pub engine_type: String,
    pub version: String,
    pub port: u16,
}

impl EngineInfo {
    /// Whether two descriptors name the same engine: the same type, version
    /// and port.
    pub open spec fn same_as(self, other: EngineInfo) -> bool {
        &&& self.engine_type@ == other.engine_type@
        &&& self.version@ == other.version@
        &&& self.port == other.port
    }

    /// Whether two descriptors name the same engine.
    pub fn matches(&self, other: &EngineInfo) -> (r: bool)
        ensures
            r == self.same_as(*other),
    {
        self.engine_type == other.engine_type && self.version == other.version && self.port
            == other.port
    }

    /// A descriptor with the same type, version and port.
    pub fn duplicate(&self) -> (r: EngineInfo)
        ensures
            r == *self,
    {
        EngineInfo {
            engine_type: self.engine_type.clone(),
            version: self.version.clone(),
            port: self.port,
        }
    }
}

/// What hardware a node has.
#[derive(Debug, Clone)]
pub struct HardwareInfo {
    pub gpu: String,
    /// Free video memory, in MB.
    pub vram_free: u64,
}

/// What a node is doing; on the wire in capitals.
#[derive(Debug, Clone, Copy, PartialEq, Eq, Structural)]
pub enum NodeStatus {
    Idle,
    Busy,
    Offline,
}

/// What a node tells the coordinator about itself.
#[derive(Debug, Clone)]
pub struct NodeHeartbeat {
    pub node_id: String,
    pub tailscale_ip: String,
    pub status: NodeStatus,
    pub models: Vec<String>,
    pub hardware: HardwareInfo,
    pub engines: Vec<EngineInfo>,
}

/// A node asks for a hardware challenge.
#[derive(Debug, Clone)]
pub struct ChallengeRequest {
    pub node_id: String,
}

/// The parameters of a hardware challenge.
#[derive(Debug, Clone)]
pub struct ChallengeResponse {
    pub challenge_token: String,
    pub seed: String,
    pub matrix_size: u32,
}

/// The claims of an authorization ticket.
#[derive(Debug, Clone)]
pub struct JWTClaims {
    /// Who asked.
    pub sub: String,
    /// The node that is to do the work.
    pub target_node: String,
    /// Whom the ticket is for.
    pub aud: String,
    /// When the ticket expires, in seconds since the epoch.
    pub exp: i64,
    pub project: String,
}

/// A client asks the coordinator for a ticket.
#[derive(Debug, Clone)]
pub struct AuthorizeRequest {
    pub model: String,
    pub requester: String,
}

/// The coordinator's answer: where to go, and the ticket to show there.
#[derive(Debug, Clone)]
pub struct AuthorizeResponse {
    pub target_ip: String,
    pub token: String,
}

/// One message of a chat.
#[derive(Debug, Clone)]
pub struct ChatMessage {
    pub role: String,
    pub content: String,
}

/// A chat completion request in the OpenAI format.
#[derive(Debug, Clone)]
pub struct ChatCompletionRequest {
    pub model: String,
    pub messages: Vec<ChatMessage>,
    /// Whether the answer is to be streamed; `false` where the request does
    /// not say.
    pub stream: bool,
}

/// The peers that the coordinator knows.
#[derive(Debug, Clone)]
pub struct PeersResponse {
    pub count: usize,
    pub nodes: Vec<NodeHeartbeat>,
}

/// One model of a model list in the OpenAI format.
#[derive(Debug, Clone)]
pub struct ModelInfo {
    pub id: String,
    pub object: String,
    pub owned_by: String,
}

/// A model list in the OpenAI format.
#[derive(Debug, Clone)]
pub struct ModelsResponse {
    pub object: String,
    pub data: Vec<ModelInfo>,
}

} // verus!
