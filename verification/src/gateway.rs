//! Public data model of the gateway: the client-facing request and
//! response schema, the per-request credential bundle, the execution
//! engine's raw result shape, and the error taxonomy.

use vstd::prelude::*;

verus! {

/// Client input for one embedding call: the full model name used to
/// select a binding, and the input texts to embed.
pub struct CreateEmbeddingRequest {
    /// Provider-qualified full model name as the client sent it.
    pub model: String,
    /// Input texts, in the order the client supplied them.
    pub input: Vec<String>,
}

/// Caller-supplied provider secrets attached to one request by an
/// upstream authentication stage. Opaque to this core: the bundle is
/// handed to the invocation stage untouched and never inspected here.
pub struct Credentials {
    pub api_key: String,
}

impl Clone for Credentials {
    fn clone(&self) -> (res: Self)
        ensures
            res == *self,
    {
        Credentials { api_key: self.api_key.clone() }
    }
}

/// One embedding item as the execution engine returns it: an object
/// tag, the vector, and the caller-meaningful position of the input
/// text it belongs to. Vector components are carried as opaque 32-bit
/// words; their numeric interpretation belongs to the transport layer.
pub struct RawEmbedding {
    pub object: String,
    pub embedding: Vec<u32>,
    pub index: u32,
}

/// Token-accounting counters as the engine reports them.
pub struct RawEmbeddingUsage {
    pub prompt_tokens: u32,
    pub total_tokens: u32,
}

/// The execution engine's output for one successful invocation.
pub struct RawEmbeddingResult {
    pub data: Vec<RawEmbedding>,
    pub usage: RawEmbeddingUsage,
}

/// One normalized embedding item of the public response schema.
pub struct EmbeddingData {
    pub object: String,
    pub embedding: Vec<u32>,
    pub index: u32,
}

/// Token-accounting counters of the public response schema.
pub struct EmbeddingUsage {
    pub prompt_tokens: u32,
    pub total_tokens: u32,
}

/// The public response schema: a fixed type tag, the normalized items
/// in their original order, the canonical name of the resolved model,
/// and the usage counters.
pub struct CreateEmbeddingResponse {
    pub object: String,
    pub data: Vec<EmbeddingData>,
    pub model: String,
    pub usage: EmbeddingUsage,
}

/// Everything that can terminate the request flow early.
#[derive(Debug)]
pub enum GatewayApiError {
    /// The client-supplied model name, carried verbatim, matched no
    /// registry entry. A client-input error, detected locally.
    ModelNotFound(String),
    /// An opaque failure reported by the execution engine (network,
    /// provider rejection, authorization). Propagated, never
    /// interpreted, by this core.
    EngineError(String),
}

} // verus!
