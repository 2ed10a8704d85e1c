//! The embedding request pipeline: planning an invocation (model
//! resolution plus credential threading) and normalizing the engine's
//! raw result into the public response schema. The flow is strictly
//! linear — resolve, extract credentials, invoke, normalize — and every
//! stage is terminal on failure. The invocation itself is an external,
//! possibly long-running call performed by the surrounding transport
//! layer; this module decides what to invoke and what to answer.

use vstd::prelude::*;
use crate::gateway::{
    CreateEmbeddingRequest,
    CreateEmbeddingResponse,
    Credentials,
    EmbeddingData,
    EmbeddingUsage,
    GatewayApiError,
    RawEmbeddingResult,
};
use crate::registry::{
    AvailableModels,
    ModelDescriptor,
    find_model_by_full_name,
    lemma_resolve_is_registered,
};

verus! {

/// Everything the execution engine needs for one invocation: the
/// client's request (consumed exactly once), the resolved descriptor,
/// and the optional caller credentials, all passed through verbatim.
pub struct InvocationPlan {
    pub request: CreateEmbeddingRequest,
    pub model: ModelDescriptor,
    pub credentials: Option<Credentials>,
}

/// What planning an invocation yields: the plan when the client's model
/// name resolves, and `ModelNotFound` carrying that name otherwise.
/// Credentials are threaded through and never examined, so they cannot
/// affect the outcome.
pub open spec fn plan_spec(
    request: CreateEmbeddingRequest,
    models: AvailableModels,
    credentials: Option<Credentials>,
) -> Result<InvocationPlan, GatewayApiError> {
    match models.resolve_spec(request.model@) {
        Some(d) => Ok(InvocationPlan { request, model: d, credentials }),
        None => Err(GatewayApiError::ModelNotFound(request.model)),
    }
}

/// Resolve the request's model name and assemble the invocation plan.
///
/// Resolution runs before any credential work or invocation, so an
/// unregistered name short-circuits the flow before the engine is ever
/// involved. Absence of credentials is not an error.
pub fn plan_invocation(
    request: CreateEmbeddingRequest,
    models: &AvailableModels,
    credentials: Option<Credentials>,
) -> (r: Result<InvocationPlan, GatewayApiError>)
    ensures
        r == plan_spec(request, *models, credentials),
{
    match find_model_by_full_name(&request.model, models) {
        Ok(model) => Ok(InvocationPlan { request, model, credentials }),
        Err(e) => Err(e),
    }
}

/// The normalization contract: `resp` is the public-schema rendering of
/// the engine's raw result `raw` under the resolved descriptor `model`.
/// The items keep their object tag, vector and index verbatim and in
/// original order; the type tag is the fixed literal "list"; the model
/// field is the descriptor's canonical name; the usage counters are
/// copied unchanged.
pub open spec fn is_normalized(
    raw: RawEmbeddingResult,
    model: ModelDescriptor,
    resp: CreateEmbeddingResponse,
) -> bool {
    &&& resp.object@ == "list"@
    &&& resp.data@.len() == raw.data@.len()
    &&& (forall|i: int|
        0 <= i < raw.data@.len() ==> {
            &&& (#[trigger] resp.data@[i]).object@ == raw.data@[i].object@
            &&& resp.data@[i].embedding@ == raw.data@[i].embedding@
            &&& resp.data@[i].index == raw.data@[i].index
        })
    &&& resp.model@ == model.model@
    &&& resp.usage.prompt_tokens == raw.usage.prompt_tokens
    &&& resp.usage.total_tokens == raw.usage.total_tokens
}

/// Build the public response from the engine's raw result: a pure
/// transformation with no failure modes of its own.
pub fn normalize_response(result: &RawEmbeddingResult, model: &ModelDescriptor) -> (r:
    CreateEmbeddingResponse)
    ensures
        is_normalized(*result, *model, r),
{
    let mut data: Vec<EmbeddingData> = Vec::new();
    let mut i: usize = 0;
    while i < result.data.len()
        invariant
            i <= result.data@.len(),
            data@.len() == i as nat,
            forall|j: int|
                0 <= j < i ==> {
                    &&& (#[trigger] data@[j]).object@ == result.data@[j].object@
                    &&& data@[j].embedding@ == result.data@[j].embedding@
                    &&& data@[j].index == result.data@[j].index
                },
        decreases result.data@.len() - i,
    {
        let item = &result.data[i];
        let embedding = item.embedding.clone();
        proof {
            assert forall|k: int| 0 <= k < embedding@.len() implies embedding@[k]
                == item.embedding@[k] by {
                assert(cloned::<u32>(item.embedding@[k], embedding@[k]));
            }
            assert(embedding@ =~= item.embedding@);
        }
        data.push(EmbeddingData { object: item.object.clone(), embedding, index: item.index });
        i = i + 1;
    }
    CreateEmbeddingResponse {
        object: String::from_str("list"),
        data,
        model: model.model.clone(),
        usage: EmbeddingUsage {
            prompt_tokens: result.usage.prompt_tokens,
            total_tokens: result.usage.total_tokens,
        },
    }
}

/// Turn the engine's outcome into the request's answer: a successful
/// raw result is normalized under the resolved descriptor, and an
/// engine failure is propagated verbatim — never interpreted, never
/// partially answered.
pub fn complete_request(
    outcome: Result<RawEmbeddingResult, GatewayApiError>,
    model: &ModelDescriptor,
) -> (r: Result<CreateEmbeddingResponse, GatewayApiError>)
    ensures
        outcome matches Ok(raw) ==> r matches Ok(resp) && is_normalized(raw, *model, resp),
        outcome matches Err(e) ==> r == Err::<CreateEmbeddingResponse, GatewayApiError>(e),
{
    match outcome {
        Ok(raw) => Ok(normalize_response(&raw, model)),
        Err(e) => Err(e),
    }
}

/// Resolution gates invocation: planning succeeds exactly for
/// registered names, carries the request, the resolved descriptor and
/// the credentials into the plan verbatim, and for an unregistered name
/// fails with `ModelNotFound` before any invocation plan exists.
pub proof fn lemma_resolution_gates_invocation(
    request: CreateEmbeddingRequest,
    models: AvailableModels,
    credentials: Option<Credentials>,
)
    ensures
        (plan_spec(request, models, credentials) is Ok) <==> models.contains_name(request.model@),
        plan_spec(request, models, credentials) matches Ok(p) ==> {
            &&& models.resolve_spec(request.model@) == Some(p.model)
            &&& p.request == request
            &&& p.credentials == credentials
        },
        plan_spec(request, models, credentials) matches Err(e) ==> e == (
        GatewayApiError::ModelNotFound(request.model)),
{
    lemma_resolve_is_registered(models.entries@, request.model@);
}

/// Credentials never gate planning: for a fixed request and registry,
/// planning without a bundle succeeds exactly when planning with any
/// bundle does, and a failure is the same error either way. Credential
/// requirements can only surface from the invocation stage itself.
pub proof fn lemma_credentials_do_not_gate_planning(
    request: CreateEmbeddingRequest,
    models: AvailableModels,
    a: Option<Credentials>,
    b: Option<Credentials>,
)
    ensures
        (plan_spec(request, models, a) is Ok) <==> (plan_spec(request, models, b) is Ok),
        plan_spec(request, models, a) matches Err(e) ==> plan_spec(request, models, b) == Err::<
            InvocationPlan,
            GatewayApiError,
        >(e),
{
}

/// The echoed model name comes from the registry, not from the client:
/// whenever planning succeeds, every response normalized under the
/// plan's descriptor carries the canonical name of the entry the
/// client's string resolved to, whatever that string was.
pub proof fn lemma_response_model_is_canonical(
    request: CreateEmbeddingRequest,
    models: AvailableModels,
    credentials: Option<Credentials>,
    raw: RawEmbeddingResult,
    resp: CreateEmbeddingResponse,
)
    requires
        plan_spec(request, models, credentials) is Ok,
        is_normalized(raw, plan_spec(request, models, credentials)->Ok_0.model, resp),
    ensures
        resp.model@ == models.resolve_spec(request.model@)->Some_0.model@,
{
}

} // verus!
