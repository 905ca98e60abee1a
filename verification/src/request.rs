//! The incoming request description and its normalized internal form.
//!
//! Real-valued sampling parameters (temperature, top-p, the penalties) are
//! carried as the IEEE-754 bit patterns of the caller's values: the gateway
//! never interprets them, it only passes them through to the engine, so the
//! exact bits are the right currency here. The foreign-function layer
//! converts with `to_bits` / `from_bits` at the boundary.
use vstd::prelude::*;

verus! {

/// One entry of the conversational history: a role name and its content
/// text, in insertion order.
pub struct Message {
    pub role: String,
    pub content: String,
}

/// The caller-supplied request description, read-only once constructed.
///
/// `logit_bias` and `n_choices` are accepted but currently inert: the
/// normalized request does not carry them.
pub struct Request {
    /// Ordered message history; order is conversational order.
    pub messages: Vec<Message>,
    /// Target model identifier.
    pub model: String,
    /// Per-token logit bias: token id paired with the bias value's `f64`
    /// bits. Currently inert.
    pub logit_bias: Option<Vec<(u32, u64)>>,
    /// Whether log-probabilities are requested.
    pub logprobs: bool,
    /// How many top log-probabilities to return, when specified.
    pub top_logprobs: Option<usize>,
    /// Maximum output token count, when specified.
    pub max_tokens: Option<usize>,
    /// Desired number of output choices. Currently inert.
    pub n_choices: usize,
    /// Presence penalty as `f32` bits, when specified.
    pub presence_penalty: Option<u32>,
    /// Repetition penalty as `f32` bits, when specified.
    pub repetition_penalty: Option<u32>,
    /// Generation stops when one of these token ids is produced.
    pub stop_token_ids: Option<Vec<u32>>,
    /// Sampling temperature as `f64` bits, when specified.
    pub temperature: Option<u64>,
    /// Nucleus-sampling threshold as `f64` bits, when specified.
    pub top_p: Option<u64>,
    /// Top-k sampling cutoff, when specified.
    pub top_k: Option<usize>,
}

/// A stop condition for generation. This path supports explicit token ids
/// only, not text-based stop sequences.
pub enum StopTokens {
    Ids(Vec<u32>),
}

/// Generation-control values attached to an internal request. Fields left
/// `None` are "unset": the engine applies its own defaults for them.
pub struct SamplingParams {
    pub temperature: Option<u64>,
    pub top_k: Option<usize>,
    pub top_p: Option<u64>,
    /// Unlike the other fields this one always holds a value: it defaults
    /// to 1 when the caller did not specify a count.
    pub top_n_logprobs: usize,
    pub repeat_penalty: Option<u32>,
    pub presence_penalty: Option<u32>,
    pub max_len: Option<usize>,
    pub stop_toks: Option<StopTokens>,
}

/// The normalized form submitted to the engine. The reply channel is
/// attached by the submitting layer; this crate decides the content.
pub struct InternalRequest {
    pub prompt: String,
    pub sampling_params: SamplingParams,
    pub return_logprobs: bool,
}

/// What normalization promises: `out` is exactly the internal request that
/// the description `req` and the formatted prompt `prompt` call for.
///
/// Every field is pinned: the optional numeric fields pass through
/// unchanged, `top_n_logprobs` defaults to 1, a present stop-token list
/// becomes the id-based stop condition with the ids unchanged in order and
/// value, and an absent one stays unset. No field-level validation happens
/// here; out-of-range values are the engine's policy.
pub open spec fn normalized(req: Request, prompt: Seq<char>, out: InternalRequest) -> bool {
    &&& out.prompt@ == prompt
    &&& out.sampling_params.temperature == req.temperature
    &&& out.sampling_params.top_k == req.top_k
    &&& out.sampling_params.top_p == req.top_p
    &&& out.sampling_params.top_n_logprobs == (match req.top_logprobs {
        Some(n) => n,
        None => 1usize,
    })
    &&& out.sampling_params.repeat_penalty == req.repetition_penalty
    &&& out.sampling_params.presence_penalty == req.presence_penalty
    &&& out.sampling_params.max_len == req.max_tokens
    &&& match req.stop_token_ids {
        Some(ids) => out.sampling_params.stop_toks matches Some(StopTokens::Ids(v)) && v@ == ids@,
        None => out.sampling_params.stop_toks is None,
    }
    &&& out.return_logprobs == req.logprobs
}

/// Build the engine's internal request from a request description and the
/// already-formatted prompt. A pure mapping: it cannot fail.
pub fn normalize(req: &Request, prompt: String) -> (out: InternalRequest)
    ensures
        normalized(*req, prompt@, out),
{
    let stop_toks = match &req.stop_token_ids {
        Some(ids) => {
            let copied = ids.clone();
            assert(copied@ =~= ids@);
            Some(StopTokens::Ids(copied))
        },
        None => None,
    };
    InternalRequest {
        prompt,
        sampling_params: SamplingParams {
            temperature: req.temperature,
            top_k: req.top_k,
            top_p: req.top_p,
            top_n_logprobs: match req.top_logprobs {
                Some(n) => n,
                None => 1,
            },
            repeat_penalty: req.repetition_penalty,
            presence_penalty: req.presence_penalty,
            max_len: req.max_tokens,
            stop_toks,
        },
        return_logprobs: req.logprobs,
    }
}

} // verus!
