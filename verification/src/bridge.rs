//! The per-invocation decisions of the gateway: what is submitted to the
//! engine, and what each possible engine outcome turns into.
//!
//! The embedding layer owns the transport (the submission queue and the
//! one-shot reply channel); it calls `prepare` before submitting and hands
//! whatever its blocking receive produced to `finish`.
use vstd::prelude::*;
use crate::GatewayError;
use crate::payload::Payload;
use crate::payload::encode_payload;
use crate::payload::encode_spec;
use crate::request::InternalRequest;
use crate::request::Request;
use crate::request::normalize;
use crate::request::normalized;

verus! {

/// One engine reply: a completed result payload, or an error description.
/// The engine produces exactly one of these per submitted request.
pub enum Response {
    Done(Payload),
    Error(String),
}

/// What the calling thread observes at its single blocking point: the
/// engine's reply, or the reply channel closing without one.
pub enum EngineEvent {
    Reply(Response),
    Closed,
}

/// Decide what to submit. A formatted prompt yields the normalized internal
/// request; a prompt-formatter rejection is surfaced at once as a
/// validation failure, and no internal request is constructed, so nothing
/// can reach the engine queue for it.
pub fn prepare(req: &Request, prompt_result: Result<String, String>) -> (r: Result<
    InternalRequest,
    GatewayError,
>)
    ensures
        match prompt_result {
            Ok(p) => r matches Ok(ir) && normalized(*req, p@, ir),
            Err(e) => r == Err::<InternalRequest, GatewayError>(GatewayError::Validation(e)),
        },
{
    match prompt_result {
        Ok(prompt) => Ok(normalize(req, prompt)),
        Err(e) => Err(GatewayError::Validation(e)),
    }
}

/// Turn the observed engine outcome into the caller's return value: a
/// completed payload is encoded for the trip back, an engine-reported
/// failure is surfaced verbatim as an engine error, and a closed channel
/// becomes a transport failure. Exactly one outcome per invocation.
pub fn finish(event: EngineEvent) -> (r: Result<String, GatewayError>)
    ensures
        match event {
            EngineEvent::Reply(Response::Done(p)) => r matches Ok(s) && s@ == encode_spec(
                p.text@,
            ),
            EngineEvent::Reply(Response::Error(m)) => r == Err::<String, GatewayError>(
                GatewayError::Engine(m),
            ),
            EngineEvent::Closed => r matches Err(e) && e is Transport && e.message_view()
                == "reply channel closed without a response"@,
        },
{
    match event {
        EngineEvent::Reply(Response::Done(p)) => Ok(encode_payload(&p)),
        EngineEvent::Reply(Response::Error(m)) => Err(GatewayError::Engine(m)),
        EngineEvent::Closed => Err(
            GatewayError::Transport("reply channel closed without a response".to_owned()),
        ),
    }
}

} // verus!
