//! A synchronous gateway in front of an asynchronous inference engine.
//!
//! The gateway normalizes a loosely-typed request description into the
//! engine's internal request shape, resolves and caches a handle to the
//! compute device, turns the engine's asynchronous reply into a synchronous
//! return value, and maps engine failures to caller-visible errors.
//!
//! The host-runtime plumbing (the foreign-function surface, the submission
//! queue and the per-call reply channel) lives outside this crate; the crate
//! holds the decisions: what is submitted, what is returned, and when each
//! kind of failure is surfaced.
use vstd::prelude::*;

pub mod bridge;
pub mod device;
pub mod payload;
pub mod request;

verus! {

/// A caller-visible failure of one gateway invocation.
///
/// Exactly one of these (or a success) reaches the caller per invocation;
/// nothing is retried by this layer.
#[derive(Debug)]
pub enum GatewayError {
    /// The prompt formatter rejected the message history; nothing was
    /// submitted to the engine.
    Validation(String),
    /// The submission queue or the reply channel closed without a response.
    Transport(String),
    /// The engine itself reported a failure; the text is the engine's
    /// message, verbatim.
    Engine(String),
    /// Probing for a compute device failed during one-time initialization.
    Device(String),
}

impl GatewayError {
    /// The failure's message text, as the caller sees it.
    pub fn message(&self) -> (r: &String)
        ensures
            r@ == self.message_view(),
    {
        match self {
            GatewayError::Validation(m) => m,
            GatewayError::Transport(m) => m,
            GatewayError::Engine(m) => m,
            GatewayError::Device(m) => m,
        }
    }

    /// The message text carried by any of the variants.
    pub open spec fn message_view(&self) -> Seq<char> {
        match self {
            GatewayError::Validation(m) => m@,
            GatewayError::Transport(m) => m@,
            GatewayError::Engine(m) => m@,
            GatewayError::Device(m) => m@,
        }
    }
}

} // verus!
