//! The capability through which the router reaches business logic.

use vstd::prelude::*;

verus! {

/// Why a handler could not produce a value.
#[derive(Debug, Clone)]
pub enum HandlerFailure {
    /// The payload could not be decoded into the handler's input.
    DeserializationError(String),
    /// The wrapped function itself reported an error.
    BusinessError(String),
    /// The handler's output could not be encoded as a payload.
    SerializationError(String),
}

/// The three ways in which a handler can fail.
#[derive(Debug, Clone, Copy, PartialEq, Eq, Structural)]
pub enum FailureKind {
    Deserialization,
    Business,
    Serialization,
}

impl HandlerFailure {
    /// Which of the three failures this is.
    pub open spec fn kind(&self) -> FailureKind {
        match self {
            HandlerFailure::DeserializationError(_) => FailureKind::Deserialization,
            HandlerFailure::BusinessError(_) => FailureKind::Business,
            HandlerFailure::SerializationError(_) => FailureKind::Serialization,
        }
    }

    /// The text that the failure carries.
    pub open spec fn text(&self) -> String {
        match self {
            HandlerFailure::DeserializationError(m) => *m,
            HandlerFailure::BusinessError(m) => *m,
            HandlerFailure::SerializationError(m) => *m,
        }
    }

    /// The text that the failure carries, as a sequence of characters.
    pub open spec fn message(&self) -> Seq<char> {
        self.text()@
    }

    /// The failure's textual description.
    pub fn description(&self) -> (text: String)
        ensures
            text@ == self.message(),
    {
        match self {
            HandlerFailure::DeserializationError(m) => m.clone(),
            HandlerFailure::BusinessError(m) => m.clone(),
            HandlerFailure::SerializationError(m) => m.clone(),
        }
    }
}

/// What a handler hands back: a payload or a structured failure.
pub type HandlerOutcome = Result<serde_json::Value, HandlerFailure>;

/// A unit of business logic as the router sees it: it accepts an opaque
/// payload and produces an opaque payload or a structured failure.
///
/// `may_return` is the handler's own statement of which outcomes it can give
/// for a payload; `handle` promises to stay within it. A handler may own
/// state and need not be deterministic, so this is a relation, not a
/// function. Handlers are shared between concurrent dispatches, so they
/// must be safe to send and to share.
pub trait RpcHandler: Send + Sync {
    /// Whether `outcome` is among the outcomes that the handler can give for `params`.
    spec fn may_return(&self, params: serde_json::Value, outcome: HandlerOutcome) -> bool;

    /// Runs the handler on one payload.
    fn handle(&self, params: serde_json::Value) -> (outcome: HandlerOutcome)
        ensures
            self.may_return(params, outcome),
    ;
}

/// A handler made of a closure from payload to outcome. It lets any piece of
/// logic stand in a registry without a type of its own.
#[verifier::reject_recursive_types(G)]
pub struct ClosureHandler<G: Fn(serde_json::Value) -> HandlerOutcome> {
    call: G,
}

impl<G: Fn(serde_json::Value) -> HandlerOutcome> ClosureHandler<G> {
    /// The closure inside the handler.
    pub closed spec fn wrapped(&self) -> G {
        self.call
    }

    /// The closure can run on every payload.
    #[verifier::type_invariant]
    pub closed spec fn accepts_every_payload(&self) -> bool {
        forall|params: serde_json::Value| #[trigger] call_requires(self.call, (params,))
    }

    /// Wraps `call`, which must accept every payload.
    pub fn new(call: G) -> (handler: Self)
        requires
            forall|params: serde_json::Value| #[trigger] call_requires(call, (params,)),
        ensures
            handler.wrapped() == call,
    {
        ClosureHandler { call }
    }
}

impl<G: Fn(serde_json::Value) -> HandlerOutcome + Send + Sync> RpcHandler for ClosureHandler<G> {
    /// The outcomes that the closure's own contract allows.
    open spec fn may_return(&self, params: serde_json::Value, outcome: HandlerOutcome) -> bool {
        call_ensures(self.wrapped(), (params,), outcome)
    }

    fn handle(&self, params: serde_json::Value) -> (outcome: HandlerOutcome) {
        proof {
            use_type_invariant(self);
        }
        (self.call)(params)
    }
}

} // verus!
