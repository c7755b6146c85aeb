//! The registry of handlers and the dispatch algorithm.

use crate::rpc::envelope::{
    error_response, not_found_response, success_response, RpcRequest, RpcResponse,
    RpcResponseView, HANDLER_FAILED,
};
use crate::rpc::handler::{HandlerFailure, HandlerOutcome, RpcHandler};
use std::sync::Arc;
use vstd::hash_map::StringHashMap;
use vstd::prelude::*;

verus! {

/// The response that wraps a handler's outcome for the caller identified by `id`.
pub open spec fn outcome_response(id: Seq<char>, outcome: HandlerOutcome) -> RpcResponseView {
    match outcome {
        Ok(value) => success_response(id, value),
        Err(failure) => error_response(id, HANDLER_FAILED as int, failure.message()),
    }
}

/// Where a request goes: to the handler registered under its method, or
/// straight back with the answer that no such method exists.
pub enum Routed<'a, H: ?Sized> {
    /// No handler is registered; this is the response to send.
    Missing(RpcResponse),
    /// A handler is registered: it is to be run on `params`, and its
    /// outcome answered under `id`.
    Found { id: String, handler: &'a Arc<H>, params: serde_json::Value },
}

/// Maps method names to shared handlers of type `H`.
///
/// `H` is usually a trait object, so that handlers of different concrete
/// types stand side by side. The registry is filled during setup and only
/// read while serving.
#[verifier::reject_recursive_types(H)]
pub struct RpcRouter<H: ?Sized> {
    handlers: StringHashMap<Arc<H>>,
}

impl<H: ?Sized> View for RpcRouter<H> {
    type V = Map<Seq<char>, Arc<H>>;

    closed spec fn view(&self) -> Map<Seq<char>, Arc<H>> {
        self.handlers@
    }
}

impl<H: ?Sized> RpcRouter<H> {
    /// Creates a router with no method registered.
    pub fn new() -> (router: Self)
        ensures
            router@ == Map::<Seq<char>, Arc<H>>::empty(),
    {
        RpcRouter { handlers: StringHashMap::new() }
    }

    /// Registers `handler` under `method`, replacing what was registered
    /// under that name before.
    pub fn register(&mut self, method: &str, handler: Arc<H>)
        ensures
            final(self)@ == old(self)@.insert(method@, handler),
    {
        self.handlers.insert(method.to_string(), handler);
    }

    /// Looks up the handler registered under `method`, by exact comparison of the name.
    pub fn lookup(&self, method: &str) -> (found: Option<&Arc<H>>)
        ensures
            found.is_some() == self@.contains_key(method@),
            found.is_some() ==> *found.unwrap() == self@[method@],
    {
        self.handlers.get(method)
    }

    /// Decides where a request goes, without running anything. A handler
    /// that suspends can be awaited by the caller, who then hands the
    /// outcome to [`Self::respond`].
    pub fn route(&self, request: RpcRequest) -> (routed: Routed<'_, H>)
        ensures
            match routed {
                Routed::Missing(response) => !self@.contains_key(request.method@) && response@
                    == not_found_response(request.id@, request.method@),
                Routed::Found { id, handler, params } => self@.contains_key(request.method@)
                    && *handler == self@[request.method@] && id == request.id && params
                    == request.params,
            },
    {
        let RpcRequest { id, method, params } = request;
        match self.lookup(method.as_str()) {
            None => Routed::Missing(RpcResponse::method_not_found(id, method.as_str())),
            Some(handler) => Routed::Found { id, handler, params },
        }
    }

    /// Wraps a handler's outcome into the response for the request with this `id`.
    pub fn respond(&self, id: String, outcome: HandlerOutcome) -> (response: RpcResponse)
        ensures
            response@ == outcome_response(id@, outcome),
            response@.well_formed(),
            response@.id == id@,
    {
        match outcome {
            Ok(value) => RpcResponse::success(id, value),
            Err(failure) => {
                let message = failure.description();
                RpcResponse::failure(id, HANDLER_FAILED, message)
            },
        }
    }
}

impl<H: ?Sized> Default for RpcRouter<H> {
    /// The router with no method registered.
    fn default() -> (router: Self)
        ensures
            router@ == Map::<Seq<char>, Arc<H>>::empty(),
    {
        RpcRouter::new()
    }
}

impl<H: RpcHandler + ?Sized> RpcRouter<H> {
    /// Resolves the request's method, runs the handler and wraps what it
    /// gives. A response comes back on every path.
    pub fn handle_request(&self, request: RpcRequest) -> (response: RpcResponse)
        ensures
            response@.id == request.id@,
            response@.well_formed(),
            !self@.contains_key(request.method@) ==> response@ == not_found_response(
                request.id@,
                request.method@,
            ),
            self@.contains_key(request.method@) ==> exists|outcome: HandlerOutcome|
                #[trigger] self@[request.method@].may_return(request.params, outcome)
                    && response@ == outcome_response(request.id@, outcome),
    {
        match self.route(request) {
            Routed::Missing(response) => response,
            Routed::Found { id, handler, params } => {
                let outcome = handler.handle(params);
                self.respond(id, outcome)
            },
        }
    }
}

/// Routing success: where a handler is registered under the request's
/// method and can only succeed on the request's payload, whatever dispatch
/// answers carries a result, no error, and the request's id.
pub proof fn lemma_routing_success<H: RpcHandler + ?Sized>(
    registry: Map<Seq<char>, Arc<H>>,
    id: Seq<char>,
    method: Seq<char>,
    params: serde_json::Value,
    response: RpcResponseView,
)
    requires
        registry.contains_key(method),
        forall|outcome: HandlerOutcome| #[trigger]
            registry[method].may_return(params, outcome) ==> outcome is Ok,
        exists|outcome: HandlerOutcome| #[trigger]
            registry[method].may_return(params, outcome) && response == outcome_response(
                id,
                outcome,
            ),
    ensures
        response.result is Some,
        response.error is None,
        response.id == id,
{
}

/// Failure is an answer too: where a handler is registered under the
/// request's method and can only fail on the request's payload, as it does
/// where the payload cannot be decoded, whatever dispatch answers carries
/// no result, the general failure code, and the request's id.
pub proof fn lemma_routing_failure<H: RpcHandler + ?Sized>(
    registry: Map<Seq<char>, Arc<H>>,
    id: Seq<char>,
    method: Seq<char>,
    params: serde_json::Value,
    response: RpcResponseView,
)
    requires
        registry.contains_key(method),
        forall|outcome: HandlerOutcome| #[trigger]
            registry[method].may_return(params, outcome) ==> outcome is Err,
        exists|outcome: HandlerOutcome| #[trigger]
            registry[method].may_return(params, outcome) && response == outcome_response(
                id,
                outcome,
            ),
    ensures
        response.result is None,
        response.error is Some,
        response.error->Some_0.code == -1,
        response.error->Some_0.data is None,
        response.id == id,
{
}

/// A handler's value always reaches the caller: the response to a
/// successful outcome carries the value as its result, no error, and the
/// request's id.
pub proof fn lemma_success_is_delivered(id: Seq<char>, value: serde_json::Value)
    ensures
        outcome_response(id, Ok(value)).result == Some(value),
        outcome_response(id, Ok(value)).error is None,
        outcome_response(id, Ok(value)).id == id,
{
}

/// A request for an unregistered method is answered without a result, with
/// the reserved code, and with a message that holds the method's name
/// between its quotes.
pub proof fn lemma_miss_names_the_method(id: Seq<char>, method: Seq<char>)
    ensures
        not_found_response(id, method).result is None,
        not_found_response(id, method).error is Some,
        not_found_response(id, method).error->Some_0.code == -32601,
        not_found_response(id, method).error->Some_0.data is None,
        not_found_response(id, method).error->Some_0.message.len() == method.len() + 19,
        not_found_response(id, method).error->Some_0.message.subrange(
            8,
            8 + method.len() as int,
        ) == method,
{
    reveal_strlit("Method '");
    reveal_strlit("' not found");
    let message = not_found_response(id, method).error->Some_0.message;
    assert(message.subrange(8, 8 + method.len() as int) =~= method);
}

/// A handler's failure never escapes as anything but a response: whatever
/// the failure, the caller gets no result, the general failure code, the
/// failure's text, and the request's id.
pub proof fn lemma_failure_is_reported(id: Seq<char>, failure: HandlerFailure)
    ensures
        outcome_response(id, Err(failure)).result is None,
        outcome_response(id, Err(failure)).error is Some,
        outcome_response(id, Err(failure)).error->Some_0.code == -1,
        outcome_response(id, Err(failure)).error->Some_0.message == failure.message(),
        outcome_response(id, Err(failure)).id == id,
{
}

/// Every response that dispatch can give carries the id it was given, and
/// holds a result or an error but not both.
pub proof fn lemma_correlation_preserved(id: Seq<char>, method: Seq<char>, outcome: HandlerOutcome)
    ensures
        not_found_response(id, method).id == id,
        outcome_response(id, outcome).id == id,
        not_found_response(id, method).well_formed(),
        outcome_response(id, outcome).well_formed(),
{
}

/// Of two handlers registered under one name only the second is reachable:
/// the registry is the one that a single registration of the second gives.
pub proof fn lemma_last_registration_wins<H: ?Sized>(
    registry: Map<Seq<char>, Arc<H>>,
    method: Seq<char>,
    first: Arc<H>,
    second: Arc<H>,
)
    ensures
        registry.insert(method, first).insert(method, second)[method] == second,
        registry.insert(method, first).insert(method, second) == registry.insert(method, second),
{
    assert(registry.insert(method, first).insert(method, second) =~= registry.insert(
        method,
        second,
    ));
}

/// Registering a method leaves every other method's handler as it was.
pub proof fn lemma_registration_is_local<H: ?Sized>(
    registry: Map<Seq<char>, Arc<H>>,
    method: Seq<char>,
    handler: Arc<H>,
    other: Seq<char>,
)
    requires
        other != method,
    ensures
        registry.insert(method, handler).contains_key(other) == registry.contains_key(other),
        registry.contains_key(other) ==> registry.insert(method, handler)[other]
            == registry[other],
{
}

} // verus!
