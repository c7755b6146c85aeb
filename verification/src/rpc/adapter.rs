//! Adapters that expose a typed function as a handler: decode the payload,
//! run the function, encode what it returns.

use crate::rpc::handler::{FailureKind, HandlerFailure, HandlerOutcome};
use std::marker::PhantomData;
use vstd::prelude::*;
use vstd::string::to_string_from_display_ensures;

verus! {

/// `serde_json::Error`, as the codec reports it. Only its text is read.
#[verifier::external_type_specification]
#[verifier::external_body]
pub struct ExJsonError(serde_json::Error);

/// Calls `serde_json::from_value`: the attempt to decode a payload into `I`.
/// Whether it succeeds is decided by how `I` implements `Deserialize`, so
/// nothing is claimed of the result.
#[verifier::external_body]
fn decode_payload<I: serde::de::DeserializeOwned>(params: serde_json::Value) -> Result<
    I,
    serde_json::Error,
> {
    serde_json::from_value(params)
}

/// Calls `serde_json::to_value`: the attempt to encode an output as a
/// payload. Whether it succeeds is decided by how `O` implements
/// `Serialize`, so nothing is claimed of the result.
#[verifier::external_body]
fn encode_payload<O: serde::Serialize>(output: O) -> Result<serde_json::Value, serde_json::Error> {
    serde_json::to_value(output)
}

/// Whether `failure` is the failure of the given kind that carries the text of `error`.
pub open spec fn reports(failure: HandlerFailure, kind: FailureKind, error: serde_json::Error) -> bool {
    failure.kind() == kind && to_string_from_display_ensures::<serde_json::Error>(
        &error,
        failure.text(),
    )
}

/// What the decode step makes of the codec's answer: the input, or a
/// deserialization failure with the codec's text.
pub open spec fn decoded_as<I>(
    decoded: Result<I, serde_json::Error>,
    input: Result<I, HandlerFailure>,
) -> bool {
    match decoded {
        Ok(value) => input == Ok::<I, HandlerFailure>(value),
        Err(error) => input is Err && reports(input->Err_0, FailureKind::Deserialization, error),
    }
}

/// What the adapter makes of the wrapped function's answer: the output, or
/// a business failure with the domain error's text.
pub open spec fn lifted<O>(answer: Result<O, String>) -> Result<O, HandlerFailure> {
    match answer {
        Ok(output) => Ok(output),
        Err(text) => Err(HandlerFailure::BusinessError(text)),
    }
}

/// What the encode step makes of the codec's answer: the payload, or a
/// serialization failure with the codec's text.
pub open spec fn encoded_as(
    encoded: Result<serde_json::Value, serde_json::Error>,
    outcome: HandlerOutcome,
) -> bool {
    match encoded {
        Ok(value) => outcome == Ok::<serde_json::Value, HandlerFailure>(value),
        Err(error) => outcome is Err && reports(outcome->Err_0, FailureKind::Serialization, error),
    }
}

/// Turns the codec's answer to a decode into the adapter's input.
pub fn accept_decoded<I>(decoded: Result<I, serde_json::Error>) -> (input: Result<
    I,
    HandlerFailure,
>)
    ensures
        decoded_as(decoded, input),
{
    match decoded {
        Ok(value) => Ok(value),
        Err(error) => Err(HandlerFailure::DeserializationError(error.to_string())),
    }
}

/// Turns the wrapped function's answer into the adapter's typed outcome.
pub fn accept_answer<O>(answer: Result<O, String>) -> (typed: Result<O, HandlerFailure>)
    ensures
        typed == lifted(answer),
{
    match answer {
        Ok(output) => Ok(output),
        Err(text) => Err(HandlerFailure::BusinessError(text)),
    }
}

/// Turns the codec's answer to an encode into the handler's outcome.
pub fn accept_encoded(encoded: Result<serde_json::Value, serde_json::Error>) -> (outcome:
    HandlerOutcome)
    ensures
        encoded_as(encoded, outcome),
{
    match encoded {
        Ok(value) => Ok(value),
        Err(error) => Err(HandlerFailure::SerializationError(error.to_string())),
    }
}

/// Encodes a typed outcome: a failure passes through, an output goes to the codec.
pub fn finish<O: serde::Serialize>(typed: Result<O, HandlerFailure>) -> (outcome: HandlerOutcome)
    ensures
        finished(typed, outcome),
{
    match typed {
        Err(failure) => Err(failure),
        Ok(output) => {
            let encoded = encode_payload(output);
            accept_encoded(encoded)
        },
    }
}

/// The outcomes that encoding can give for a typed outcome, whatever the
/// codec answers.
pub open spec fn finished<O>(typed: Result<O, HandlerFailure>, outcome: HandlerOutcome) -> bool {
    match typed {
        Err(failure) => outcome == Err::<serde_json::Value, HandlerFailure>(failure),
        Ok(_) => exists|encoded: Result<serde_json::Value, serde_json::Error>|
            #[trigger] encoded_as(encoded, outcome),
    }
}

/// A handler made of a function that returns at once.
///
/// `handle` is the whole of it: decode, run, encode. To stand in a
/// registry beside handlers of other types it is put behind a
/// [`ClosureHandler`](crate::rpc::handler::ClosureHandler) whose closure
/// calls `handle`.
#[verifier::reject_recursive_types(F)]
#[verifier::reject_recursive_types(I)]
#[verifier::reject_recursive_types(O)]
pub struct FunctionHandler<F: Fn(I) -> Result<O, String>, I, O> {
    func: F,
    _phantom: PhantomData<(I, O)>,
}

impl<F: Fn(I) -> Result<O, String>, I, O> FunctionHandler<F, I, O> {
    /// The function inside the handler.
    pub closed spec fn wrapped(&self) -> F {
        self.func
    }

    /// The handler can run on every input that a payload may decode into.
    #[verifier::type_invariant]
    pub closed spec fn accepts_every_input(&self) -> bool {
        forall|input: I| #[trigger] call_requires(self.func, (input,))
    }

    /// Wraps `func`, which must accept every input.
    pub fn new(func: F) -> (handler: Self)
        requires
            forall|input: I| #[trigger] call_requires(func, (input,)),
        ensures
            handler.wrapped() == func,
    {
        FunctionHandler { func, _phantom: PhantomData }
    }

    /// Whether `typed` is what the adapter may hold after the decode step
    /// gave `decoded` and, on success, the function ran.
    pub open spec fn ran(
        &self,
        decoded: Result<I, serde_json::Error>,
        typed: Result<O, HandlerFailure>,
    ) -> bool {
        match decoded {
            Err(_) => typed is Err && decoded_as(decoded, Err::<I, HandlerFailure>(typed->Err_0)),
            Ok(input) => exists|answer: Result<O, String>|
                {
                    &&& #[trigger] call_ensures(self.wrapped(), (input,), answer)
                    &&& typed == lifted(answer)
                },
        }
    }

    /// Runs the function on what the decode step gave: a decode failure is
    /// reported without a call, an input is handed to the function, whose
    /// domain error becomes a business failure.
    pub fn run(&self, decoded: Result<I, serde_json::Error>) -> (typed: Result<O, HandlerFailure>)
        ensures
            self.ran(decoded, typed),
    {
        proof {
            use_type_invariant(self);
        }
        match accept_decoded(decoded) {
            Err(failure) => {
                assert(decoded is Err);
                Err(failure)
            },
            Ok(input) => {
                assert(decoded == Ok::<I, serde_json::Error>(input));
                let answer = (self.func)(input);
                assert(call_ensures(self.wrapped(), (input,), answer));
                accept_answer(answer)
            },
        }
    }
}

impl<F: Fn(I) -> Result<O, String>, I: serde::de::DeserializeOwned, O: serde::Serialize>
    FunctionHandler<F, I, O> {
    /// An outcome is possible when some answer of the codec to the decode,
    /// the function's run on it, and some answer of the codec to the encode
    /// lead to it.
    pub open spec fn may_return(&self, params: serde_json::Value, outcome: HandlerOutcome) -> bool {
        exists|decoded: Result<I, serde_json::Error>, typed: Result<O, HandlerFailure>|
            #[trigger] self.ran(decoded, typed) && finished(typed, outcome)
    }

    /// Handles one payload: decode, run, encode.
    pub fn handle(&self, params: serde_json::Value) -> (outcome: HandlerOutcome)
        ensures
            self.may_return(params, outcome),
    {
        let decoded = decode_payload::<I>(params);
        let typed = self.run(decoded);
        let outcome = finish(typed);
        assert(self.ran(decoded, typed) && finished(typed, outcome));
        outcome
    }
}

/// A payload that does not decode ends in a deserialization failure: the
/// function is not consulted and the encode step passes the failure on.
pub proof fn lemma_decode_failure_is_an_outcome<F: Fn(I) -> Result<O, String>, I, O>(
    handler: FunctionHandler<F, I, O>,
    error: serde_json::Error,
    typed: Result<O, HandlerFailure>,
    outcome: HandlerOutcome,
)
    requires
        handler.ran(Err(error), typed),
        finished(typed, outcome),
    ensures
        outcome is Err,
        typed is Err,
        outcome->Err_0 == typed->Err_0,
        reports(outcome->Err_0, FailureKind::Deserialization, error),
{
}

/// A payload that decodes and a function that answers with a value end in
/// success whenever the codec encodes the value.
pub proof fn lemma_decodable_params_succeed<F: Fn(I) -> Result<O, String>, I, O>(
    handler: FunctionHandler<F, I, O>,
    input: I,
    output: O,
    value: serde_json::Value,
)
    requires
        call_ensures(handler.wrapped(), (input,), Ok::<O, String>(output)),
    ensures
        handler.ran(Ok(input), Ok(output)),
        finished(Ok::<O, HandlerFailure>(output), Ok(value)),
{
    let answer = Ok::<O, String>(output);
    assert(call_ensures(handler.wrapped(), (input,), answer));
    assert(Ok::<O, HandlerFailure>(output) == lifted(answer));
    let decoded = Ok::<I, serde_json::Error>(input);
    assert(decoded->Ok_0 == input);
    assert(handler.ran(decoded, Ok::<O, HandlerFailure>(output)));
    assert(encoded_as(Ok(value), Ok(value)));
}

/// A domain error ends in a business failure that carries the error's text.
pub proof fn lemma_domain_error_is_a_business_failure<F: Fn(I) -> Result<O, String>, I, O>(
    handler: FunctionHandler<F, I, O>,
    input: I,
    text: String,
)
    requires
        call_ensures(handler.wrapped(), (input,), Err::<O, String>(text)),
    ensures
        handler.ran(Ok(input), Err(HandlerFailure::BusinessError(text))),
        finished(
            Err::<O, HandlerFailure>(HandlerFailure::BusinessError(text)),
            Err(HandlerFailure::BusinessError(text)),
        ),
{
    let answer = Err::<O, String>(text);
    let typed = Err::<O, HandlerFailure>(HandlerFailure::BusinessError(text));
    assert(call_ensures(handler.wrapped(), (input,), answer));
    assert(typed == lifted(answer));
    let decoded = Ok::<I, serde_json::Error>(input);
    assert(decoded->Ok_0 == input);
    assert(handler.ran(decoded, typed));
}

/// A handler made of a function that returns a future. The adapter decodes
/// and starts the function; whoever drives the future hands its answer back
/// for encoding. Nothing suspends inside the two steps themselves.
#[verifier::reject_recursive_types(F)]
#[verifier::reject_recursive_types(Fut)]
#[verifier::reject_recursive_types(I)]
#[verifier::reject_recursive_types(O)]
pub struct AsyncFunctionHandler<
    F: Fn(I) -> Fut,
    Fut: core::future::Future<Output = Result<O, String>>,
    I,
    O,
> {
    func: F,
    _phantom: PhantomData<(Fut, I, O)>,
}

impl<F: Fn(I) -> Fut, Fut: core::future::Future<Output = Result<O, String>>, I, O>
    AsyncFunctionHandler<F, Fut, I, O> {
    /// The function inside the handler.
    pub closed spec fn wrapped(&self) -> F {
        self.func
    }

    /// The handler can start on every input that a payload may decode into.
    #[verifier::type_invariant]
    pub closed spec fn accepts_every_input(&self) -> bool {
        forall|input: I| #[trigger] call_requires(self.func, (input,))
    }

    /// Wraps `func`, which must accept every input.
    pub fn new(func: F) -> (handler: Self)
        requires
            forall|input: I| #[trigger] call_requires(func, (input,)),
        ensures
            handler.wrapped() == func,
    {
        AsyncFunctionHandler { func, _phantom: PhantomData }
    }

    /// Whether `pending` is what the adapter may hold after the decode step
    /// gave `decoded`: a deserialization failure, or a future that the
    /// function returned for the decoded input.
    pub open spec fn began(
        &self,
        decoded: Result<I, serde_json::Error>,
        pending: Result<Fut, HandlerFailure>,
    ) -> bool {
        match decoded {
            Err(_) => pending is Err && decoded_as(
                decoded,
                Err::<I, HandlerFailure>(pending->Err_0),
            ),
            Ok(input) => pending is Ok && call_ensures(self.wrapped(), (input,), pending->Ok_0),
        }
    }

    /// Starts the function on what the decode step gave. A decode failure is
    /// reported without a call.
    pub fn begin(&self, decoded: Result<I, serde_json::Error>) -> (pending: Result<
        Fut,
        HandlerFailure,
    >)
        ensures
            self.began(decoded, pending),
    {
        proof {
            use_type_invariant(self);
        }
        match accept_decoded(decoded) {
            Err(failure) => {
                assert(decoded is Err);
                Err(failure)
            },
            Ok(input) => {
                assert(decoded == Ok::<I, serde_json::Error>(input));
                Ok((self.func)(input))
            },
        }
    }
}

impl<
    F: Fn(I) -> Fut,
    Fut: core::future::Future<Output = Result<O, String>>,
    I: serde::de::DeserializeOwned,
    O: serde::Serialize,
> AsyncFunctionHandler<F, Fut, I, O> {
    /// Decodes the payload and starts the function: the first half of
    /// handling. The caller awaits the future and hands its answer to
    /// [`Self::complete`].
    pub fn start(&self, params: serde_json::Value) -> (pending: Result<Fut, HandlerFailure>)
        ensures
            exists|decoded: Result<I, serde_json::Error>| #[trigger] self.began(decoded, pending),
    {
        let decoded = decode_payload::<I>(params);
        let pending = self.begin(decoded);
        assert(self.began(decoded, pending));
        pending
    }

    /// Encodes the answer that the future gave: the second half of handling.
    pub fn complete(&self, answer: Result<O, String>) -> (outcome: HandlerOutcome)
        ensures
            finished(lifted(answer), outcome),
    {
        finish(accept_answer(answer))
    }
}

} // verus!
