//! The data shapes that cross the dispatch boundary.

use vstd::prelude::*;
use vstd::string::StringExecFns;

verus! {

/// `serde_json::Value`, the self-describing payload tree. It is carried
/// through the dispatch layer untouched, so nothing is said of its inside.
#[verifier::external_type_specification]
#[verifier::external_body]
pub struct ExValue(serde_json::Value);

/// The `Clone` impl of `serde_json::Value`, which copies the whole tree:
/// the clone is the same value.
pub assume_specification[ <serde_json::Value as Clone>::clone ](value: &serde_json::Value) -> (copy:
    serde_json::Value)
    ensures
        copy == *value,
;

/// Error code of a response to a request whose method is not registered.
pub const METHOD_NOT_FOUND: i32 = -32601;

/// Error code of a response to a request whose handler reported a failure.
pub const HANDLER_FAILED: i32 = -1;

/// A named-method request with an opaque payload.
#[derive(Debug, Clone)]
pub struct RpcRequest {
    pub id: String,
    pub method: String,
    pub params: serde_json::Value,
}

/// The structured failure carried by a response.
#[derive(Debug, Clone)]
pub struct RpcError {
    pub code: i32,
    pub message: String,
    pub data: Option<serde_json::Value>,
}

/// The answer to one request.
#[derive(Debug, Clone)]
pub struct RpcResponse {
    pub id: String,
    pub result: Option<serde_json::Value>,
    pub error: Option<RpcError>,
}

/// Mathematical value of an [`RpcError`].
pub ghost struct RpcErrorView {
    pub code: int,
    pub message: Seq<char>,
    pub data: Option<serde_json::Value>,
}

/// Mathematical value of an [`RpcResponse`].
pub ghost struct RpcResponseView {
    pub id: Seq<char>,
    pub result: Option<serde_json::Value>,
    pub error: Option<RpcErrorView>,
}

impl View for RpcError {
    type V = RpcErrorView;

    open spec fn view(&self) -> RpcErrorView {
        RpcErrorView { code: self.code as int, message: self.message@, data: self.data }
    }
}

impl View for RpcResponse {
    type V = RpcResponseView;

    open spec fn view(&self) -> RpcResponseView {
        RpcResponseView {
            id: self.id@,
            result: self.result,
            error: match self.error {
                Some(e) => Some(e@),
                None => None,
            },
        }
    }
}

impl RpcResponseView {
    /// A response carries a result or an error, never both and never neither.
    pub open spec fn well_formed(self) -> bool {
        self.result.is_some() != self.error.is_some()
    }
}

/// The text of the error that answers an unregistered `method`.
pub open spec fn not_found_message(method: Seq<char>) -> Seq<char> {
    "Method '"@ + method + "' not found"@
}

/// The response that carries `value` back to the caller identified by `id`.
pub open spec fn success_response(id: Seq<char>, value: serde_json::Value) -> RpcResponseView {
    RpcResponseView { id, result: Some(value), error: None }
}

/// The response that reports an error with `code` and `message`, without data.
pub open spec fn error_response(id: Seq<char>, code: int, message: Seq<char>) -> RpcResponseView {
    RpcResponseView {
        id,
        result: None,
        error: Some(RpcErrorView { code, message, data: None }),
    }
}

/// The response to a request for a method that nobody registered.
pub open spec fn not_found_response(id: Seq<char>, method: Seq<char>) -> RpcResponseView {
    error_response(id, METHOD_NOT_FOUND as int, not_found_message(method))
}

impl RpcResponse {
    /// Builds the response that carries a handler's value.
    pub fn success(id: String, value: serde_json::Value) -> (response: RpcResponse)
        ensures
            response@ == success_response(id@, value),
    {
        RpcResponse { id, result: Some(value), error: None }
    }

    /// Builds the response that reports a failure with the given code and text.
    pub fn failure(id: String, code: i32, message: String) -> (response: RpcResponse)
        ensures
            response@ == error_response(id@, code as int, message@),
    {
        RpcResponse { id, result: None, error: Some(RpcError { code, message, data: None }) }
    }

    /// Builds the response to a request whose method is not registered.
    pub fn method_not_found(id: String, method: &str) -> (response: RpcResponse)
        ensures
            response@ == not_found_response(id@, method@),
    {
        let message = String::from_str("Method '").concat(method).concat("' not found");
        RpcResponse::failure(id, METHOD_NOT_FOUND, message)
    }
}

} // verus!
