//! The closed set of protocol error codes, and the errors built from them.

use crate::json::{JsonValue, JsonView};
use crate::text::join2;
use crate::text::join3;
use vstd::prelude::*;

verus! {

/// The requested method, tool or resource does not exist.
pub const METHOD_NOT_FOUND: i32 = -32601;

/// The parameters of a request are missing or do not have the expected shape.
pub const INVALID_PARAMS: i32 = -32602;

/// A response could not be built, or a provider reported a failure.
pub const INTERNAL_ERROR: i32 = -32603;

/// A capability method was invoked before the handshake.
pub const SERVER_NOT_INITIALIZED: i32 = -32002;

/// A protocol-level failure: a code of the taxonomy, a message for people, and
/// optional structured data.
#[derive(Debug, PartialEq, Eq)]
pub struct McpError {
    pub code: i32,
    pub message: String,
    pub data: Option<JsonValue>,
}

/// The mathematical value of an error, on the wire or inside the engine.
pub struct ErrorView {
    pub code: i32,
    pub message: Seq<char>,
    pub data: Option<JsonView>,
}

/// The value of an optional payload.
pub open spec fn opt_view(payload: Option<JsonValue>) -> Option<JsonView> {
    match payload {
        Some(value) => Some(value@),
        None => None,
    }
}

impl View for McpError {
    type V = ErrorView;

    open spec fn view(&self) -> ErrorView {
        ErrorView { code: self.code, message: self.message@, data: opt_view(self.data) }
    }
}

/// An error that carries `code` and `message` and no data.
pub open spec fn plain_error(code: i32, message: Seq<char>) -> ErrorView {
    ErrorView { code, message, data: None }
}

/// The error for a method that has no handler.
pub open spec fn method_not_found_error() -> ErrorView {
    plain_error(METHOD_NOT_FOUND, "Method not found"@)
}

/// The error for parameters that are missing or ill-shaped.
pub open spec fn invalid_params_error() -> ErrorView {
    plain_error(INVALID_PARAMS, "Invalid params"@)
}

/// The error for a failure inside the server.
pub open spec fn internal_error_error() -> ErrorView {
    plain_error(INTERNAL_ERROR, "Internal error"@)
}

/// The error for a capability method that comes before the handshake.
pub open spec fn not_initialized_error() -> ErrorView {
    plain_error(SERVER_NOT_INITIALIZED, "Server not initialized"@)
}

/// The error for a call of a tool that nobody registered.
pub open spec fn tool_not_found_error(name: Seq<char>) -> ErrorView {
    plain_error(METHOD_NOT_FOUND, "Tool '"@ + name + "' not found"@)
}

/// The error for a read of a resource that nobody registered.
pub open spec fn resource_not_found_error(uri: Seq<char>) -> ErrorView {
    plain_error(METHOD_NOT_FOUND, "Resource '"@ + uri + "' not found"@)
}

/// The error that wraps the failure a resource provider reported.
pub open spec fn resource_read_failed_error(failure: Seq<char>) -> ErrorView {
    plain_error(INTERNAL_ERROR, "Resource read failed: "@ + failure)
}

impl McpError {
    /// An error with a code and a message chosen by the caller.
    pub fn custom(code: i32, message: String) -> (e: McpError)
        ensures
            e@ == plain_error(code, message@),
    {
        McpError { code, message, data: None }
    }

    /// The requested method has no handler.
    pub fn method_not_found() -> (e: McpError)
        ensures
            e@ == method_not_found_error(),
    {
        McpError::custom(METHOD_NOT_FOUND, "Method not found".to_owned())
    }

    /// The parameters are missing or ill-shaped.
    pub fn invalid_params() -> (e: McpError)
        ensures
            e@ == invalid_params_error(),
    {
        McpError::custom(INVALID_PARAMS, "Invalid params".to_owned())
    }

    /// Something failed inside the server.
    pub fn internal_error() -> (e: McpError)
        ensures
            e@ == internal_error_error(),
    {
        McpError::custom(INTERNAL_ERROR, "Internal error".to_owned())
    }

    /// A capability method came before the handshake.
    pub fn not_initialized() -> (e: McpError)
        ensures
            e@ == not_initialized_error(),
    {
        McpError::custom(SERVER_NOT_INITIALIZED, "Server not initialized".to_owned())
    }

    /// No tool is registered under `name`.
    pub fn tool_not_found(name: &str) -> (e: McpError)
        ensures
            e@ == tool_not_found_error(name@),
    {
        McpError::custom(METHOD_NOT_FOUND, join3("Tool '", name, "' not found"))
    }

    /// No resource is registered under `uri`.
    pub fn resource_not_found(uri: &str) -> (e: McpError)
        ensures
            e@ == resource_not_found_error(uri@),
    {
        McpError::custom(METHOD_NOT_FOUND, join3("Resource '", uri, "' not found"))
    }

    /// A resource provider reported `failure` while it was read.
    pub fn resource_read_failed(failure: &str) -> (e: McpError)
        ensures
            e@ == resource_read_failed_error(failure@),
    {
        McpError::custom(INTERNAL_ERROR, join2("Resource read failed: ", failure))
    }
}

} // verus!
