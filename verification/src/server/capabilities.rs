//! The interfaces through which the engine reaches its providers.
//!
//! A provider is whatever implements one of these traits.  The engine does
//! not know what a provider does when it is called: what it hands back may
//! depend on the time, on the network, on anything.  The one thing it holds
//! a provider to is that a descriptor carries the key it was asked for.

use crate::json::JsonValue;
use crate::protocol::payloads::{CallToolResult, ResourceContent};
use vstd::prelude::*;

verus! {

/// Something that can be called by name with arguments.
pub trait Tool: Send + Sync {
    /// The descriptor of the tool as registered under `name`.
    fn definition(&self, name: String) -> (descriptor: crate::protocol::payloads::Tool)
        ensures
            descriptor.name@ == name@,
    ;

    /// Runs the tool.  A failure is reported as text.
    fn call(&self, arguments: Vec<(String, JsonValue)>) -> (outcome: Result<
        CallToolResult,
        String,
    >);
}

/// Something that can be read by URI.
pub trait Resource: Send + Sync {
    /// The descriptor of the resource as registered under `uri`.
    fn definition(&self, uri: String) -> (descriptor: crate::protocol::payloads::Resource)
        ensures
            descriptor.uri@ == uri@,
    ;

    /// Reads the resource.  A failure is reported as text.
    fn read(&self) -> (outcome: Result<Vec<ResourceContent>, String>);
}

} // verus!
