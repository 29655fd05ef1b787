//! The protocol's data: envelopes, payloads and errors.

pub mod errors;
pub mod messages;
pub mod payloads;

use vstd::prelude::*;

verus! {

/// The protocol revision that the server speaks.
pub const MCP_VERSION: &'static str = "2024-11-05";

} // verus!
