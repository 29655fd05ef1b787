//! A protocol server for the Model Context Protocol, with tools and
//! resources that report on an Anki collection.
//!
//! The crate is the protocol engine: the envelope and its JSON form, the
//! error taxonomy, the registry of providers and the dispatch of every
//! message to its answer.  It neither reads nor writes a stream and it
//! neither parses nor prints JSON text: it works on values.

pub mod json;
pub mod protocol;
pub mod server;
pub mod text;
pub mod transport;

pub use server::McpServer;
