//! The errors of definition, registration and dispatch.

use vstd::prelude::*;

verus! {

/// Errors raised while building definitions, registering them, or
/// dispatching a call.
#[derive(Debug)]
pub enum ToolError {
    /// A malformed definition: an empty tool name, or a schema whose required
    /// list names a property it does not declare.
    InvalidDefinition,
    /// A tool of the same name is already registered.
    DuplicateName,
    /// No tool of the requested name is registered; carries that name.
    UnknownTool(String),
    /// The handler failed; carries its error unchanged.
    HandlerFailed(HandlerError),
    /// The request was aborted before it produced a result.
    Cancelled,
}

/// A failure reported by a tool handler.
#[derive(Debug)]
pub struct HandlerError {
    pub kind: String,
    pub message: String,
}

} // verus!
