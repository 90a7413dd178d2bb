//! The built-in tools and the handlers that answer calls.

use vstd::prelude::*;
use crate::args::{is_text_result, string_arg, text_arg, Arguments, CallResult};
use crate::mcprs::{list_servers, listed_servers, server_listing, MCPRSEntry};
use crate::error::HandlerError;
use crate::schema::{PropertyType, Schema, SchemaProperty};
use crate::tool::ToolDefinition;

verus! {

/// The description of the `query` property.
pub const QUERY_DESCRIPTION: &'static str = "The query to search for, can be left blank to list all servers";

/// Whether `s` declares exactly one property, a string named `name` and
/// described by `description`, and requires it.
pub open spec fn single_text_schema(s: Schema, name: Seq<char>, description: Seq<char>) -> bool {
    &&& s.properties_spec().len() == 1
    &&& s.properties_spec()[0].name@ == name
    &&& s.properties_spec()[0].property_type == PropertyType::String
    &&& s.properties_spec()[0].description matches Some(d) && d@ == description
    &&& s.required_spec().len() == 1
    &&& s.required_spec()[0]@ == name
}

/// The schema of one required string property.
pub fn text_schema(name: &str, description: &str) -> (r: Schema)
    ensures
        single_text_schema(r, name@, description@),
{
    let props = vec![SchemaProperty::new(name, PropertyType::String, description)];
    let required = vec![name.to_owned()];
    assert(props@[0].name@ == required@[0]@);
    Schema::new(props, required).unwrap()
}

/// The behaviour bound to a registered tool.
pub enum ToolHandler {
    /// Answers with the `message` argument.
    Echo,
    /// Answers with the server listing for the `query` argument.
    ServerList,
    /// The tool of a configured server: answers with the `query` argument.
    /// The entry's command is kept for when calls run it.
    Entry(MCPRSEntry),
}

/// The text a handler answers with, given the call's arguments.
pub open spec fn handler_output(h: ToolHandler, args: Option<Arguments>) -> Seq<char> {
    match h {
        ToolHandler::Echo => text_arg(args, "message"@),
        ToolHandler::ServerList => server_listing(text_arg(args, "query"@), listed_servers()),
        ToolHandler::Entry(_) => text_arg(args, "query"@),
    }
}

impl ToolHandler {
    /// Runs the handler on `args`. None of these handlers fails.
    pub fn invoke(&self, args: &Option<Arguments>) -> (r: Result<CallResult, HandlerError>)
        ensures
            r matches Ok(c) && is_text_result(c, handler_output(*self, *args)),
    {
        match self {
            ToolHandler::Echo => Ok(CallResult::text(string_arg(args, "message"))),
            ToolHandler::ServerList => {
                let query = string_arg(args, "query");
                Ok(CallResult::text(list_servers(query.as_str())))
            },
            ToolHandler::Entry(_) => Ok(CallResult::text(string_arg(args, "query"))),
        }
    }
}

/// A configured server's tool answers with the `query` argument whatever the
/// entry's name, description or command.
pub proof fn lemma_entry_ignores_command(a: MCPRSEntry, b: MCPRSEntry, args: Option<Arguments>)
    ensures
        handler_output(ToolHandler::Entry(a), args) == handler_output(ToolHandler::Entry(b), args),
        handler_output(ToolHandler::Entry(a), args) == text_arg(args, "query"@),
{
}

/// With the arguments absent, or lacking the read key, the echo and entry
/// handlers answer with the empty text.
pub proof fn lemma_missing_is_empty(h: ToolHandler, args: Option<Arguments>)
    ensures
        h is Echo && (args is None || !args->0@.contains_key("message"@)) ==> handler_output(h, args)
            == Seq::<char>::empty(),
        h is Entry && (args is None || !args->0@.contains_key("query"@)) ==> handler_output(h, args)
            == Seq::<char>::empty(),
{
}

/// The tool that echoes its `message` argument.
pub struct EchoTool;

impl EchoTool {
    pub fn tool() -> (r: ToolDefinition)
        ensures
            r.name_spec() == "echo"@,
            r.description_spec() matches Some(d) && d@ == "Echo back the message you send"@,
            single_text_schema(r.schema_spec(), "message"@, "The message to echo back"@),
            r.annotations_spec() is None,
    {
        proof {
            reveal_strlit("echo");
        }
        let schema = text_schema("message", "The message to echo back");
        let d = ToolDefinition::new(
            "echo".to_owned(),
            Some("Echo back the message you send".to_owned()),
            schema,
            None,
        );
        d.unwrap()
    }

    pub fn call() -> (r: ToolHandler)
        ensures
            r is Echo,
    {
        ToolHandler::Echo
    }
}

/// The tool that lists the configured servers.
pub struct MCPRSTool;

impl MCPRSTool {
    pub fn tool() -> (r: ToolDefinition)
        ensures
            r.name_spec() == "mcprs_list"@,
            r.description_spec() matches Some(d) && d@ == "List MCPRS servers"@,
            single_text_schema(r.schema_spec(), "query"@, QUERY_DESCRIPTION@),
            r.annotations_spec() is None,
    {
        proof {
            reveal_strlit("mcprs_list");
        }
        let schema = text_schema("query", QUERY_DESCRIPTION);
        let d = ToolDefinition::new(
            "mcprs_list".to_owned(),
            Some("List MCPRS servers".to_owned()),
            schema,
            None,
        );
        d.unwrap()
    }

    pub fn call() -> (r: ToolHandler)
        ensures
            r is ServerList,
    {
        ToolHandler::ServerList
    }
}

} // verus!
