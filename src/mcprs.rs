//! The configured server list, each entry of which becomes a tool of its own.

use vstd::prelude::*;
use crate::error::ToolError;
use crate::text::{concat, push_str};
use crate::tool::ToolDefinition;
use crate::tools::{single_text_schema, text_schema, ToolHandler, QUERY_DESCRIPTION};

verus! {

/// A configured server: its name, a description, and the command that would
/// run it.
pub struct MCPRSEntry {
    name: String,
    description: String,
    command: String,
}

/// The configured servers, in the order they were added.
pub struct MCPRS {
    servers: Vec<MCPRSEntry>,
}

/// An entry as (name, description, command).
pub type EntryView = (Seq<char>, Seq<char>, Seq<char>);

/// The listing line of an entry: `name: description`.
pub open spec fn entry_line(e: EntryView) -> Seq<char> {
    e.0 + ": "@ + e.1
}

/// The listing lines of `s`, joined by newlines.
pub open spec fn joined_lines(s: Seq<EntryView>) -> Seq<char>
    decreases s.len(),
{
    if s.len() == 0 {
        Seq::empty()
    } else if s.len() == 1 {
        entry_line(s[0])
    } else {
        joined_lines(s.drop_last()) + "\n"@ + entry_line(s.last())
    }
}

/// The text of the server listing for `query` over the servers `s`.
pub open spec fn server_listing(query: Seq<char>, s: Seq<EntryView>) -> Seq<char> {
    "Listing servers with query: "@ + query + "\n"@ + joined_lines(s)
}

/// The servers that the listing tool lists.
pub open spec fn listed_servers() -> Seq<EntryView> {
    seq![("MCPRS"@, "MCPRS Server"@, "mcprs"@)]
}

impl View for MCPRSEntry {
    type V = EntryView;

    closed spec fn view(&self) -> EntryView {
        (self.name@, self.description@, self.command@)
    }
}

impl View for MCPRS {
    type V = Seq<EntryView>;

    closed spec fn view(&self) -> Seq<EntryView> {
        self.servers@.map_values(|e: MCPRSEntry| e@)
    }
}

impl MCPRSEntry {
    pub fn new(name: &str, description: &str, command: &str) -> (r: MCPRSEntry)
        ensures
            r@ == (name@, description@, command@),
    {
        MCPRSEntry {
            name: name.to_owned(),
            description: description.to_owned(),
            command: command.to_owned(),
        }
    }

    /// An entry equal to this one.
    pub fn copy(&self) -> (r: MCPRSEntry)
        ensures
            r@ == self@,
    {
        MCPRSEntry::new(self.name.as_str(), self.description.as_str(), self.command.as_str())
    }

    pub fn name(&self) -> (r: &str)
        ensures
            r@ == self@.0,
    {
        self.name.as_str()
    }

    pub fn description(&self) -> (r: &str)
        ensures
            r@ == self@.1,
    {
        self.description.as_str()
    }

    pub fn command(&self) -> (r: &str)
        ensures
            r@ == self@.2,
    {
        self.command.as_str()
    }

    /// The listing line `name: description`.
    pub fn to_string(&self) -> (r: String)
        ensures
            r@ == entry_line(self@),
    {
        let mut r = concat(self.name.as_str(), ": ");
        push_str(&mut r, self.description.as_str());
        r
    }

    /// The definition of this entry's tool: its name, its description, and a
    /// schema of one string property `query`. Fails with `InvalidDefinition`
    /// exactly when the name is empty.
    pub fn tool(&self) -> (r: Result<ToolDefinition, ToolError>)
        ensures
            r is Ok <==> self@.0.len() > 0,
            r matches Ok(d) ==> {
                &&& d.name_spec() == self@.0
                &&& d.description_spec() matches Some(t) && t@ == self@.1
                &&& single_text_schema(d.schema_spec(), "query"@, QUERY_DESCRIPTION@)
                &&& d.annotations_spec() is None
            },
            r matches Err(e) ==> e is InvalidDefinition,
    {
        let schema = text_schema("query", QUERY_DESCRIPTION);
        ToolDefinition::new(self.name.clone(), Some(self.description.clone()), schema, None)
    }

    /// The handler of this entry's tool: it answers with the `query`
    /// argument and leaves the command unused.
    pub fn call(&self) -> (r: ToolHandler)
        ensures
            r matches ToolHandler::Entry(e) && e@ == self@,
    {
        ToolHandler::Entry(self.copy())
    }
}

/// The listing lines of `servers`, joined by newlines.
pub fn join_lines(servers: &Vec<MCPRSEntry>) -> (r: String)
    ensures
        r@ == joined_lines(servers@.map_values(|e: MCPRSEntry| e@)),
{
    let ghost views = servers@.map_values(|e: MCPRSEntry| e@);
    let mut r = String::new();
    let mut i: usize = 0;
    while i < servers.len()
        invariant
            0 <= i <= servers.len(),
            views == servers@.map_values(|e: MCPRSEntry| e@),
            r@ == joined_lines(views.take(i as int)),
        decreases servers.len() - i,
    {
        assert(views.take(i + 1).drop_last() =~= views.take(i as int));
        let line = servers[i].to_string();
        if i > 0 {
            push_str(&mut r, "\n");
        }
        push_str(&mut r, line.as_str());
        i = i + 1;
    }
    assert(views.take(i as int) =~= views);
    r
}

impl MCPRS {
    pub fn new() -> (r: MCPRS)
        ensures
            r@ == Seq::<EntryView>::empty(),
    {
        MCPRS { servers: Vec::new() }
    }

    /// Adds the entry of the server itself.
    pub fn load_config(&mut self)
        ensures
            final(self)@ == old(self)@.push(
                (
                    "MCPRS"@,
                    "Controls the MCPRS server, allowing you to add/remove servers"@,
                    "mcprs"@,
                ),
            ),
    {
        self.add_server(
            "MCPRS",
            "Controls the MCPRS server, allowing you to add/remove servers",
            "mcprs",
        );
    }

    /// Appends an entry.
    pub fn add_server(&mut self, name: &str, description: &str, command: &str)
        ensures
            final(self)@ == old(self)@.push((name@, description@, command@)),
    {
        self.servers.push(MCPRSEntry::new(name, description, command));
        assert(self@ =~= old(self)@.push((name@, description@, command@)));
    }

    pub fn get_servers(&self) -> (r: &Vec<MCPRSEntry>)
        ensures
            r@.map_values(|e: MCPRSEntry| e@) == self@,
    {
        &self.servers
    }

    /// The listing lines of all servers, or a notice when there are none.
    pub fn listing(&self) -> (r: String)
        ensures
            self@.len() == 0 ==> r@ == "No MCP Servers are currently installed"@,
            self@.len() > 0 ==> r@ == joined_lines(self@),
    {
        if self.servers.len() == 0 {
            "No MCP Servers are currently installed".to_owned()
        } else {
            join_lines(&self.servers)
        }
    }
}

/// The server listing answered for `query`.
pub fn list_servers(query: &str) -> (r: String)
    ensures
        r@ == server_listing(query@, listed_servers()),
{
    let mut mcprs = MCPRS::new();
    mcprs.add_server("MCPRS", "MCPRS Server", "mcprs");
    let mut r = concat("Listing servers with query: ", query);
    push_str(&mut r, "\n");
    let lines = join_lines(mcprs.get_servers());
    push_str(&mut r, lines.as_str());
    r
}

} // verus!
