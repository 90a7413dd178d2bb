//! Dispatch of call requests, and assembly of the registry served.

use vstd::prelude::*;
use crate::args::{is_text_result, CallRequest, CallResult};
use crate::mcprs::{EntryView, MCPRS};
use crate::registry::{lookup_spec, names_of, has_name, Registry};
use crate::error::ToolError;
use crate::tools::{handler_output, EchoTool, ToolHandler};

verus! {

/// Runs the tool that `request` names on its arguments.
///
/// Fails with `UnknownTool`, carrying the requested name, exactly when no tool
/// of that name is registered; a handler failure comes back as
/// `HandlerFailed` with the handler's error.
pub fn dispatch(registry: &Registry, request: &CallRequest) -> (r: Result<CallResult, ToolError>)
    requires
        registry.wf(),
    ensures
        r is Err <==> !has_name(registry@, request.tool_name@),
        r matches Err(e) ==> e matches ToolError::UnknownTool(n) && n@ == request.tool_name@,
        r matches Ok(c) ==> lookup_spec(registry@, request.tool_name@) matches Some(entry)
            && is_text_result(c, handler_output(entry.handler, request.arguments)),
{
    match registry.lookup(request.tool_name.as_str()) {
        None => Err(ToolError::UnknownTool(request.tool_name.clone())),
        Some(entry) => match entry.handler.invoke(&request.arguments) {
            Ok(c) => Ok(c),
            Err(e) => Err(ToolError::HandlerFailed(e)),
        },
    }
}

/// The names a registry holds after registering, in order, the tools of
/// `servers` onto one holding `base`: a server whose name is empty or taken
/// is skipped.
pub open spec fn admitted(base: Seq<Seq<char>>, servers: Seq<EntryView>) -> Seq<Seq<char>>
    decreases servers.len(),
{
    if servers.len() == 0 {
        base
    } else {
        let prev = admitted(base, servers.drop_last());
        let n = servers.last().0;
        if n.len() > 0 && !prev.contains(n) {
            prev.push(n)
        } else {
            prev
        }
    }
}

/// The registry that is served: the echo tool, then one tool per configured
/// server. A server whose tool cannot be built or registered is skipped.
pub fn build_registry(mcprs: &MCPRS) -> (r: Registry)
    ensures
        r.wf(),
        names_of(r@) == admitted(seq!["echo"@], mcprs@),
        r@[0].handler is Echo,
        forall|i: int| 1 <= i < r@.len() ==> ((#[trigger] r@[i]).handler matches ToolHandler::Entry(e)
            && e@.0 == r@[i].definition.name_spec()),
{
    let mut registry = Registry::new();
    let echo = EchoTool::tool();
    let _ = registry.register(echo, EchoTool::call());
    assert(names_of(registry@) =~= seq!["echo"@]);
    let servers = mcprs.get_servers();
    let ghost views = servers@.map_values(|e: crate::mcprs::MCPRSEntry| e@);
    let mut i: usize = 0;
    while i < servers.len()
        invariant
            0 <= i <= servers.len(),
            views == mcprs@,
            views == servers@.map_values(|e: crate::mcprs::MCPRSEntry| e@),
            registry.wf(),
            registry@.len() >= 1,
            names_of(registry@) == admitted(seq!["echo"@], views.take(i as int)),
            registry@[0].handler is Echo,
            forall|k: int| 1 <= k < registry@.len() ==> ((#[trigger] registry@[k]).handler matches ToolHandler::Entry(e)
                && e@.0 == registry@[k].definition.name_spec()),
        decreases servers.len() - i,
    {
        let ghost before = registry@;
        assert(views.take(i + 1).drop_last() =~= views.take(i as int));
        let entry = &servers[i];
        match entry.tool() {
            Ok(def) => {
                let _ = registry.register(def, entry.call());
                proof {
                    if !has_name(before, views[i as int].0) {
                        assert(names_of(registry@) =~= names_of(before).push(views[i as int].0));
                    }
                }
            },
            Err(_) => {},
        }
        i = i + 1;
    }
    assert(views.take(i as int) =~= views);
    registry
}

} // verus!
