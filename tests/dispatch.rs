use mcprs::args::{ArgValue, Arguments, CallRequest, CallResult, ContentBlock};
use mcprs::dispatch::{build_registry, dispatch};
use mcprs::mcprs::{list_servers, MCPRSEntry, MCPRS};
use mcprs::registry::Registry;
use mcprs::error::ToolError;
use mcprs::schema::{PropertyType, Schema, SchemaProperty};
use mcprs::tool::ToolDefinition;
use mcprs::tools::{EchoTool, MCPRSTool, ToolHandler};

fn text_of(r: &CallResult) -> String {
    assert_eq!(r.content.len(), 1);
    match &r.content[0] {
        ContentBlock::Text(t) => t.clone(),
    }
}

fn args_with(key: &str, value: ArgValue) -> Option<Arguments> {
    let mut a = Arguments::new();
    a.insert(key.to_string(), value);
    Some(a)
}

fn request(name: &str, arguments: Option<Arguments>) -> CallRequest {
    CallRequest { tool_name: name.to_string(), arguments }
}

fn simple_definition(name: &str) -> ToolDefinition {
    let schema = Schema::new(vec![], vec![]).unwrap();
    ToolDefinition::new(name.to_string(), None, schema, None).unwrap()
}

#[test]
fn register_then_lookup_finds_entry() {
    let mut r = Registry::new();
    r.register(simple_definition("a"), ToolHandler::Echo).unwrap();
    r.register(simple_definition("b"), ToolHandler::ServerList).unwrap();
    let e = r.lookup("b").unwrap();
    assert_eq!(e.definition.name(), "b");
    assert!(matches!(e.handler, ToolHandler::ServerList));
    assert!(r.lookup("c").is_none());
    assert!(r.lookup("B").is_none());
}

#[test]
fn duplicate_name_is_rejected_and_registry_unchanged() {
    let mut r = Registry::new();
    r.register(simple_definition("a"), ToolHandler::Echo).unwrap();
    let err = r.register(simple_definition("a"), ToolHandler::ServerList);
    assert!(matches!(err, Err(ToolError::DuplicateName)));
    assert_eq!(r.len(), 1);
    assert!(matches!(r.lookup("a").unwrap().handler, ToolHandler::Echo));
}

#[test]
fn schema_with_undeclared_required_name_is_invalid() {
    let props = vec![SchemaProperty::new("message", PropertyType::String, "m")];
    let bad = Schema::new(props, vec!["query".to_string()]);
    assert!(matches!(bad, Err(ToolError::InvalidDefinition)));
    let props = vec![SchemaProperty::new("message", PropertyType::String, "m")];
    let good = Schema::new(props, vec!["message".to_string()]).unwrap();
    assert_eq!(good.required(), &vec!["message".to_string()]);
    assert_eq!(good.properties()[0].name, "message");
}

#[test]
fn empty_tool_name_is_invalid() {
    let schema = Schema::new(vec![], vec![]).unwrap();
    let d = ToolDefinition::new(String::new(), None, schema, None);
    assert!(matches!(d, Err(ToolError::InvalidDefinition)));
    let e = MCPRSEntry::new("", "no name", "cmd");
    assert!(matches!(e.tool(), Err(ToolError::InvalidDefinition)));
}

#[test]
fn unknown_tool_carries_requested_name() {
    let r = build_registry(&MCPRS::new());
    match dispatch(&r, &request("missing_tool", None)) {
        Err(ToolError::UnknownTool(n)) => assert_eq!(n, "missing_tool"),
        _ => panic!("expected UnknownTool"),
    }
}

#[test]
fn echo_returns_message() {
    let r = build_registry(&MCPRS::new());
    let args = args_with("message", ArgValue::Text("hello".to_string()));
    let out = dispatch(&r, &request("echo", args)).unwrap();
    assert_eq!(text_of(&out), "hello");
}

#[test]
fn echo_without_arguments_returns_empty() {
    let r = build_registry(&MCPRS::new());
    let out = dispatch(&r, &request("echo", None)).unwrap();
    assert_eq!(text_of(&out), "");
}

#[test]
fn echo_with_non_text_message_returns_empty() {
    let r = build_registry(&MCPRS::new());
    let out = dispatch(&r, &request("echo", args_with("message", ArgValue::Int(5)))).unwrap();
    assert_eq!(text_of(&out), "");
    let out = dispatch(&r, &request("echo", args_with("other", ArgValue::Text("x".to_string())))).unwrap();
    assert_eq!(text_of(&out), "");
}

#[test]
fn entry_tool_echoes_query_whatever_its_command() {
    let mut m = MCPRS::new();
    m.add_server("X", "a server", "rm -rf /");
    let r = build_registry(&m);
    let args = args_with("query", ArgValue::Text("q".to_string()));
    let out = dispatch(&r, &request("X", args)).unwrap();
    assert_eq!(text_of(&out), "q");
}

#[test]
fn list_keeps_registration_order_across_dispatch() {
    let mut m = MCPRS::new();
    m.add_server("b", "second", "b");
    m.add_server("a", "first", "a");
    m.add_server("b", "again", "b");
    m.add_server("", "nameless", "c");
    let r = build_registry(&m);
    let names = |r: &Registry| r.list().iter().map(|d| d.name().to_string()).collect::<Vec<String>>();
    let before = names(&r);
    assert_eq!(before, vec!["echo", "b", "a"]);
    let _ = dispatch(&r, &request("a", None));
    let _ = dispatch(&r, &request("nope", None));
    assert_eq!(names(&r), before);
}

#[test]
fn arguments_insert_replaces() {
    let mut a = Arguments::new();
    a.insert("k".to_string(), ArgValue::Text("one".to_string()));
    a.insert("k".to_string(), ArgValue::Text("two".to_string()));
    assert!(matches!(a.get("k"), Some(ArgValue::Text(t)) if t == "two"));
    assert!(a.get("z").is_none());
}

#[test]
fn server_list_tool_lists_servers() {
    let mut r = Registry::new();
    r.register(MCPRSTool::tool(), MCPRSTool::call()).unwrap();
    let args = args_with("query", ArgValue::Text("abc".to_string()));
    let out = dispatch(&r, &request("mcprs_list", args)).unwrap();
    assert_eq!(text_of(&out), "Listing servers with query: abc\nMCPRS: MCPRS Server");
    assert_eq!(list_servers(""), "Listing servers with query: \nMCPRS: MCPRS Server");
}

#[test]
fn builtin_definitions() {
    let e = EchoTool::tool();
    assert_eq!(e.name(), "echo");
    assert_eq!(e.description().as_deref(), Some("Echo back the message you send"));
    let s = e.input_schema();
    assert_eq!(s.properties().len(), 1);
    assert_eq!(s.properties()[0].name, "message");
    assert_eq!(s.properties()[0].property_type, PropertyType::String);
    assert_eq!(s.required(), &vec!["message".to_string()]);
    let t = MCPRSTool::tool();
    assert_eq!(t.name(), "mcprs_list");
    assert_eq!(t.input_schema().required(), &vec!["query".to_string()]);
}

#[test]
fn entry_line_and_listing() {
    let mut m = MCPRS::new();
    assert_eq!(m.listing(), "No MCP Servers are currently installed");
    m.load_config();
    m.add_server("x", "y", "z");
    assert_eq!(m.get_servers().len(), 2);
    assert_eq!(m.get_servers()[1].to_string(), "x: y");
    assert_eq!(m.get_servers()[1].command(), "z");
    assert_eq!(
        m.listing(),
        "MCPRS: Controls the MCPRS server, allowing you to add/remove servers\nx: y"
    );
    let d = m.get_servers()[1].tool().unwrap();
    assert_eq!(d.name(), "x");
    assert_eq!(d.description().as_deref(), Some("y"));
    assert_eq!(d.input_schema().properties()[0].name, "query");
}
