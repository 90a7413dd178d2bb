use mcprs::server::MCPServer;

#[test]
fn test_server_creation() {
    let name = "test-server".to_string();
    let version = "1.0.0".to_string();
    let server = MCPServer::new(name.clone(), version.clone());

    assert_eq!(server.name(), name);
    assert_eq!(server.version(), version);
}
