use tinker::event::{BrowserCommand, BrowserEvent};
use tinker::json::{Json, JsonNumber, Real64};
use tinker::mcp::{JsonRpcRequest, McpServer};
use tokio::sync::broadcast;

fn setup_test_server() -> (McpServer, broadcast::Receiver<BrowserCommand>) {
    let (command_tx, command_rx) = broadcast::channel(100);
    let (_event_tx, event_rx) = broadcast::channel::<BrowserEvent>(100);
    (McpServer::new(command_tx, event_rx), command_rx)
}

fn obj(fields: Vec<(&str, Json)>) -> Json {
    Json::object(fields.into_iter().map(|(k, v)| (k.to_string(), v)).collect())
}

fn s(v: &str) -> Json {
    Json::string(v)
}

fn n(v: u64) -> Json {
    Json::Number(JsonNumber::PosInt(v))
}

fn call(name: &str, arguments: Json) -> Json {
    obj(vec![("name", s(name)), ("arguments", arguments)])
}

fn text_of(result: &Json) -> String {
    result.get("content").unwrap().as_array().unwrap()[0].get("text").unwrap().as_str().unwrap().to_string()
}

#[test]
fn test_initialize_request() {
    let (server, _rx) = setup_test_server();
    let params = obj(vec![
        ("protocolVersion", s("2024-11-05")),
        ("capabilities", obj(vec![])),
        ("clientInfo", obj(vec![("name", s("test-client")), ("version", s("1.0.0"))])),
    ]);
    let result = server.handle_initialize(Some(params));
    assert!(result.is_ok());
    let response = result.unwrap();
    assert_eq!(response.get("protocolVersion").unwrap().as_str(), Some("2024-11-05"));
    assert_eq!(response.get("serverInfo").unwrap().get("name").unwrap().as_str(), Some("tinker-browser-mcp"));
    assert!(response.get("capabilities").unwrap().get("tools").unwrap().is_object());
}

#[test]
fn test_tools_list() {
    let (server, _rx) = setup_test_server();
    let result = server.handle_tools_list();
    assert!(result.is_ok());
    let response = result.unwrap();
    let tools = response.get("tools").unwrap().as_array().unwrap();
    assert!(tools.len() >= 16);
    let tool_names: Vec<&str> = tools.iter().map(|t| t.get("name").unwrap().as_str().unwrap()).collect();
    assert!(tool_names.contains(&"navigate"));
    assert!(tool_names.contains(&"create_tab"));
    assert!(tool_names.contains(&"click_element"));
    assert!(tool_names.contains(&"execute_javascript"));
    assert!(tool_names.contains(&"take_screenshot"));
}

#[test]
fn test_navigate_tool_call() {
    let (mut server, mut rx) = setup_test_server();
    let params = call("navigate", obj(vec![("url", s("https://example.com"))]));
    let result = server.handle_tool_call(Some(params));
    assert!(result.is_ok());
    let response = result.unwrap();
    assert!(response.get("content").unwrap().is_array());
    let content = &response.get("content").unwrap().as_array().unwrap()[0];
    assert_eq!(content.get("type").unwrap().as_str(), Some("text"));
    assert!(content.get("text").unwrap().as_str().unwrap().contains("navigate"));
    assert!(matches!(rx.try_recv(), Ok(BrowserCommand::Navigate { url }) if url == "https://example.com"));
}

#[test]
fn test_missing_tool_name() {
    let (mut server, _rx) = setup_test_server();
    let params = obj(vec![("arguments", obj(vec![("url", s("https://example.com"))]))]);
    let result = server.handle_tool_call(Some(params));
    assert!(result.is_err());
    let error = result.unwrap_err();
    assert_eq!(error.code, -32602);
    assert!(error.message.contains("missing tool name"));
}

#[test]
fn test_unknown_tool() {
    let (mut server, _rx) = setup_test_server();
    let result = server.handle_tool_call(Some(call("nonexistent_tool", obj(vec![]))));
    assert!(result.is_err());
    let error = result.unwrap_err();
    assert_eq!(error.code, -32601);
    assert!(error.message.contains("Unknown tool"));
}

#[test]
fn test_missing_required_parameter() {
    let (mut server, _rx) = setup_test_server();
    let result = server.handle_tool_call(Some(call("navigate", obj(vec![]))));
    assert!(result.is_err());
    let error = result.unwrap_err();
    assert_eq!(error.code, -32602);
    assert!(error.message.contains("Missing required parameter"));
}

#[test]
fn test_click_element_tool() {
    let (mut server, _rx) = setup_test_server();
    let params = call("click_element", obj(vec![("selector_type", s("css")), ("selector", s(".button"))]));
    let result = server.handle_tool_call(Some(params));
    assert!(result.is_ok());
    assert!(text_of(&result.unwrap()).contains("click_element"));
}

#[test]
fn test_type_text_tool() {
    let (mut server, _rx) = setup_test_server();
    let params = call(
        "type_text",
        obj(vec![("selector_type", s("css")), ("selector", s("input[name='search']")), ("text", s("Hello World"))]),
    );
    assert!(server.handle_tool_call(Some(params)).is_ok());
}

#[test]
fn test_execute_javascript_tool() {
    let (mut server, _rx) = setup_test_server();
    let params = call("execute_javascript", obj(vec![("script", s("document.title"))]));
    assert!(server.handle_tool_call(Some(params)).is_ok());
}

#[test]
fn test_screenshot_tool() {
    let (mut server, _rx) = setup_test_server();
    let params = call("take_screenshot", obj(vec![("format", s("png"))]));
    assert!(server.handle_tool_call(Some(params)).is_ok());
}

#[test]
fn test_network_monitoring_tools() {
    let (mut server, _rx) = setup_test_server();
    assert!(server.handle_tool_call(Some(call("start_network_monitoring", obj(vec![])))).is_ok());
    assert!(server.handle_tool_call(Some(call("get_network_stats", obj(vec![])))).is_ok());
    assert!(server.handle_tool_call(Some(call("stop_network_monitoring", obj(vec![])))).is_ok());
}

#[test]
fn test_visual_testing_tools() {
    let (mut server, mut rx) = setup_test_server();
    let params = call("create_visual_baseline", obj(vec![("test_name", s("homepage"))]));
    assert!(server.handle_tool_call(Some(params)).is_ok());
    let tolerance = Json::Number(JsonNumber::Float(Real64 { bits: 0.05f64.to_bits() }));
    let params = call("run_visual_test", obj(vec![("test_name", s("homepage")), ("tolerance", tolerance)]));
    assert!(server.handle_tool_call(Some(params)).is_ok());
    assert!(matches!(rx.try_recv(), Ok(BrowserCommand::CreateBaseline { .. })));
    assert!(matches!(rx.try_recv(), Ok(BrowserCommand::RunVisualTest { tolerance: JsonNumber::Float(t), .. }) if t.bits == 0.05f64.to_bits()));
}

#[test]
fn test_tab_management_tools() {
    let (mut server, _rx) = setup_test_server();
    assert!(server.handle_tool_call(Some(call("create_tab", obj(vec![("url", s("https://example.com"))])))).is_ok());
    assert!(server.handle_tool_call(Some(call("switch_tab", obj(vec![("id", n(1))])))).is_ok());
    assert!(server.handle_tool_call(Some(call("close_tab", obj(vec![("id", n(1))])))).is_ok());
}

#[test]
fn test_resources_list() {
    let (server, _rx) = setup_test_server();
    let result = server.handle_resources_list();
    assert!(result.is_ok());
    assert!(result.unwrap().get("resources").unwrap().is_array());
}

#[test]
fn test_prompts_list() {
    let (server, _rx) = setup_test_server();
    let result = server.handle_prompts_list();
    assert!(result.is_ok());
    assert!(result.unwrap().get("prompts").unwrap().is_array());
}

#[test]
fn test_handle_request_method_not_found() {
    let (mut server, _rx) = setup_test_server();
    let request = JsonRpcRequest {
        jsonrpc: "2.0".to_string(),
        id: Some(n(1)),
        method: "nonexistent_method".to_string(),
        params: None,
    };
    let response = server.handle_request(request);
    assert!(response.error.is_some());
    let error = response.error.unwrap();
    assert_eq!(error.code, -32601);
    assert!(error.message.contains("Method not found"));
}

#[test]
fn test_tool_definition() {
    let (server, _rx) = setup_test_server();
    let schema = obj(vec![("type", s("object")), ("properties", obj(vec![("param", obj(vec![("type", s("string"))]))]))]);
    let definition = server.tool_definition("test_tool", "A test tool", schema);
    assert_eq!(definition.get("name").unwrap().as_str(), Some("test_tool"));
    assert_eq!(definition.get("description").unwrap().as_str(), Some("A test tool"));
    assert!(definition.get("inputSchema").unwrap().is_object());
    assert_eq!(definition.get("inputSchema").unwrap().get("type").unwrap().as_str(), Some("object"));
}

#[test]
fn test_find_element_different_selectors() {
    let (mut server, _rx) = setup_test_server();
    for (kind, selector) in [("css", ".my-class"), ("xpath", "//div[@class='my-class']"), ("text", "Click me")] {
        let params = call("find_element", obj(vec![("selector_type", s(kind)), ("selector", s(selector))]));
        assert!(server.handle_tool_call(Some(params)).is_ok());
    }
}

#[test]
fn a_request_is_answered_with_its_id() {
    let (mut server, _rx) = setup_test_server();
    let request = JsonRpcRequest {
        jsonrpc: "2.0".to_string(),
        id: Some(n(7)),
        method: "tools/list".to_string(),
        params: None,
    };
    let response = server.handle_request(request);
    assert_eq!(response.jsonrpc, "2.0");
    assert!(matches!(response.id, Some(Json::Number(JsonNumber::PosInt(7)))));
    assert!(response.result.is_some());
    assert!(response.error.is_none());
}

#[test]
fn a_tool_call_without_a_receiver_fails_to_send() {
    let (command_tx, command_rx) = broadcast::channel::<BrowserCommand>(4);
    drop(command_rx);
    let (_event_tx, event_rx) = broadcast::channel::<BrowserEvent>(4);
    let mut server = McpServer::new(command_tx, event_rx);
    let error = server.handle_tool_call(Some(call("navigate", obj(vec![("url", s("https://example.com"))])))).unwrap_err();
    assert_eq!(error.code, -32603);
}

#[test]
fn refused_tool_calls_send_nothing() {
    let (mut server, mut rx) = setup_test_server();
    assert!(server.handle_tool_call(Some(obj(vec![("arguments", obj(vec![]))]))).is_err());
    assert!(server.handle_tool_call(Some(call("nonexistent_tool", obj(vec![])))).is_err());
    assert!(server.handle_tool_call(Some(call("navigate", obj(vec![])))).is_err());
    assert!(rx.try_recv().is_err());
}

#[test]
fn api_endpoints_send_their_command() {
    let (command_tx, mut rx) = broadcast::channel::<BrowserCommand>(10);
    let mut sender = tinker::mcp::CommandSender::new(command_tx);
    let answer = tinker::api::close_tab(&mut sender, 3);
    assert!(answer.success);
    assert_eq!(answer.data.as_deref(), Some("Closing tab 3"));
    assert!(matches!(rx.try_recv(), Ok(BrowserCommand::CloseTab { id: 3 })));
    drop(rx);
    let answer = tinker::api::activate_tab(&mut sender, 4);
    assert!(!answer.success);
    assert_eq!(answer.error.as_deref(), Some("Failed to send activate tab command: channel closed"));
}
