//! The Model Context Protocol server: JSON-RPC 2.0 requests that list the
//! browser's tools and turn tool calls into browser commands.

use vstd::prelude::*;
use crate::event::{BrowserCommand, BrowserEvent};
use crate::json::{Json, JsonNumber, JsonV, Real64};
use crate::text::{concat, equals, to_string};

verus! {

/// The protocol version the server speaks.
pub const MCP_VERSION: &'static str = "2024-11-05";

/// The server's own version.
pub const SERVER_VERSION: &'static str = "0.1.0";

/// The bits of the tolerance a visual test gets where the call gives none:
/// the double closest to 0.1.
pub const DEFAULT_TOLERANCE_BITS: u64 = 0x3FB9_9999_9999_999A;

/// Broadcast channel senders, carried as they are.
#[verifier::external_type_specification]
#[verifier::external_body]
#[verifier::reject_recursive_types(T)]
pub struct ExBroadcastSender<T>(tokio::sync::broadcast::Sender<T>);

/// Broadcast channel receivers, carried as they are.
#[verifier::external_type_specification]
#[verifier::external_body]
#[verifier::reject_recursive_types(T)]
pub struct ExBroadcastReceiver<T>(tokio::sync::broadcast::Receiver<T>);

/// A sender of commands to the browser, over a broadcast channel, with the
/// record of the commands that the channel took from it, oldest first.
pub struct CommandSender {
    tx: tokio::sync::broadcast::Sender<BrowserCommand>,
    delivered: Ghost<Seq<BrowserCommand>>,
}

impl CommandSender {
    /// The commands the channel took from this sender, oldest first.
    pub closed spec fn delivered(&self) -> Seq<BrowserCommand> {
        self.delivered@
    }

    /// A sender on `tx` that has sent nothing yet.
    pub fn new(tx: tokio::sync::broadcast::Sender<BrowserCommand>) -> (res: CommandSender)
        ensures
            res.delivered() == Seq::<BrowserCommand>::empty(),
    {
        CommandSender { tx, delivered: Ghost(Seq::empty()) }
    }
}

/// The record of a sender after it handed `command` to the channel: the
/// command is added when the channel took it, and nothing otherwise.
pub open spec fn delivered_after(
    before: Seq<BrowserCommand>,
    after: Seq<BrowserCommand>,
    command: BrowserCommand,
    taken: bool,
) -> bool {
    if taken {
        after == before.push(command)
    } else {
        after == before
    }
}

/// `broadcast::Sender::send`: hands `command` to the channel. The channel
/// takes it when some receiver is alive, which is not stated; otherwise the
/// command is handed back and the error reads `channel closed`. The record of
/// the sender gains the command exactly when the channel took it.
#[verifier::external_body]
pub(crate) fn send_command(sender: &mut CommandSender, command: BrowserCommand) -> (res: Result<(), String>)
    ensures
        delivered_after(old(sender).delivered(), final(sender).delivered(), command, res is Ok),
        res matches Err(m) ==> m@ == "channel closed"@,
{
    match sender.tx.send(command) {
        Ok(_) => Ok(()),
        Err(e) => Err(e.to_string()),
    }
}

/// A JSON-RPC 2.0 request.
#[derive(Debug)]
pub struct JsonRpcRequest {
    pub jsonrpc: String,
    pub id: Option<Json>,
    pub method: String,
    pub params: Option<Json>,
}

/// A JSON-RPC 2.0 response: a result or an error.
#[derive(Debug)]
pub struct JsonRpcResponse {
    pub jsonrpc: String,
    pub id: Option<Json>,
    pub result: Option<Json>,
    pub error: Option<JsonRpcError>,
}

/// A JSON-RPC 2.0 error.
#[derive(Debug)]
pub struct JsonRpcError {
    pub code: i32,
    pub message: String,
    pub data: Option<Json>,
}

/// `e` is the error with `code` and `message`, without data.
pub open spec fn is_rpc_error(e: JsonRpcError, code: i32, message: Seq<char>) -> bool {
    e.code == code && e.message@ == message && e.data is None
}

fn rpc_error(code: i32, message: String) -> (res: JsonRpcError)
    ensures
        is_rpc_error(res, code, message@),
{
    JsonRpcError { code, message, data: None }
}

/// Invalid parameters.
pub const INVALID_PARAMS: i32 = -32602;

/// An unknown method or tool.
pub const METHOD_NOT_FOUND: i32 = -32601;

/// A failure inside the server.
pub const INTERNAL_ERROR: i32 = -32603;

/// A request that is no JSON.
pub const PARSE_ERROR: i32 = -32700;

// ---------------------------------------------------------------------------
// The tool catalog
// ---------------------------------------------------------------------------

/// A parameter of a tool.
pub struct ParamSpec {
    pub name: String,
    pub kind: String,
    pub description: String,
    pub choices: Vec<String>,
}

/// A tool parameter as a mathematical value.
#[verifier::ext_equal]
pub struct ParamSpecV {
    pub name: Seq<char>,
    pub kind: Seq<char>,
    pub description: Seq<char>,
    pub choices: Seq<Seq<char>>,
}

/// A tool: its name, what it does, its parameters and which of them it needs.
pub struct ToolSpec {
    pub name: String,
    pub description: String,
    pub params: Vec<ParamSpec>,
    pub required: Vec<String>,
}

/// A tool as a mathematical value.
#[verifier::ext_equal]
pub struct ToolSpecV {
    pub name: Seq<char>,
    pub description: Seq<char>,
    pub params: Seq<ParamSpecV>,
    pub required: Seq<Seq<char>>,
}

/// The characters of each string.
pub open spec fn chars_of(v: Seq<String>) -> Seq<Seq<char>> {
    v.map_values(|s: String| s@)
}

impl View for ParamSpec {
    type V = ParamSpecV;

    open spec fn view(&self) -> ParamSpecV {
        ParamSpecV {
            name: self.name@,
            kind: self.kind@,
            description: self.description@,
            choices: chars_of(self.choices@),
        }
    }
}

impl View for ToolSpec {
    type V = ToolSpecV;

    open spec fn view(&self) -> ToolSpecV {
        ToolSpecV {
            name: self.name@,
            description: self.description@,
            params: self.params@.map_values(|p: ParamSpec| p@),
            required: chars_of(self.required@),
        }
    }
}

/// A parameter of kind `kind`.
pub open spec fn param_v(name: Seq<char>, kind: Seq<char>, description: Seq<char>) -> ParamSpecV {
    ParamSpecV { name, kind, description, choices: Seq::empty() }
}

/// The selector parameters shared by the element tools.
pub open spec fn selector_params() -> Seq<ParamSpecV> {
    seq![
        ParamSpecV {
            name: "selector_type"@,
            kind: "string"@,
            description: "Type of selector (css, xpath, text)"@,
            choices: seq!["css"@, "xpath"@, "text"@],
        },
        param_v("selector"@, "string"@, "The selector string"@),
    ]
}

/// A tool as a mathematical value.
pub open spec fn tool_v(
    name: Seq<char>,
    description: Seq<char>,
    params: Seq<ParamSpecV>,
    required: Seq<Seq<char>>,
) -> ToolSpecV {
    ToolSpecV { name, description, params, required }
}

/// The tools the server offers, in the order they are listed.
pub open spec fn tool_catalog_v() -> Seq<ToolSpecV> {
    seq![
        tool_v(
            "navigate"@,
            "Navigate the browser to a URL"@,
            seq![param_v("url"@, "string"@, "The URL to navigate to"@)],
            seq!["url"@],
        ),
        tool_v(
            "create_tab"@,
            "Create a new browser tab"@,
            seq![param_v("url"@, "string"@, "The URL to open in the new tab"@)],
            seq!["url"@],
        ),
        tool_v(
            "close_tab"@,
            "Close a browser tab"@,
            seq![param_v("id"@, "number"@, "The tab ID to close"@)],
            seq!["id"@],
        ),
        tool_v(
            "switch_tab"@,
            "Switch to a different tab"@,
            seq![param_v("id"@, "number"@, "The tab ID to switch to"@)],
            seq!["id"@],
        ),
        tool_v(
            "take_screenshot"@,
            "Capture a screenshot of the current page"@,
            seq![
                ParamSpecV {
                    name: "format"@,
                    kind: "string"@,
                    description: "Image format (png, jpeg, webp)"@,
                    choices: seq!["png"@, "jpeg"@, "webp"@],
                },
                param_v("quality"@, "number"@, "Image quality for JPEG (0-100)"@),
            ],
            Seq::empty(),
        ),
        tool_v(
            "find_element"@,
            "Find DOM elements using CSS selector, XPath, or text content"@,
            selector_params(),
            seq!["selector_type"@, "selector"@],
        ),
        tool_v(
            "click_element"@,
            "Click on a DOM element"@,
            selector_params(),
            seq!["selector_type"@, "selector"@],
        ),
        tool_v(
            "type_text"@,
            "Type text into an input element"@,
            selector_params().push(param_v("text"@, "string"@, "The text to type"@)),
            seq!["selector_type"@, "selector"@, "text"@],
        ),
        tool_v(
            "get_page_info"@,
            "Get information about the current page (title, URL, HTML)"@,
            Seq::empty(),
            Seq::empty(),
        ),
        tool_v(
            "execute_javascript"@,
            "Execute JavaScript code in the page context"@,
            seq![param_v("script"@, "string"@, "JavaScript code to execute"@)],
            seq!["script"@],
        ),
        tool_v(
            "start_network_monitoring"@,
            "Start monitoring network requests and responses"@,
            Seq::empty(),
            Seq::empty(),
        ),
        tool_v(
            "stop_network_monitoring"@,
            "Stop monitoring network requests"@,
            Seq::empty(),
            Seq::empty(),
        ),
        tool_v(
            "get_network_stats"@,
            "Get network monitoring statistics"@,
            Seq::empty(),
            Seq::empty(),
        ),
        tool_v(
            "export_network_har"@,
            "Export network traffic as HAR file"@,
            Seq::empty(),
            Seq::empty(),
        ),
        tool_v(
            "create_visual_baseline"@,
            "Create a visual baseline for regression testing"@,
            seq![param_v("test_name"@, "string"@, "Name of the visual test"@)],
            seq!["test_name"@],
        ),
        tool_v(
            "run_visual_test"@,
            "Run a visual regression test against baseline"@,
            seq![
                param_v("test_name"@, "string"@, "Name of the visual test"@),
                param_v("tolerance"@, "number"@, "Tolerance for differences (0.0 to 1.0, default 0.1)"@),
            ],
            seq!["test_name"@],
        ),
    ]
}

/// The JSON schema of one parameter.
pub open spec fn param_schema_v(p: ParamSpecV) -> JsonV {
    let base = seq![("type"@, JsonV::Str(p.kind)), ("description"@, JsonV::Str(p.description))];
    if p.choices.len() == 0 {
        JsonV::Object(base)
    } else {
        JsonV::Object(base.push(("enum"@, JsonV::Array(p.choices.map_values(|c: Seq<char>| JsonV::Str(c))))))
    }
}

/// The JSON schema of a tool's input.
pub open spec fn input_schema_v(t: ToolSpecV) -> JsonV {
    let properties = JsonV::Object(t.params.map_values(|p: ParamSpecV| (p.name, param_schema_v(p))));
    let base = seq![("type"@, JsonV::Str("object"@)), ("properties"@, properties)];
    if t.required.len() == 0 {
        JsonV::Object(base)
    } else {
        JsonV::Object(base.push(("required"@, JsonV::Array(t.required.map_values(|r: Seq<char>| JsonV::Str(r))))))
    }
}

/// A tool's definition as `tools/list` lists it.
pub open spec fn tool_definition_v(name: Seq<char>, description: Seq<char>, schema: JsonV) -> JsonV {
    JsonV::Object(seq![("name"@, JsonV::Str(name)), ("description"@, JsonV::Str(description)), ("inputSchema"@, schema)])
}

/// The answer to `tools/list`.
pub open spec fn tools_list_v() -> JsonV {
    JsonV::Object(
        seq![
            (
                "tools"@,
                JsonV::Array(
                    tool_catalog_v().map_values(
                        |t: ToolSpecV| tool_definition_v(t.name, t.description, input_schema_v(t)),
                    ),
                ),
            ),
        ],
    )
}

fn param(name: &str, kind: &str, description: &str) -> (res: ParamSpec)
    ensures
        res@ == param_v(name@, kind@, description@),
{
    let res = ParamSpec {
        name: to_string(name),
        kind: to_string(kind),
        description: to_string(description),
        choices: Vec::new(),
    };
    assert(res@.choices =~= Seq::<Seq<char>>::empty());
    res
}

fn strings3(a: &str, b: &str, c: &str) -> (res: Vec<String>)
    ensures
        chars_of(res@) == seq![a@, b@, c@],
{
    let res = vec![to_string(a), to_string(b), to_string(c)];
    assert(chars_of(res@) =~= seq![a@, b@, c@]);
    res
}

fn choice_param(name: &str, description: &str, a: &str, b: &str, c: &str) -> (res: ParamSpec)
    ensures
        res@ == (ParamSpecV {
            name: name@,
            kind: "string"@,
            description: description@,
            choices: seq![a@, b@, c@],
        }),
{
    ParamSpec {
        name: to_string(name),
        kind: to_string("string"),
        description: to_string(description),
        choices: strings3(a, b, c),
    }
}

fn selector_param_specs() -> (res: Vec<ParamSpec>)
    ensures
        res@.map_values(|p: ParamSpec| p@) == selector_params(),
{
    let res = vec![
        choice_param("selector_type", "Type of selector (css, xpath, text)", "css", "xpath", "text"),
        param("selector", "string", "The selector string"),
    ];
    assert(res@.map_values(|p: ParamSpec| p@) =~= selector_params());
    res
}

fn tool(name: &str, description: &str, params: Vec<ParamSpec>, required: Vec<&str>) -> (res: ToolSpec)
    ensures
        res@ == tool_v(name@, description@, params@.map_values(|p: ParamSpec| p@), required@.map_values(|r: &str| r@)),
{
    let mut req: Vec<String> = Vec::new();
    let mut i: usize = 0;
    while i < required.len()
        invariant
            i <= required.len(),
            chars_of(req@) == required@.take(i as int).map_values(|r: &str| r@),
        decreases required.len() - i,
    {
        let ghost before = req@;
        req.push(to_string(required[i]));
        assert(chars_of(req@) =~= chars_of(before).push(required@[i as int]@));
        assert(required@.take(i + 1) =~= required@.take(i as int).push(required@[i as int]));
        assert(chars_of(req@) =~= required@.take(i + 1).map_values(|r: &str| r@));
        i = i + 1;
    }
    assert(required@.take(required@.len() as int) =~= required@);
    ToolSpec { name: to_string(name), description: to_string(description), params, required: req }
}

/// The tools the server offers, in the order they are listed.
pub fn tool_catalog() -> (res: Vec<ToolSpec>)
    ensures
        res@.map_values(|t: ToolSpec| t@) == tool_catalog_v(),
{
    let mut v: Vec<ToolSpec> = Vec::new();
    v.push(tool("navigate", "Navigate the browser to a URL", vec![param("url", "string", "The URL to navigate to")], vec!["url"]));
    v.push(tool("create_tab", "Create a new browser tab", vec![param("url", "string", "The URL to open in the new tab")], vec!["url"]));
    v.push(tool("close_tab", "Close a browser tab", vec![param("id", "number", "The tab ID to close")], vec!["id"]));
    v.push(tool("switch_tab", "Switch to a different tab", vec![param("id", "number", "The tab ID to switch to")], vec!["id"]));
    v.push(
        tool(
            "take_screenshot",
            "Capture a screenshot of the current page",
            vec![
                choice_param("format", "Image format (png, jpeg, webp)", "png", "jpeg", "webp"),
                param("quality", "number", "Image quality for JPEG (0-100)"),
            ],
            vec![],
        ),
    );
    v.push(
        tool(
            "find_element",
            "Find DOM elements using CSS selector, XPath, or text content",
            selector_param_specs(),
            vec!["selector_type", "selector"],
        ),
    );
    v.push(tool("click_element", "Click on a DOM element", selector_param_specs(), vec!["selector_type", "selector"]));
    let mut typing = selector_param_specs();
    typing.push(param("text", "string", "The text to type"));
    v.push(tool("type_text", "Type text into an input element", typing, vec!["selector_type", "selector", "text"]));
    v.push(tool("get_page_info", "Get information about the current page (title, URL, HTML)", vec![], vec![]));
    v.push(
        tool(
            "execute_javascript",
            "Execute JavaScript code in the page context",
            vec![param("script", "string", "JavaScript code to execute")],
            vec!["script"],
        ),
    );
    v.push(tool("start_network_monitoring", "Start monitoring network requests and responses", vec![], vec![]));
    v.push(tool("stop_network_monitoring", "Stop monitoring network requests", vec![], vec![]));
    v.push(tool("get_network_stats", "Get network monitoring statistics", vec![], vec![]));
    v.push(tool("export_network_har", "Export network traffic as HAR file", vec![], vec![]));
    v.push(
        tool(
            "create_visual_baseline",
            "Create a visual baseline for regression testing",
            vec![param("test_name", "string", "Name of the visual test")],
            vec!["test_name"],
        ),
    );
    v.push(
        tool(
            "run_visual_test",
            "Run a visual regression test against baseline",
            vec![
                param("test_name", "string", "Name of the visual test"),
                param("tolerance", "number", "Tolerance for differences (0.0 to 1.0, default 0.1)"),
            ],
            vec!["test_name"],
        ),
    );
    assert(v@.map_values(|t: ToolSpec| t@) =~~= tool_catalog_v());
    v
}

/// The JSON schema of one parameter.
fn param_schema(p: &ParamSpec) -> (res: Json)
    ensures
        res@ == param_schema_v(p@),
{
    let kind = Json::Str(p.kind.clone());
    let description = Json::Str(p.description.clone());
    let ghost k = kind@;
    let ghost d = description@;
    if p.choices.len() == 0 {
        Json::object2("type", kind, "description", description)
    } else {
        let choices = Json::strings(&p.choices);
        let ghost c = choices@;
        assert(crate::json::strs_view(p.choices@) =~= p@.choices.map_values(|c: Seq<char>| JsonV::Str(c)));
        let res = Json::object3("type", kind, "description", description, "enum", choices);
        assert(seq![("type"@, k), ("description"@, d)].push(("enum"@, c)) =~= seq![
            ("type"@, k),
            ("description"@, d),
            ("enum"@, c),
        ]);
        res
    }
}

/// The JSON schema of a tool's input.
fn input_schema(t: &ToolSpec) -> (res: Json)
    ensures
        res@ == input_schema_v(t@),
{
    let mut props: Vec<(String, Json)> = Vec::new();
    let mut i: usize = 0;
    while i < t.params.len()
        invariant
            i <= t.params.len(),
            crate::json::members_view(props@) == t@.params.take(i as int).map_values(
                |p: ParamSpecV| (p.name, param_schema_v(p)),
            ),
        decreases t.params.len() - i,
    {
        let ghost before = props@;
        let schema = param_schema(&t.params[i]);
        props.push((t.params[i].name.clone(), schema));
        proof {
            assert(t@.params.take(i + 1) =~= t@.params.take(i as int).push(t@.params[i as int]));
            assert(crate::json::members_view(props@) =~= crate::json::members_view(before).push(
                (t@.params[i as int].name, param_schema_v(t@.params[i as int])),
            ));
            assert(crate::json::members_view(props@) =~= t@.params.take(i + 1).map_values(
                |p: ParamSpecV| (p.name, param_schema_v(p)),
            ));
        }
        i = i + 1;
    }
    assert(t@.params.take(t@.params.len() as int) =~= t@.params);
    let properties = Json::object(props);
    let ghost pv = properties@;
    if t.required.len() == 0 {
        Json::object2("type", Json::string("object"), "properties", properties)
    } else {
        let required = Json::strings(&t.required);
        let ghost rv = required@;
        assert(crate::json::strs_view(t.required@) =~= t@.required.map_values(|r: Seq<char>| JsonV::Str(r)));
        let res = Json::object3("type", Json::string("object"), "properties", properties, "required", required);
        assert(seq![("type"@, JsonV::Str("object"@)), ("properties"@, pv)].push(("required"@, rv)) =~= seq![
            ("type"@, JsonV::Str("object"@)),
            ("properties"@, pv),
            ("required"@, rv),
        ]);
        res
    }
}

// ---------------------------------------------------------------------------
// Tool calls
// ---------------------------------------------------------------------------

/// An optional JSON document as a mathematical value.
pub open spec fn opt_json(j: Option<Json>) -> Option<JsonV> {
    match j {
        Some(v) => Some(v@),
        None => None,
    }
}

/// The string argument `key`, as `arguments[key].as_str()` reads it.
pub open spec fn arg_str(args: JsonV, key: Seq<char>) -> Option<Seq<char>> {
    args.at(key).as_str()
}

/// The names of the tools the server knows.
pub open spec fn is_known_tool(name: Seq<char>) -> bool {
    name == "navigate"@
        || name == "create_tab"@
        || name == "close_tab"@
        || name == "switch_tab"@
        || name == "take_screenshot"@
        || name == "find_element"@
        || name == "click_element"@
        || name == "type_text"@
        || name == "get_page_info"@
        || name == "execute_javascript"@
        || name == "start_network_monitoring"@
        || name == "stop_network_monitoring"@
        || name == "get_network_stats"@
        || name == "export_network_har"@
        || name == "create_visual_baseline"@
        || name == "run_visual_test"@
}

/// The first parameter that a call of tool `name` needs and `args` lacks (or
/// holds with the wrong type), in the order the tool reads them.
pub open spec fn missing_param(name: Seq<char>, args: JsonV) -> Option<Seq<char>> {
    let lacks = |key: Seq<char>| arg_str(args, key) is None;
    if name == "navigate"@ || name == "create_tab"@ {
        if lacks("url"@) {
            Some("url"@)
        } else {
            None
        }
    } else if name == "close_tab"@ || name == "switch_tab"@ {
        if args.at("id"@).as_u64() is None {
            Some("id"@)
        } else {
            None
        }
    } else if name == "take_screenshot"@ {
        None
    } else if name == "find_element"@ || name == "click_element"@ {
        if lacks("selector_type"@) {
            Some("selector_type"@)
        } else if lacks("selector"@) {
            Some("selector"@)
        } else {
            None
        }
    } else if name == "type_text"@ {
        if lacks("selector_type"@) {
            Some("selector_type"@)
        } else if lacks("selector"@) {
            Some("selector"@)
        } else if lacks("text"@) {
            Some("text"@)
        } else {
            None
        }
    } else if name == "get_page_info"@ {
        None
    } else if name == "execute_javascript"@ {
        if lacks("script"@) {
            Some("script"@)
        } else {
            None
        }
    } else if name == "start_network_monitoring"@ || name == "stop_network_monitoring"@ || name
        == "get_network_stats"@ || name == "export_network_har"@ {
        None
    } else if name == "create_visual_baseline"@ || name == "run_visual_test"@ {
        if lacks("test_name"@) {
            Some("test_name"@)
        } else {
            None
        }
    } else {
        None
    }
}

/// What a tool call with `params` comes to before anything is sent: the
/// tool's name, or the error code and message it is refused with.
pub open spec fn tool_call_check(params: Option<JsonV>) -> Result<Seq<char>, (i32, Seq<char>)> {
    match params {
        None => Err((INVALID_PARAMS, "Invalid params: missing params"@)),
        Some(p) => match p.at("name"@).as_str() {
            None => Err((INVALID_PARAMS, "Invalid params: missing tool name"@)),
            Some(name) => if !is_known_tool(name) {
                Err((METHOD_NOT_FOUND, "Unknown tool: "@ + name))
            } else {
                match missing_param(name, p.at("arguments"@)) {
                    Some(k) => Err((INVALID_PARAMS, "Missing required parameter: "@ + k)),
                    None => Ok(name),
                }
            },
        },
    }
}

/// The selector object an element tool sends.
pub open spec fn selector_v(kind: Seq<char>, value: Seq<char>) -> JsonV {
    JsonV::Object(seq![("type"@, JsonV::Str(kind)), ("value"@, JsonV::Str(value))])
}

/// The tolerance a visual test is run with: the number given, else 0.1.
pub open spec fn tolerance_of(args: JsonV) -> JsonNumber {
    match args.at("tolerance"@) {
        JsonV::Number(n) => n,
        _ => JsonNumber::Float(Real64 { bits: DEFAULT_TOLERANCE_BITS }),
    }
}

/// `cmd` is the command that tool `name` sends for `args`.
pub open spec fn is_tool_command(name: Seq<char>, args: JsonV, cmd: BrowserCommand) -> bool {
    if name == "navigate"@ {
        cmd matches BrowserCommand::Navigate { url } && arg_str(args, "url"@) == Some(url@)
    } else if name == "create_tab"@ {
        cmd matches BrowserCommand::CreateTab { url } && arg_str(args, "url"@) == Some(url@)
    } else if name == "close_tab"@ {
        cmd matches BrowserCommand::CloseTab { id } && id == (args.at("id"@).as_u64()->0 as usize)
    } else if name == "switch_tab"@ {
        cmd matches BrowserCommand::SwitchTab { id } && id == (args.at("id"@).as_u64()->0 as usize)
    } else if name == "take_screenshot"@ {
        cmd matches BrowserCommand::TakeScreenshot { options } && options matches Some(o) && o@ == args
    } else if name == "find_element"@ {
        cmd matches BrowserCommand::FindElement { selector } && selector@ == selector_v(
            arg_str(args, "selector_type"@)->0,
            arg_str(args, "selector"@)->0,
        )
    } else if name == "click_element"@ {
        &&& cmd matches BrowserCommand::InteractElement { selector, interaction }
        &&& selector@ == selector_v(arg_str(args, "selector_type"@)->0, arg_str(args, "selector"@)->0)
        &&& interaction@ == JsonV::Object(seq![("type"@, JsonV::Str("click"@))])
    } else if name == "type_text"@ {
        &&& cmd matches BrowserCommand::InteractElement { selector, interaction }
        &&& selector@ == selector_v(arg_str(args, "selector_type"@)->0, arg_str(args, "selector"@)->0)
        &&& interaction@ == JsonV::Object(
            seq![("type"@, JsonV::Str("type"@)), ("text"@, JsonV::Str(arg_str(args, "text"@)->0))],
        )
    } else if name == "get_page_info"@ {
        cmd is GetPageInfo
    } else if name == "execute_javascript"@ {
        cmd matches BrowserCommand::ExecuteJavaScript { script } && arg_str(args, "script"@) == Some(script@)
    } else if name == "start_network_monitoring"@ {
        cmd is StartNetworkMonitoring
    } else if name == "stop_network_monitoring"@ {
        cmd is StopNetworkMonitoring
    } else if name == "get_network_stats"@ {
        cmd is GetNetworkStats
    } else if name == "export_network_har"@ {
        cmd is ExportNetworkHAR
    } else if name == "create_visual_baseline"@ {
        cmd matches BrowserCommand::CreateBaseline { test_name, options } && arg_str(args, "test_name"@) == Some(
            test_name@,
        ) && options is None
    } else {
        &&& cmd matches BrowserCommand::RunVisualTest { test_name, tolerance, options }
        &&& arg_str(args, "test_name"@) == Some(test_name@)
        &&& tolerance == tolerance_of(args)
        &&& options is None
    }
}

/// The answer to a tool call whose command was sent.
pub open spec fn tool_sent_v(name: Seq<char>) -> JsonV {
    JsonV::Object(
        seq![
            (
                "content"@,
                JsonV::Array(
                    seq![
                        JsonV::Object(
                            seq![
                                ("type"@, JsonV::Str("text"@)),
                                ("text"@, JsonV::Str("Command '"@ + name + "' sent successfully"@)),
                            ],
                        ),
                    ],
                ),
            ),
        ],
    )
}

/// `res` is a possible answer to a tool call with `params`: the refusal that
/// the call comes to, or, for a command that was made, the acknowledgement or
/// the failure to send it.
pub open spec fn tool_call_answer_ok(params: Option<JsonV>, res: Result<Json, JsonRpcError>) -> bool {
    match tool_call_check(params) {
        Err((code, message)) => res matches Err(e) && is_rpc_error(e, code, message),
        Ok(name) => (res matches Ok(j) && j@ == tool_sent_v(name)) || (res matches Err(e) && is_rpc_error(
            e,
            INTERNAL_ERROR,
            "Failed to send command: "@ + "channel closed"@,
        )),
    }
}

/// What a tool call with `params` hands to the browser: nothing for a refused
/// call; for an accepted one, the tool's command when the call was answered
/// as sent, and nothing when sending failed.
pub open spec fn tool_call_delivered(
    params: Option<JsonV>,
    answered_ok: bool,
    before: Seq<BrowserCommand>,
    after: Seq<BrowserCommand>,
) -> bool {
    match tool_call_check(params) {
        Err(_) => after == before,
        Ok(name) => if answered_ok {
            &&& after.len() == before.len() + 1
            &&& after.drop_last() == before
            &&& is_tool_command(name, params->0.at("arguments"@), after.last())
        } else {
            after == before
        },
    }
}

/// The selector object an element tool sends.
fn selector_json(kind: &str, value: &str) -> (res: Json)
    ensures
        res@ == selector_v(kind@, value@),
{
    Json::object2("type", Json::string(kind), "value", Json::string(value))
}

/// Whether `name` is the name of a tool in the catalog.
fn known_tool(name: &str) -> (res: bool)
    ensures
        res == is_known_tool(name@),
{
    equals(name, "navigate")
        || equals(name, "create_tab")
        || equals(name, "close_tab")
        || equals(name, "switch_tab")
        || equals(name, "take_screenshot")
        || equals(name, "find_element")
        || equals(name, "click_element")
        || equals(name, "type_text")
        || equals(name, "get_page_info")
        || equals(name, "execute_javascript")
        || equals(name, "start_network_monitoring")
        || equals(name, "stop_network_monitoring")
        || equals(name, "get_network_stats")
        || equals(name, "export_network_har")
        || equals(name, "create_visual_baseline")
        || equals(name, "run_visual_test")
}

fn missing(name: &str) -> (res: JsonRpcError)
    ensures
        is_rpc_error(res, INVALID_PARAMS, "Missing required parameter: "@ + name@),
{
    rpc_error(INVALID_PARAMS, concat("Missing required parameter: ", name))
}

/// The string argument `key` of a tool call.
fn required_str(args: &Json, key: &str) -> (res: Result<String, JsonRpcError>)
    ensures
        match arg_str(args@, key@) {
            Some(s) => res matches Ok(v) && v@ == s,
            None => res matches Err(e) && is_rpc_error(e, INVALID_PARAMS, "Missing required parameter: "@ + key@),
        },
{
    match args.str_at(key) {
        Some(s) => Ok(to_string(s)),
        None => Err(missing(key)),
    }
}

/// The selector of an element tool call.
fn required_selector(args: &Json) -> (res: Result<Json, JsonRpcError>)
    ensures
        arg_str(args@, "selector_type"@) is None ==> (res matches Err(e) && is_rpc_error(
            e,
            INVALID_PARAMS,
            "Missing required parameter: "@ + "selector_type"@,
        )),
        arg_str(args@, "selector_type"@) is Some && arg_str(args@, "selector"@) is None ==> (res matches Err(e)
            && is_rpc_error(e, INVALID_PARAMS, "Missing required parameter: "@ + "selector"@)),
        arg_str(args@, "selector_type"@) is Some && arg_str(args@, "selector"@) is Some ==> (res matches Ok(j)
            && j@ == selector_v(arg_str(args@, "selector_type"@)->0, arg_str(args@, "selector"@)->0)),
{
    let kind = match required_str(args, "selector_type") {
        Ok(k) => k,
        Err(e) => {
            return Err(e);
        },
    };
    let value = match required_str(args, "selector") {
        Ok(v) => v,
        Err(e) => {
            return Err(e);
        },
    };
    Ok(selector_json(kind.as_str(), value.as_str()))
}

/// The command a tool call asks for, with the tool's name; or the error that
/// refuses the call.
pub fn tool_command(params: Option<Json>) -> (res: Result<(String, BrowserCommand), JsonRpcError>)
    ensures
        match tool_call_check(opt_json(params)) {
            Err((code, message)) => res matches Err(e) && is_rpc_error(e, code, message),
            Ok(name) => res matches Ok((n, cmd)) && n@ == name && is_tool_command(
                name,
                opt_json(params)->0.at("arguments"@),
                cmd,
            ),
        },
{
    let p = match params {
        Some(p) => p,
        None => {
            return Err(rpc_error(INVALID_PARAMS, to_string("Invalid params: missing params")));
        },
    };
    let name = match p.str_at("name") {
        Some(n) => to_string(n),
        None => {
            return Err(rpc_error(INVALID_PARAMS, to_string("Invalid params: missing tool name")));
        },
    };
    if !known_tool(name.as_str()) {
        return Err(rpc_error(METHOD_NOT_FOUND, concat("Unknown tool: ", name.as_str())));
    }
    let args = match p.get("arguments") {
        Some(a) => a.clone(),
        None => Json::Null,
    };
    let ghost a = args@;
    assert(a == p@.at("arguments"@));
    let n = name.as_str();
    let command = if equals(n, "navigate") {
        match required_str(&args, "url") {
            Ok(url) => BrowserCommand::Navigate { url },
            Err(e) => {
                return Err(e);
            },
        }
    } else if equals(n, "create_tab") {
        match required_str(&args, "url") {
            Ok(url) => BrowserCommand::CreateTab { url },
            Err(e) => {
                return Err(e);
            },
        }
    } else if equals(n, "close_tab") {
        match args.u64_at("id") {
            Some(id) => BrowserCommand::CloseTab { id: id as usize },
            None => {
                return Err(missing("id"));
            },
        }
    } else if equals(n, "switch_tab") {
        match args.u64_at("id") {
            Some(id) => BrowserCommand::SwitchTab { id: id as usize },
            None => {
                return Err(missing("id"));
            },
        }
    } else if equals(n, "take_screenshot") {
        BrowserCommand::TakeScreenshot { options: Some(args.clone()) }
    } else if equals(n, "find_element") {
        match required_selector(&args) {
            Ok(selector) => BrowserCommand::FindElement { selector },
            Err(e) => {
                return Err(e);
            },
        }
    } else if equals(n, "click_element") {
        match required_selector(&args) {
            Ok(selector) => BrowserCommand::InteractElement {
                selector,
                interaction: Json::object1("type", Json::string("click")),
            },
            Err(e) => {
                return Err(e);
            },
        }
    } else if equals(n, "type_text") {
        let selector = match required_selector(&args) {
            Ok(s) => s,
            Err(e) => {
                return Err(e);
            },
        };
        let text = match required_str(&args, "text") {
            Ok(t) => t,
            Err(e) => {
                return Err(e);
            },
        };
        BrowserCommand::InteractElement {
            selector,
            interaction: Json::object2("type", Json::string("type"), "text", Json::Str(text)),
        }
    } else if equals(n, "get_page_info") {
        BrowserCommand::GetPageInfo
    } else if equals(n, "execute_javascript") {
        match required_str(&args, "script") {
            Ok(script) => BrowserCommand::ExecuteJavaScript { script },
            Err(e) => {
                return Err(e);
            },
        }
    } else if equals(n, "start_network_monitoring") {
        BrowserCommand::StartNetworkMonitoring
    } else if equals(n, "stop_network_monitoring") {
        BrowserCommand::StopNetworkMonitoring
    } else if equals(n, "get_network_stats") {
        BrowserCommand::GetNetworkStats
    } else if equals(n, "export_network_har") {
        BrowserCommand::ExportNetworkHAR
    } else if equals(n, "create_visual_baseline") {
        match required_str(&args, "test_name") {
            Ok(test_name) => BrowserCommand::CreateBaseline { test_name, options: None },
            Err(e) => {
                return Err(e);
            },
        }
    } else {
        let test_name = match required_str(&args, "test_name") {
            Ok(t) => t,
            Err(e) => {
                return Err(e);
            },
        };
        let tolerance = match args.get("tolerance") {
            Some(Json::Number(t)) => *t,
            _ => JsonNumber::Float(Real64 { bits: DEFAULT_TOLERANCE_BITS }),
        };
        BrowserCommand::RunVisualTest { test_name, tolerance, options: None }
    };
    Ok((name, command))
}

/// The acknowledgement of a sent command.
fn tool_sent(name: &str) -> (res: Json)
    ensures
        res@ == tool_sent_v(name@),
{
    let text = concat(concat("Command '", name).as_str(), "' sent successfully");
    let item = Json::object2("type", Json::string("text"), "text", Json::Str(text));
    Json::object1("content", Json::array1(item))
}

// ---------------------------------------------------------------------------
// The server
// ---------------------------------------------------------------------------

/// The answer to `initialize`.
pub open spec fn initialize_v() -> JsonV {
    let no_change = JsonV::Object(seq![("listChanged"@, JsonV::Bool(false))]);
    JsonV::Object(
        seq![
            ("protocolVersion"@, JsonV::Str(MCP_VERSION@)),
            (
                "capabilities"@,
                JsonV::Object(
                    seq![
                        ("tools"@, no_change),
                        (
                            "resources"@,
                            JsonV::Object(
                                seq![("subscribe"@, JsonV::Bool(false)), ("listChanged"@, JsonV::Bool(false))],
                            ),
                        ),
                        ("prompts"@, no_change),
                    ],
                ),
            ),
            (
                "serverInfo"@,
                JsonV::Object(
                    seq![("name"@, JsonV::Str("tinker-browser-mcp"@)), ("version"@, JsonV::Str(SERVER_VERSION@))],
                ),
            ),
        ],
    )
}

/// An object whose only member `key` is an empty array.
pub open spec fn empty_list_v(key: Seq<char>) -> JsonV {
    JsonV::Object(seq![(key, JsonV::Array(Seq::empty()))])
}

/// What a request for `method` with `params` may be answered with: its result,
/// or its error.
pub open spec fn answer_ok(method: Seq<char>, params: Option<JsonV>, answer: Result<Json, JsonRpcError>) -> bool {
    if method == "initialize"@ {
        answer matches Ok(j) && j@ == initialize_v()
    } else if method == "tools/list"@ {
        answer matches Ok(j) && j@ == tools_list_v()
    } else if method == "tools/call"@ {
        tool_call_answer_ok(params, answer)
    } else if method == "resources/list"@ {
        answer matches Ok(j) && j@ == empty_list_v("resources"@)
    } else if method == "prompts/list"@ {
        answer matches Ok(j) && j@ == empty_list_v("prompts"@)
    } else {
        answer matches Err(e) && is_rpc_error(e, METHOD_NOT_FOUND, "Method not found: "@ + method)
    }
}

/// The MCP server: it answers requests and hands the commands of tool calls
/// to the browser.
pub struct McpServer {
    command_tx: CommandSender,
    event_rx: tokio::sync::broadcast::Receiver<BrowserEvent>,
}

impl McpServer {
    /// The commands the server handed to the browser, oldest first.
    pub closed spec fn delivered(&self) -> Seq<BrowserCommand> {
        self.command_tx.delivered()
    }

    /// A server that sends commands on `command_tx` and listens to browser
    /// events on `event_rx`.
    pub fn new(
        command_tx: tokio::sync::broadcast::Sender<BrowserCommand>,
        event_rx: tokio::sync::broadcast::Receiver<BrowserEvent>,
    ) -> (res: McpServer)
        ensures
            res.delivered() == Seq::<BrowserCommand>::empty(),
    {
        McpServer { command_tx: CommandSender::new(command_tx), event_rx }
    }

    /// Answers a request: `jsonrpc` is `2.0`, the id is the request's, and a
    /// result or an error answers the method.
    pub fn handle_request(&mut self, request: JsonRpcRequest) -> (res: JsonRpcResponse)
        ensures
            res.jsonrpc@ == "2.0"@,
            res.id == request.id,
            answer_ok(
                request.method@,
                opt_json(request.params),
                match res.error {
                    Some(e) => Err(e),
                    None => Ok(res.result->0),
                },
            ),
            res.result is Some <==> res.error is None,
            if request.method@ == "tools/call"@ {
                tool_call_delivered(opt_json(request.params), res.error is None, old(self).delivered(), final(self).delivered())
            } else {
                final(self).delivered() == old(self).delivered()
            },
    {
        let JsonRpcRequest { jsonrpc: _, id, method, params } = request;
        let m = method.as_str();
        proof {
            reveal_strlit("initialize");
            reveal_strlit("tools/list");
            reveal_strlit("tools/call");
            assert("initialize"@[0] != "tools/call"@[0]);
            assert("tools/list"@[6] != "tools/call"@[6]);
        }
        let answer = if equals(m, "initialize") {
            self.handle_initialize(params)
        } else if equals(m, "tools/list") {
            self.handle_tools_list()
        } else if equals(m, "tools/call") {
            self.handle_tool_call(params)
        } else if equals(m, "resources/list") {
            self.handle_resources_list()
        } else if equals(m, "prompts/list") {
            self.handle_prompts_list()
        } else {
            Err(rpc_error(METHOD_NOT_FOUND, concat("Method not found: ", m)))
        };
        match answer {
            Ok(result) => JsonRpcResponse { jsonrpc: to_string("2.0"), id, result: Some(result), error: None },
            Err(error) => JsonRpcResponse { jsonrpc: to_string("2.0"), id, result: None, error: Some(error) },
        }
    }

    /// Answers `initialize` with the protocol version, the capabilities and
    /// the server's name and version.
    pub fn handle_initialize(&self, params: Option<Json>) -> (res: Result<Json, JsonRpcError>)
        ensures
            res matches Ok(j) && j@ == initialize_v(),
    {
        let tools = Json::object1("listChanged", Json::Bool(false));
        let resources = Json::object2("subscribe", Json::Bool(false), "listChanged", Json::Bool(false));
        let prompts = Json::object1("listChanged", Json::Bool(false));
        let capabilities = Json::object3("tools", tools, "resources", resources, "prompts", prompts);
        let info = Json::object2("name", Json::string("tinker-browser-mcp"), "version", Json::string(SERVER_VERSION));
        Ok(
            Json::object3(
                "protocolVersion",
                Json::string(MCP_VERSION),
                "capabilities",
                capabilities,
                "serverInfo",
                info,
            ),
        )
    }

    /// Answers `tools/list` with the definition of every tool of the catalog.
    pub fn handle_tools_list(&self) -> (res: Result<Json, JsonRpcError>)
        ensures
            res matches Ok(j) && j@ == tools_list_v(),
    {
        let catalog = tool_catalog();
        let ghost cv = catalog@.map_values(|t: ToolSpec| t@);
        let mut defs: Vec<Json> = Vec::new();
        let mut i: usize = 0;
        while i < catalog.len()
            invariant
                i <= catalog.len(),
                cv == catalog@.map_values(|t: ToolSpec| t@),
                cv == tool_catalog_v(),
                crate::json::items_view(defs@) == cv.take(i as int).map_values(
                    |t: ToolSpecV| tool_definition_v(t.name, t.description, input_schema_v(t)),
                ),
            decreases catalog.len() - i,
        {
            let ghost before = defs@;
            let t = &catalog[i];
            let def = self.tool_definition(t.name.as_str(), t.description.as_str(), input_schema(t));
            defs.push(def);
            proof {
                assert(cv[i as int] == catalog@[i as int]@);
                assert(cv.take(i + 1) =~= cv.take(i as int).push(cv[i as int]));
                assert(crate::json::items_view(defs@) =~= crate::json::items_view(before).push(def@));
                assert(crate::json::items_view(defs@) =~= cv.take(i + 1).map_values(
                    |t: ToolSpecV| tool_definition_v(t.name, t.description, input_schema_v(t)),
                ));
            }
            i = i + 1;
        }
        assert(cv.take(cv.len() as int) =~= cv);
        Ok(Json::object1("tools", Json::array(defs)))
    }

    /// Answers `tools/call`: the tool's command is sent to the browser and the
    /// call acknowledged; a call that names no known tool or lacks a parameter
    /// is refused.
    pub fn handle_tool_call(&mut self, params: Option<Json>) -> (res: Result<Json, JsonRpcError>)
        ensures
            tool_call_answer_ok(opt_json(params), res),
            tool_call_delivered(opt_json(params), res is Ok, old(self).delivered(), final(self).delivered()),
    {
        let ghost before = self.delivered();
        match tool_command(params) {
            Err(e) => Err(e),
            Ok((name, command)) => {
                let sent = send_command(&mut self.command_tx, command);
                proof {
                    if sent is Ok {
                        assert(self.delivered().drop_last() =~= before);
                    }
                }
                match sent {
                    Ok(()) => Ok(tool_sent(name.as_str())),
                    Err(e) => Err(rpc_error(INTERNAL_ERROR, concat("Failed to send command: ", e.as_str()))),
                }
            },
        }
    }

    /// Answers `resources/list`: there are none.
    pub fn handle_resources_list(&self) -> (res: Result<Json, JsonRpcError>)
        ensures
            res matches Ok(j) && j@ == empty_list_v("resources"@),
    {
        let res = Json::object1("resources", Json::array(Vec::new()));
        assert(crate::json::items_view(Seq::<Json>::empty()) =~= Seq::<JsonV>::empty());
        Ok(res)
    }

    /// Answers `prompts/list`: there are none.
    pub fn handle_prompts_list(&self) -> (res: Result<Json, JsonRpcError>)
        ensures
            res matches Ok(j) && j@ == empty_list_v("prompts"@),
    {
        let res = Json::object1("prompts", Json::array(Vec::new()));
        assert(crate::json::items_view(Seq::<Json>::empty()) =~= Seq::<JsonV>::empty());
        Ok(res)
    }

    /// The definition of a tool: its name, description and input schema.
    pub fn tool_definition(&self, name: &str, description: &str, input_schema: Json) -> (res: Json)
        ensures
            res@ == tool_definition_v(name@, description@, input_schema@),
    {
        Json::object3("name", Json::string(name), "description", Json::string(description), "inputSchema", input_schema)
    }
}

/// The answer to a line that is no JSON-RPC request: a parse error without id.
pub fn parse_error_response(detail: &str) -> (res: JsonRpcResponse)
    ensures
        res.jsonrpc@ == "2.0"@,
        res.id is None,
        res.result is None,
        res.error matches Some(e) && is_rpc_error(e, PARSE_ERROR, "Parse error: "@ + detail@),
{
    JsonRpcResponse {
        jsonrpc: to_string("2.0"),
        id: None,
        result: None,
        error: Some(rpc_error(PARSE_ERROR, concat("Parse error: ", detail))),
    }
}

// ---------------------------------------------------------------------------
// Laws
// ---------------------------------------------------------------------------

/// A call supplies parameter `p`: as a string, or as a non-negative integer
/// for a number.
pub open spec fn supplies(args: JsonV, p: ParamSpecV) -> bool {
    if p.kind == "number"@ {
        args.at(p.name).as_u64() is Some
    } else {
        arg_str(args, p.name) is Some
    }
}

/// The parameters of `t` that it requires.
pub open spec fn required_params_supplied(t: ToolSpecV, args: JsonV) -> bool {
    forall|k: int| 0 <= k < t.params.len() && t.required.contains(#[trigger] t.params[k].name) ==> supplies(args, t.params[k])
}

proof fn lemma_tool_names_distinct()
    ensures
        "navigate"@ != "create_tab"@,
        "navigate"@ != "close_tab"@,
        "navigate"@ != "switch_tab"@,
        "navigate"@ != "take_screenshot"@,
        "navigate"@ != "find_element"@,
        "navigate"@ != "click_element"@,
        "navigate"@ != "type_text"@,
        "navigate"@ != "get_page_info"@,
        "navigate"@ != "execute_javascript"@,
        "navigate"@ != "start_network_monitoring"@,
        "navigate"@ != "stop_network_monitoring"@,
        "navigate"@ != "get_network_stats"@,
        "navigate"@ != "export_network_har"@,
        "navigate"@ != "create_visual_baseline"@,
        "navigate"@ != "run_visual_test"@,
        "create_tab"@ != "close_tab"@,
        "create_tab"@ != "switch_tab"@,
        "create_tab"@ != "take_screenshot"@,
        "create_tab"@ != "find_element"@,
        "create_tab"@ != "click_element"@,
        "create_tab"@ != "type_text"@,
        "create_tab"@ != "get_page_info"@,
        "create_tab"@ != "execute_javascript"@,
        "create_tab"@ != "start_network_monitoring"@,
        "create_tab"@ != "stop_network_monitoring"@,
        "create_tab"@ != "get_network_stats"@,
        "create_tab"@ != "export_network_har"@,
        "create_tab"@ != "create_visual_baseline"@,
        "create_tab"@ != "run_visual_test"@,
        "close_tab"@ != "switch_tab"@,
        "close_tab"@ != "take_screenshot"@,
        "close_tab"@ != "find_element"@,
        "close_tab"@ != "click_element"@,
        "close_tab"@ != "type_text"@,
        "close_tab"@ != "get_page_info"@,
        "close_tab"@ != "execute_javascript"@,
        "close_tab"@ != "start_network_monitoring"@,
        "close_tab"@ != "stop_network_monitoring"@,
        "close_tab"@ != "get_network_stats"@,
        "close_tab"@ != "export_network_har"@,
        "close_tab"@ != "create_visual_baseline"@,
        "close_tab"@ != "run_visual_test"@,
        "switch_tab"@ != "take_screenshot"@,
        "switch_tab"@ != "find_element"@,
        "switch_tab"@ != "click_element"@,
        "switch_tab"@ != "type_text"@,
        "switch_tab"@ != "get_page_info"@,
        "switch_tab"@ != "execute_javascript"@,
        "switch_tab"@ != "start_network_monitoring"@,
        "switch_tab"@ != "stop_network_monitoring"@,
        "switch_tab"@ != "get_network_stats"@,
        "switch_tab"@ != "export_network_har"@,
        "switch_tab"@ != "create_visual_baseline"@,
        "switch_tab"@ != "run_visual_test"@,
        "take_screenshot"@ != "find_element"@,
        "take_screenshot"@ != "click_element"@,
        "take_screenshot"@ != "type_text"@,
        "take_screenshot"@ != "get_page_info"@,
        "take_screenshot"@ != "execute_javascript"@,
        "take_screenshot"@ != "start_network_monitoring"@,
        "take_screenshot"@ != "stop_network_monitoring"@,
        "take_screenshot"@ != "get_network_stats"@,
        "take_screenshot"@ != "export_network_har"@,
        "take_screenshot"@ != "create_visual_baseline"@,
        "take_screenshot"@ != "run_visual_test"@,
        "find_element"@ != "click_element"@,
        "find_element"@ != "type_text"@,
        "find_element"@ != "get_page_info"@,
        "find_element"@ != "execute_javascript"@,
        "find_element"@ != "start_network_monitoring"@,
        "find_element"@ != "stop_network_monitoring"@,
        "find_element"@ != "get_network_stats"@,
        "find_element"@ != "export_network_har"@,
        "find_element"@ != "create_visual_baseline"@,
        "find_element"@ != "run_visual_test"@,
        "click_element"@ != "type_text"@,
        "click_element"@ != "get_page_info"@,
        "click_element"@ != "execute_javascript"@,
        "click_element"@ != "start_network_monitoring"@,
        "click_element"@ != "stop_network_monitoring"@,
        "click_element"@ != "get_network_stats"@,
        "click_element"@ != "export_network_har"@,
        "click_element"@ != "create_visual_baseline"@,
        "click_element"@ != "run_visual_test"@,
        "type_text"@ != "get_page_info"@,
        "type_text"@ != "execute_javascript"@,
        "type_text"@ != "start_network_monitoring"@,
        "type_text"@ != "stop_network_monitoring"@,
        "type_text"@ != "get_network_stats"@,
        "type_text"@ != "export_network_har"@,
        "type_text"@ != "create_visual_baseline"@,
        "type_text"@ != "run_visual_test"@,
        "get_page_info"@ != "execute_javascript"@,
        "get_page_info"@ != "start_network_monitoring"@,
        "get_page_info"@ != "stop_network_monitoring"@,
        "get_page_info"@ != "get_network_stats"@,
        "get_page_info"@ != "export_network_har"@,
        "get_page_info"@ != "create_visual_baseline"@,
        "get_page_info"@ != "run_visual_test"@,
        "execute_javascript"@ != "start_network_monitoring"@,
        "execute_javascript"@ != "stop_network_monitoring"@,
        "execute_javascript"@ != "get_network_stats"@,
        "execute_javascript"@ != "export_network_har"@,
        "execute_javascript"@ != "create_visual_baseline"@,
        "execute_javascript"@ != "run_visual_test"@,
        "start_network_monitoring"@ != "stop_network_monitoring"@,
        "start_network_monitoring"@ != "get_network_stats"@,
        "start_network_monitoring"@ != "export_network_har"@,
        "start_network_monitoring"@ != "create_visual_baseline"@,
        "start_network_monitoring"@ != "run_visual_test"@,
        "stop_network_monitoring"@ != "get_network_stats"@,
        "stop_network_monitoring"@ != "export_network_har"@,
        "stop_network_monitoring"@ != "create_visual_baseline"@,
        "stop_network_monitoring"@ != "run_visual_test"@,
        "get_network_stats"@ != "export_network_har"@,
        "get_network_stats"@ != "create_visual_baseline"@,
        "get_network_stats"@ != "run_visual_test"@,
        "export_network_har"@ != "create_visual_baseline"@,
        "export_network_har"@ != "run_visual_test"@,
        "create_visual_baseline"@ != "run_visual_test"@,
{
    reveal_strlit("navigate");
    reveal_strlit("create_tab");
    reveal_strlit("close_tab");
    reveal_strlit("switch_tab");
    reveal_strlit("take_screenshot");
    reveal_strlit("find_element");
    reveal_strlit("click_element");
    reveal_strlit("type_text");
    reveal_strlit("get_page_info");
    reveal_strlit("execute_javascript");
    reveal_strlit("start_network_monitoring");
    reveal_strlit("stop_network_monitoring");
    reveal_strlit("get_network_stats");
    reveal_strlit("export_network_har");
    reveal_strlit("create_visual_baseline");
    reveal_strlit("run_visual_test");
    assert("navigate"@[0] != "create_tab"@[0] || "navigate"@.len() != "create_tab"@.len() || "navigate"@[1] != "create_tab"@[1] || "navigate"@[2] != "create_tab"@[2]);
    assert("navigate"@[0] != "close_tab"@[0] || "navigate"@.len() != "close_tab"@.len() || "navigate"@[1] != "close_tab"@[1] || "navigate"@[2] != "close_tab"@[2]);
    assert("navigate"@[0] != "switch_tab"@[0] || "navigate"@.len() != "switch_tab"@.len() || "navigate"@[1] != "switch_tab"@[1] || "navigate"@[2] != "switch_tab"@[2]);
    assert("navigate"@[0] != "take_screenshot"@[0] || "navigate"@.len() != "take_screenshot"@.len() || "navigate"@[1] != "take_screenshot"@[1] || "navigate"@[2] != "take_screenshot"@[2]);
    assert("navigate"@[0] != "find_element"@[0] || "navigate"@.len() != "find_element"@.len() || "navigate"@[1] != "find_element"@[1] || "navigate"@[2] != "find_element"@[2]);
    assert("navigate"@[0] != "click_element"@[0] || "navigate"@.len() != "click_element"@.len() || "navigate"@[1] != "click_element"@[1] || "navigate"@[2] != "click_element"@[2]);
    assert("navigate"@[0] != "type_text"@[0] || "navigate"@.len() != "type_text"@.len() || "navigate"@[1] != "type_text"@[1] || "navigate"@[2] != "type_text"@[2]);
    assert("navigate"@[0] != "get_page_info"@[0] || "navigate"@.len() != "get_page_info"@.len() || "navigate"@[1] != "get_page_info"@[1] || "navigate"@[2] != "get_page_info"@[2]);
    assert("navigate"@[0] != "execute_javascript"@[0] || "navigate"@.len() != "execute_javascript"@.len() || "navigate"@[1] != "execute_javascript"@[1] || "navigate"@[2] != "execute_javascript"@[2]);
    assert("navigate"@[0] != "start_network_monitoring"@[0] || "navigate"@.len() != "start_network_monitoring"@.len() || "navigate"@[1] != "start_network_monitoring"@[1] || "navigate"@[2] != "start_network_monitoring"@[2]);
    assert("navigate"@[0] != "stop_network_monitoring"@[0] || "navigate"@.len() != "stop_network_monitoring"@.len() || "navigate"@[1] != "stop_network_monitoring"@[1] || "navigate"@[2] != "stop_network_monitoring"@[2]);
    assert("navigate"@[0] != "get_network_stats"@[0] || "navigate"@.len() != "get_network_stats"@.len() || "navigate"@[1] != "get_network_stats"@[1] || "navigate"@[2] != "get_network_stats"@[2]);
    assert("navigate"@[0] != "export_network_har"@[0] || "navigate"@.len() != "export_network_har"@.len() || "navigate"@[1] != "export_network_har"@[1] || "navigate"@[2] != "export_network_har"@[2]);
    assert("navigate"@[0] != "create_visual_baseline"@[0] || "navigate"@.len() != "create_visual_baseline"@.len() || "navigate"@[1] != "create_visual_baseline"@[1] || "navigate"@[2] != "create_visual_baseline"@[2]);
    assert("navigate"@[0] != "run_visual_test"@[0] || "navigate"@.len() != "run_visual_test"@.len() || "navigate"@[1] != "run_visual_test"@[1] || "navigate"@[2] != "run_visual_test"@[2]);
    assert("create_tab"@[0] != "close_tab"@[0] || "create_tab"@.len() != "close_tab"@.len() || "create_tab"@[1] != "close_tab"@[1] || "create_tab"@[2] != "close_tab"@[2]);
    assert("create_tab"@[0] != "switch_tab"@[0] || "create_tab"@.len() != "switch_tab"@.len() || "create_tab"@[1] != "switch_tab"@[1] || "create_tab"@[2] != "switch_tab"@[2]);
    assert("create_tab"@[0] != "take_screenshot"@[0] || "create_tab"@.len() != "take_screenshot"@.len() || "create_tab"@[1] != "take_screenshot"@[1] || "create_tab"@[2] != "take_screenshot"@[2]);
    assert("create_tab"@[0] != "find_element"@[0] || "create_tab"@.len() != "find_element"@.len() || "create_tab"@[1] != "find_element"@[1] || "create_tab"@[2] != "find_element"@[2]);
    assert("create_tab"@[0] != "click_element"@[0] || "create_tab"@.len() != "click_element"@.len() || "create_tab"@[1] != "click_element"@[1] || "create_tab"@[2] != "click_element"@[2]);
    assert("create_tab"@[0] != "type_text"@[0] || "create_tab"@.len() != "type_text"@.len() || "create_tab"@[1] != "type_text"@[1] || "create_tab"@[2] != "type_text"@[2]);
    assert("create_tab"@[0] != "get_page_info"@[0] || "create_tab"@.len() != "get_page_info"@.len() || "create_tab"@[1] != "get_page_info"@[1] || "create_tab"@[2] != "get_page_info"@[2]);
    assert("create_tab"@[0] != "execute_javascript"@[0] || "create_tab"@.len() != "execute_javascript"@.len() || "create_tab"@[1] != "execute_javascript"@[1] || "create_tab"@[2] != "execute_javascript"@[2]);
    assert("create_tab"@[0] != "start_network_monitoring"@[0] || "create_tab"@.len() != "start_network_monitoring"@.len() || "create_tab"@[1] != "start_network_monitoring"@[1] || "create_tab"@[2] != "start_network_monitoring"@[2]);
    assert("create_tab"@[0] != "stop_network_monitoring"@[0] || "create_tab"@.len() != "stop_network_monitoring"@.len() || "create_tab"@[1] != "stop_network_monitoring"@[1] || "create_tab"@[2] != "stop_network_monitoring"@[2]);
    assert("create_tab"@[0] != "get_network_stats"@[0] || "create_tab"@.len() != "get_network_stats"@.len() || "create_tab"@[1] != "get_network_stats"@[1] || "create_tab"@[2] != "get_network_stats"@[2]);
    assert("create_tab"@[0] != "export_network_har"@[0] || "create_tab"@.len() != "export_network_har"@.len() || "create_tab"@[1] != "export_network_har"@[1] || "create_tab"@[2] != "export_network_har"@[2]);
    assert("create_tab"@[0] != "create_visual_baseline"@[0] || "create_tab"@.len() != "create_visual_baseline"@.len() || "create_tab"@[1] != "create_visual_baseline"@[1] || "create_tab"@[2] != "create_visual_baseline"@[2]);
    assert("create_tab"@[0] != "run_visual_test"@[0] || "create_tab"@.len() != "run_visual_test"@.len() || "create_tab"@[1] != "run_visual_test"@[1] || "create_tab"@[2] != "run_visual_test"@[2]);
    assert("close_tab"@[0] != "switch_tab"@[0] || "close_tab"@.len() != "switch_tab"@.len() || "close_tab"@[1] != "switch_tab"@[1] || "close_tab"@[2] != "switch_tab"@[2]);
    assert("close_tab"@[0] != "take_screenshot"@[0] || "close_tab"@.len() != "take_screenshot"@.len() || "close_tab"@[1] != "take_screenshot"@[1] || "close_tab"@[2] != "take_screenshot"@[2]);
    assert("close_tab"@[0] != "find_element"@[0] || "close_tab"@.len() != "find_element"@.len() || "close_tab"@[1] != "find_element"@[1] || "close_tab"@[2] != "find_element"@[2]);
    assert("close_tab"@[0] != "click_element"@[0] || "close_tab"@.len() != "click_element"@.len() || "close_tab"@[1] != "click_element"@[1] || "close_tab"@[2] != "click_element"@[2]);
    assert("close_tab"@[0] != "type_text"@[0] || "close_tab"@.len() != "type_text"@.len() || "close_tab"@[1] != "type_text"@[1] || "close_tab"@[2] != "type_text"@[2]);
    assert("close_tab"@[0] != "get_page_info"@[0] || "close_tab"@.len() != "get_page_info"@.len() || "close_tab"@[1] != "get_page_info"@[1] || "close_tab"@[2] != "get_page_info"@[2]);
    assert("close_tab"@[0] != "execute_javascript"@[0] || "close_tab"@.len() != "execute_javascript"@.len() || "close_tab"@[1] != "execute_javascript"@[1] || "close_tab"@[2] != "execute_javascript"@[2]);
    assert("close_tab"@[0] != "start_network_monitoring"@[0] || "close_tab"@.len() != "start_network_monitoring"@.len() || "close_tab"@[1] != "start_network_monitoring"@[1] || "close_tab"@[2] != "start_network_monitoring"@[2]);
    assert("close_tab"@[0] != "stop_network_monitoring"@[0] || "close_tab"@.len() != "stop_network_monitoring"@.len() || "close_tab"@[1] != "stop_network_monitoring"@[1] || "close_tab"@[2] != "stop_network_monitoring"@[2]);
    assert("close_tab"@[0] != "get_network_stats"@[0] || "close_tab"@.len() != "get_network_stats"@.len() || "close_tab"@[1] != "get_network_stats"@[1] || "close_tab"@[2] != "get_network_stats"@[2]);
    assert("close_tab"@[0] != "export_network_har"@[0] || "close_tab"@.len() != "export_network_har"@.len() || "close_tab"@[1] != "export_network_har"@[1] || "close_tab"@[2] != "export_network_har"@[2]);
    assert("close_tab"@[0] != "create_visual_baseline"@[0] || "close_tab"@.len() != "create_visual_baseline"@.len() || "close_tab"@[1] != "create_visual_baseline"@[1] || "close_tab"@[2] != "create_visual_baseline"@[2]);
    assert("close_tab"@[0] != "run_visual_test"@[0] || "close_tab"@.len() != "run_visual_test"@.len() || "close_tab"@[1] != "run_visual_test"@[1] || "close_tab"@[2] != "run_visual_test"@[2]);
    assert("switch_tab"@[0] != "take_screenshot"@[0] || "switch_tab"@.len() != "take_screenshot"@.len() || "switch_tab"@[1] != "take_screenshot"@[1] || "switch_tab"@[2] != "take_screenshot"@[2]);
    assert("switch_tab"@[0] != "find_element"@[0] || "switch_tab"@.len() != "find_element"@.len() || "switch_tab"@[1] != "find_element"@[1] || "switch_tab"@[2] != "find_element"@[2]);
    assert("switch_tab"@[0] != "click_element"@[0] || "switch_tab"@.len() != "click_element"@.len() || "switch_tab"@[1] != "click_element"@[1] || "switch_tab"@[2] != "click_element"@[2]);
    assert("switch_tab"@[0] != "type_text"@[0] || "switch_tab"@.len() != "type_text"@.len() || "switch_tab"@[1] != "type_text"@[1] || "switch_tab"@[2] != "type_text"@[2]);
    assert("switch_tab"@[0] != "get_page_info"@[0] || "switch_tab"@.len() != "get_page_info"@.len() || "switch_tab"@[1] != "get_page_info"@[1] || "switch_tab"@[2] != "get_page_info"@[2]);
    assert("switch_tab"@[0] != "execute_javascript"@[0] || "switch_tab"@.len() != "execute_javascript"@.len() || "switch_tab"@[1] != "execute_javascript"@[1] || "switch_tab"@[2] != "execute_javascript"@[2]);
    assert("switch_tab"@[0] != "start_network_monitoring"@[0] || "switch_tab"@.len() != "start_network_monitoring"@.len() || "switch_tab"@[1] != "start_network_monitoring"@[1] || "switch_tab"@[2] != "start_network_monitoring"@[2]);
    assert("switch_tab"@[0] != "stop_network_monitoring"@[0] || "switch_tab"@.len() != "stop_network_monitoring"@.len() || "switch_tab"@[1] != "stop_network_monitoring"@[1] || "switch_tab"@[2] != "stop_network_monitoring"@[2]);
    assert("switch_tab"@[0] != "get_network_stats"@[0] || "switch_tab"@.len() != "get_network_stats"@.len() || "switch_tab"@[1] != "get_network_stats"@[1] || "switch_tab"@[2] != "get_network_stats"@[2]);
    assert("switch_tab"@[0] != "export_network_har"@[0] || "switch_tab"@.len() != "export_network_har"@.len() || "switch_tab"@[1] != "export_network_har"@[1] || "switch_tab"@[2] != "export_network_har"@[2]);
    assert("switch_tab"@[0] != "create_visual_baseline"@[0] || "switch_tab"@.len() != "create_visual_baseline"@.len() || "switch_tab"@[1] != "create_visual_baseline"@[1] || "switch_tab"@[2] != "create_visual_baseline"@[2]);
    assert("switch_tab"@[0] != "run_visual_test"@[0] || "switch_tab"@.len() != "run_visual_test"@.len() || "switch_tab"@[1] != "run_visual_test"@[1] || "switch_tab"@[2] != "run_visual_test"@[2]);
    assert("take_screenshot"@[0] != "find_element"@[0] || "take_screenshot"@.len() != "find_element"@.len() || "take_screenshot"@[1] != "find_element"@[1] || "take_screenshot"@[2] != "find_element"@[2]);
    assert("take_screenshot"@[0] != "click_element"@[0] || "take_screenshot"@.len() != "click_element"@.len() || "take_screenshot"@[1] != "click_element"@[1] || "take_screenshot"@[2] != "click_element"@[2]);
    assert("take_screenshot"@[0] != "type_text"@[0] || "take_screenshot"@.len() != "type_text"@.len() || "take_screenshot"@[1] != "type_text"@[1] || "take_screenshot"@[2] != "type_text"@[2]);
    assert("take_screenshot"@[0] != "get_page_info"@[0] || "take_screenshot"@.len() != "get_page_info"@.len() || "take_screenshot"@[1] != "get_page_info"@[1] || "take_screenshot"@[2] != "get_page_info"@[2]);
    assert("take_screenshot"@[0] != "execute_javascript"@[0] || "take_screenshot"@.len() != "execute_javascript"@.len() || "take_screenshot"@[1] != "execute_javascript"@[1] || "take_screenshot"@[2] != "execute_javascript"@[2]);
    assert("take_screenshot"@[0] != "start_network_monitoring"@[0] || "take_screenshot"@.len() != "start_network_monitoring"@.len() || "take_screenshot"@[1] != "start_network_monitoring"@[1] || "take_screenshot"@[2] != "start_network_monitoring"@[2]);
    assert("take_screenshot"@[0] != "stop_network_monitoring"@[0] || "take_screenshot"@.len() != "stop_network_monitoring"@.len() || "take_screenshot"@[1] != "stop_network_monitoring"@[1] || "take_screenshot"@[2] != "stop_network_monitoring"@[2]);
    assert("take_screenshot"@[0] != "get_network_stats"@[0] || "take_screenshot"@.len() != "get_network_stats"@.len() || "take_screenshot"@[1] != "get_network_stats"@[1] || "take_screenshot"@[2] != "get_network_stats"@[2]);
    assert("take_screenshot"@[0] != "export_network_har"@[0] || "take_screenshot"@.len() != "export_network_har"@.len() || "take_screenshot"@[1] != "export_network_har"@[1] || "take_screenshot"@[2] != "export_network_har"@[2]);
    assert("take_screenshot"@[0] != "create_visual_baseline"@[0] || "take_screenshot"@.len() != "create_visual_baseline"@.len() || "take_screenshot"@[1] != "create_visual_baseline"@[1] || "take_screenshot"@[2] != "create_visual_baseline"@[2]);
    assert("take_screenshot"@[0] != "run_visual_test"@[0] || "take_screenshot"@.len() != "run_visual_test"@.len() || "take_screenshot"@[1] != "run_visual_test"@[1] || "take_screenshot"@[2] != "run_visual_test"@[2]);
    assert("find_element"@[0] != "click_element"@[0] || "find_element"@.len() != "click_element"@.len() || "find_element"@[1] != "click_element"@[1] || "find_element"@[2] != "click_element"@[2]);
    assert("find_element"@[0] != "type_text"@[0] || "find_element"@.len() != "type_text"@.len() || "find_element"@[1] != "type_text"@[1] || "find_element"@[2] != "type_text"@[2]);
    assert("find_element"@[0] != "get_page_info"@[0] || "find_element"@.len() != "get_page_info"@.len() || "find_element"@[1] != "get_page_info"@[1] || "find_element"@[2] != "get_page_info"@[2]);
    assert("find_element"@[0] != "execute_javascript"@[0] || "find_element"@.len() != "execute_javascript"@.len() || "find_element"@[1] != "execute_javascript"@[1] || "find_element"@[2] != "execute_javascript"@[2]);
    assert("find_element"@[0] != "start_network_monitoring"@[0] || "find_element"@.len() != "start_network_monitoring"@.len() || "find_element"@[1] != "start_network_monitoring"@[1] || "find_element"@[2] != "start_network_monitoring"@[2]);
    assert("find_element"@[0] != "stop_network_monitoring"@[0] || "find_element"@.len() != "stop_network_monitoring"@.len() || "find_element"@[1] != "stop_network_monitoring"@[1] || "find_element"@[2] != "stop_network_monitoring"@[2]);
    assert("find_element"@[0] != "get_network_stats"@[0] || "find_element"@.len() != "get_network_stats"@.len() || "find_element"@[1] != "get_network_stats"@[1] || "find_element"@[2] != "get_network_stats"@[2]);
    assert("find_element"@[0] != "export_network_har"@[0] || "find_element"@.len() != "export_network_har"@.len() || "find_element"@[1] != "export_network_har"@[1] || "find_element"@[2] != "export_network_har"@[2]);
    assert("find_element"@[0] != "create_visual_baseline"@[0] || "find_element"@.len() != "create_visual_baseline"@.len() || "find_element"@[1] != "create_visual_baseline"@[1] || "find_element"@[2] != "create_visual_baseline"@[2]);
    assert("find_element"@[0] != "run_visual_test"@[0] || "find_element"@.len() != "run_visual_test"@.len() || "find_element"@[1] != "run_visual_test"@[1] || "find_element"@[2] != "run_visual_test"@[2]);
    assert("click_element"@[0] != "type_text"@[0] || "click_element"@.len() != "type_text"@.len() || "click_element"@[1] != "type_text"@[1] || "click_element"@[2] != "type_text"@[2]);
    assert("click_element"@[0] != "get_page_info"@[0] || "click_element"@.len() != "get_page_info"@.len() || "click_element"@[1] != "get_page_info"@[1] || "click_element"@[2] != "get_page_info"@[2]);
    assert("click_element"@[0] != "execute_javascript"@[0] || "click_element"@.len() != "execute_javascript"@.len() || "click_element"@[1] != "execute_javascript"@[1] || "click_element"@[2] != "execute_javascript"@[2]);
    assert("click_element"@[0] != "start_network_monitoring"@[0] || "click_element"@.len() != "start_network_monitoring"@.len() || "click_element"@[1] != "start_network_monitoring"@[1] || "click_element"@[2] != "start_network_monitoring"@[2]);
    assert("click_element"@[0] != "stop_network_monitoring"@[0] || "click_element"@.len() != "stop_network_monitoring"@.len() || "click_element"@[1] != "stop_network_monitoring"@[1] || "click_element"@[2] != "stop_network_monitoring"@[2]);
    assert("click_element"@[0] != "get_network_stats"@[0] || "click_element"@.len() != "get_network_stats"@.len() || "click_element"@[1] != "get_network_stats"@[1] || "click_element"@[2] != "get_network_stats"@[2]);
    assert("click_element"@[0] != "export_network_har"@[0] || "click_element"@.len() != "export_network_har"@.len() || "click_element"@[1] != "export_network_har"@[1] || "click_element"@[2] != "export_network_har"@[2]);
    assert("click_element"@[0] != "create_visual_baseline"@[0] || "click_element"@.len() != "create_visual_baseline"@.len() || "click_element"@[1] != "create_visual_baseline"@[1] || "click_element"@[2] != "create_visual_baseline"@[2]);
    assert("click_element"@[0] != "run_visual_test"@[0] || "click_element"@.len() != "run_visual_test"@.len() || "click_element"@[1] != "run_visual_test"@[1] || "click_element"@[2] != "run_visual_test"@[2]);
    assert("type_text"@[0] != "get_page_info"@[0] || "type_text"@.len() != "get_page_info"@.len() || "type_text"@[1] != "get_page_info"@[1] || "type_text"@[2] != "get_page_info"@[2]);
    assert("type_text"@[0] != "execute_javascript"@[0] || "type_text"@.len() != "execute_javascript"@.len() || "type_text"@[1] != "execute_javascript"@[1] || "type_text"@[2] != "execute_javascript"@[2]);
    assert("type_text"@[0] != "start_network_monitoring"@[0] || "type_text"@.len() != "start_network_monitoring"@.len() || "type_text"@[1] != "start_network_monitoring"@[1] || "type_text"@[2] != "start_network_monitoring"@[2]);
    assert("type_text"@[0] != "stop_network_monitoring"@[0] || "type_text"@.len() != "stop_network_monitoring"@.len() || "type_text"@[1] != "stop_network_monitoring"@[1] || "type_text"@[2] != "stop_network_monitoring"@[2]);
    assert("type_text"@[0] != "get_network_stats"@[0] || "type_text"@.len() != "get_network_stats"@.len() || "type_text"@[1] != "get_network_stats"@[1] || "type_text"@[2] != "get_network_stats"@[2]);
    assert("type_text"@[0] != "export_network_har"@[0] || "type_text"@.len() != "export_network_har"@.len() || "type_text"@[1] != "export_network_har"@[1] || "type_text"@[2] != "export_network_har"@[2]);
    assert("type_text"@[0] != "create_visual_baseline"@[0] || "type_text"@.len() != "create_visual_baseline"@.len() || "type_text"@[1] != "create_visual_baseline"@[1] || "type_text"@[2] != "create_visual_baseline"@[2]);
    assert("type_text"@[0] != "run_visual_test"@[0] || "type_text"@.len() != "run_visual_test"@.len() || "type_text"@[1] != "run_visual_test"@[1] || "type_text"@[2] != "run_visual_test"@[2]);
    assert("get_page_info"@[0] != "execute_javascript"@[0] || "get_page_info"@.len() != "execute_javascript"@.len() || "get_page_info"@[1] != "execute_javascript"@[1] || "get_page_info"@[2] != "execute_javascript"@[2]);
    assert("get_page_info"@[0] != "start_network_monitoring"@[0] || "get_page_info"@.len() != "start_network_monitoring"@.len() || "get_page_info"@[1] != "start_network_monitoring"@[1] || "get_page_info"@[2] != "start_network_monitoring"@[2]);
    assert("get_page_info"@[0] != "stop_network_monitoring"@[0] || "get_page_info"@.len() != "stop_network_monitoring"@.len() || "get_page_info"@[1] != "stop_network_monitoring"@[1] || "get_page_info"@[2] != "stop_network_monitoring"@[2]);
    assert("get_page_info"@[0] != "get_network_stats"@[0] || "get_page_info"@.len() != "get_network_stats"@.len() || "get_page_info"@[1] != "get_network_stats"@[1] || "get_page_info"@[2] != "get_network_stats"@[2]);
    assert("get_page_info"@[0] != "export_network_har"@[0] || "get_page_info"@.len() != "export_network_har"@.len() || "get_page_info"@[1] != "export_network_har"@[1] || "get_page_info"@[2] != "export_network_har"@[2]);
    assert("get_page_info"@[0] != "create_visual_baseline"@[0] || "get_page_info"@.len() != "create_visual_baseline"@.len() || "get_page_info"@[1] != "create_visual_baseline"@[1] || "get_page_info"@[2] != "create_visual_baseline"@[2]);
    assert("get_page_info"@[0] != "run_visual_test"@[0] || "get_page_info"@.len() != "run_visual_test"@.len() || "get_page_info"@[1] != "run_visual_test"@[1] || "get_page_info"@[2] != "run_visual_test"@[2]);
    assert("execute_javascript"@[0] != "start_network_monitoring"@[0] || "execute_javascript"@.len() != "start_network_monitoring"@.len() || "execute_javascript"@[1] != "start_network_monitoring"@[1] || "execute_javascript"@[2] != "start_network_monitoring"@[2]);
    assert("execute_javascript"@[0] != "stop_network_monitoring"@[0] || "execute_javascript"@.len() != "stop_network_monitoring"@.len() || "execute_javascript"@[1] != "stop_network_monitoring"@[1] || "execute_javascript"@[2] != "stop_network_monitoring"@[2]);
    assert("execute_javascript"@[0] != "get_network_stats"@[0] || "execute_javascript"@.len() != "get_network_stats"@.len() || "execute_javascript"@[1] != "get_network_stats"@[1] || "execute_javascript"@[2] != "get_network_stats"@[2]);
    assert("execute_javascript"@[0] != "export_network_har"@[0] || "execute_javascript"@.len() != "export_network_har"@.len() || "execute_javascript"@[1] != "export_network_har"@[1] || "execute_javascript"@[2] != "export_network_har"@[2]);
    assert("execute_javascript"@[0] != "create_visual_baseline"@[0] || "execute_javascript"@.len() != "create_visual_baseline"@.len() || "execute_javascript"@[1] != "create_visual_baseline"@[1] || "execute_javascript"@[2] != "create_visual_baseline"@[2]);
    assert("execute_javascript"@[0] != "run_visual_test"@[0] || "execute_javascript"@.len() != "run_visual_test"@.len() || "execute_javascript"@[1] != "run_visual_test"@[1] || "execute_javascript"@[2] != "run_visual_test"@[2]);
    assert("start_network_monitoring"@[0] != "stop_network_monitoring"@[0] || "start_network_monitoring"@.len() != "stop_network_monitoring"@.len() || "start_network_monitoring"@[1] != "stop_network_monitoring"@[1] || "start_network_monitoring"@[2] != "stop_network_monitoring"@[2]);
    assert("start_network_monitoring"@[0] != "get_network_stats"@[0] || "start_network_monitoring"@.len() != "get_network_stats"@.len() || "start_network_monitoring"@[1] != "get_network_stats"@[1] || "start_network_monitoring"@[2] != "get_network_stats"@[2]);
    assert("start_network_monitoring"@[0] != "export_network_har"@[0] || "start_network_monitoring"@.len() != "export_network_har"@.len() || "start_network_monitoring"@[1] != "export_network_har"@[1] || "start_network_monitoring"@[2] != "export_network_har"@[2]);
    assert("start_network_monitoring"@[0] != "create_visual_baseline"@[0] || "start_network_monitoring"@.len() != "create_visual_baseline"@.len() || "start_network_monitoring"@[1] != "create_visual_baseline"@[1] || "start_network_monitoring"@[2] != "create_visual_baseline"@[2]);
    assert("start_network_monitoring"@[0] != "run_visual_test"@[0] || "start_network_monitoring"@.len() != "run_visual_test"@.len() || "start_network_monitoring"@[1] != "run_visual_test"@[1] || "start_network_monitoring"@[2] != "run_visual_test"@[2]);
    assert("stop_network_monitoring"@[0] != "get_network_stats"@[0] || "stop_network_monitoring"@.len() != "get_network_stats"@.len() || "stop_network_monitoring"@[1] != "get_network_stats"@[1] || "stop_network_monitoring"@[2] != "get_network_stats"@[2]);
    assert("stop_network_monitoring"@[0] != "export_network_har"@[0] || "stop_network_monitoring"@.len() != "export_network_har"@.len() || "stop_network_monitoring"@[1] != "export_network_har"@[1] || "stop_network_monitoring"@[2] != "export_network_har"@[2]);
    assert("stop_network_monitoring"@[0] != "create_visual_baseline"@[0] || "stop_network_monitoring"@.len() != "create_visual_baseline"@.len() || "stop_network_monitoring"@[1] != "create_visual_baseline"@[1] || "stop_network_monitoring"@[2] != "create_visual_baseline"@[2]);
    assert("stop_network_monitoring"@[0] != "run_visual_test"@[0] || "stop_network_monitoring"@.len() != "run_visual_test"@.len() || "stop_network_monitoring"@[1] != "run_visual_test"@[1] || "stop_network_monitoring"@[2] != "run_visual_test"@[2]);
    assert("get_network_stats"@[0] != "export_network_har"@[0] || "get_network_stats"@.len() != "export_network_har"@.len() || "get_network_stats"@[1] != "export_network_har"@[1] || "get_network_stats"@[2] != "export_network_har"@[2]);
    assert("get_network_stats"@[0] != "create_visual_baseline"@[0] || "get_network_stats"@.len() != "create_visual_baseline"@.len() || "get_network_stats"@[1] != "create_visual_baseline"@[1] || "get_network_stats"@[2] != "create_visual_baseline"@[2]);
    assert("get_network_stats"@[0] != "run_visual_test"@[0] || "get_network_stats"@.len() != "run_visual_test"@.len() || "get_network_stats"@[1] != "run_visual_test"@[1] || "get_network_stats"@[2] != "run_visual_test"@[2]);
    assert("export_network_har"@[0] != "create_visual_baseline"@[0] || "export_network_har"@.len() != "create_visual_baseline"@.len() || "export_network_har"@[1] != "create_visual_baseline"@[1] || "export_network_har"@[2] != "create_visual_baseline"@[2]);
    assert("export_network_har"@[0] != "run_visual_test"@[0] || "export_network_har"@.len() != "run_visual_test"@.len() || "export_network_har"@[1] != "run_visual_test"@[1] || "export_network_har"@[2] != "run_visual_test"@[2]);
    assert("create_visual_baseline"@[0] != "run_visual_test"@[0] || "create_visual_baseline"@.len() != "run_visual_test"@.len() || "create_visual_baseline"@[1] != "run_visual_test"@[1] || "create_visual_baseline"@[2] != "run_visual_test"@[2]);
}

/// The tab tools each come to their own kind of command, carrying what the
/// call gives it: `navigate` navigates and `create_tab` opens a tab, both to
/// the `url`; `close_tab` closes and `switch_tab` activates the tab `id`.
pub proof fn law_tab_tools_have_their_commands(name: Seq<char>, args: JsonV, cmd: BrowserCommand)
    requires
        is_tool_command(name, args, cmd),
    ensures
        name == "navigate"@ ==> (cmd matches BrowserCommand::Navigate { url } && Some(url@) == arg_str(args, "url"@)),
        name == "create_tab"@ ==> (cmd matches BrowserCommand::CreateTab { url } && Some(url@) == arg_str(
            args,
            "url"@,
        )),
        name == "close_tab"@ ==> (cmd matches BrowserCommand::CloseTab { id } && id as int == (args.at(
            "id"@,
        ).as_u64()->0 as usize)),
        name == "switch_tab"@ ==> (cmd matches BrowserCommand::SwitchTab { id } && id as int == (args.at(
            "id"@,
        ).as_u64()->0 as usize)),
{
    lemma_tab_tool_names_differ();
}

/// The names of the tab tools are different words.
proof fn lemma_tab_tool_names_differ()
    ensures
        "navigate"@ != "create_tab"@,
        "navigate"@ != "close_tab"@,
        "navigate"@ != "switch_tab"@,
        "create_tab"@ != "close_tab"@,
        "create_tab"@ != "switch_tab"@,
        "close_tab"@ != "switch_tab"@,
{
    reveal_strlit("navigate");
    reveal_strlit("create_tab");
    reveal_strlit("close_tab");
    reveal_strlit("switch_tab");
    assert("navigate"@.len() != "create_tab"@.len());
    assert("navigate"@.len() != "close_tab"@.len());
    assert("navigate"@.len() != "switch_tab"@.len());
    assert("create_tab"@.len() != "close_tab"@.len());
    assert("create_tab"@[0] != "switch_tab"@[0]);
    assert("close_tab"@.len() != "switch_tab"@.len());
}

/// Every tool comes to its own kind of command: each of the sixteen tools
/// names a different command variant, so no tool is taken for another.
pub proof fn law_each_tool_has_its_variant(name: Seq<char>, args: JsonV, cmd: BrowserCommand)
    requires
        is_known_tool(name),
        is_tool_command(name, args, cmd),
    ensures
        name == "navigate"@ ==> cmd is Navigate,
        name == "create_tab"@ ==> cmd is CreateTab,
        name == "close_tab"@ ==> cmd is CloseTab,
        name == "switch_tab"@ ==> cmd is SwitchTab,
        name == "take_screenshot"@ ==> cmd is TakeScreenshot,
        name == "find_element"@ ==> cmd is FindElement,
        name == "click_element"@ ==> cmd is InteractElement,
        name == "type_text"@ ==> cmd is InteractElement,
        name == "get_page_info"@ ==> cmd is GetPageInfo,
        name == "execute_javascript"@ ==> cmd is ExecuteJavaScript,
        name == "start_network_monitoring"@ ==> cmd is StartNetworkMonitoring,
        name == "stop_network_monitoring"@ ==> cmd is StopNetworkMonitoring,
        name == "get_network_stats"@ ==> cmd is GetNetworkStats,
        name == "export_network_har"@ ==> cmd is ExportNetworkHAR,
        name == "create_visual_baseline"@ ==> cmd is CreateBaseline,
        name == "run_visual_test"@ ==> cmd is RunVisualTest,
{
    reveal_strlit("navigate");
    reveal_strlit("create_tab");
    reveal_strlit("close_tab");
    reveal_strlit("switch_tab");
    reveal_strlit("take_screenshot");
    reveal_strlit("find_element");
    reveal_strlit("click_element");
    reveal_strlit("type_text");
    reveal_strlit("get_page_info");
    reveal_strlit("execute_javascript");
    reveal_strlit("start_network_monitoring");
    reveal_strlit("stop_network_monitoring");
    reveal_strlit("get_network_stats");
    reveal_strlit("export_network_har");
    reveal_strlit("create_visual_baseline");
    reveal_strlit("run_visual_test");
    assert("navigate"@.len() == 8);
    assert("create_tab"@.len() == 10);
    assert("close_tab"@.len() == 9);
    assert("switch_tab"@.len() == 10);
    assert("take_screenshot"@.len() == 15);
    assert("find_element"@.len() == 12);
    assert("click_element"@.len() == 13);
    assert("type_text"@.len() == 9);
    assert("get_page_info"@.len() == 13);
    assert("execute_javascript"@.len() == 18);
    assert("start_network_monitoring"@.len() == 24);
    assert("stop_network_monitoring"@.len() == 23);
    assert("get_network_stats"@.len() == 17);
    assert("export_network_har"@.len() == 18);
    assert("create_visual_baseline"@.len() == 22);
    assert("run_visual_test"@.len() == 15);
    assert("create_tab"@[0] != "switch_tab"@[0]);
    assert("close_tab"@[0] != "type_text"@[0]);
    assert("take_screenshot"@[0] != "run_visual_test"@[0]);
    assert("click_element"@[0] != "get_page_info"@[0]);
    assert("execute_javascript"@[2] != "export_network_har"@[2]);
}

/// Closing and switching are told apart: for the same arguments, the
/// command of a `close_tab` call is never that of a `switch_tab` call, and a
/// `navigate` call never opens a tab as `create_tab` does.
pub proof fn law_close_and_switch_differ(args: JsonV, c1: BrowserCommand, c2: BrowserCommand)
    ensures
        is_tool_command("close_tab"@, args, c1) && is_tool_command("switch_tab"@, args, c2) ==> c1 != c2,
        is_tool_command("navigate"@, args, c1) && is_tool_command("create_tab"@, args, c2) ==> c1 != c2,
{
    lemma_tab_tool_names_differ();
}

/// The tools that `tools/list` lists are exactly those that `tools/call`
/// knows.
pub proof fn law_listed_tools_are_known(name: Seq<char>)
    ensures
        is_known_tool(name) <==> exists|i: int| 0 <= i < tool_catalog_v().len() && #[trigger] tool_catalog_v()[i].name == name,
{
    let c = tool_catalog_v();
    assert(c[0].name == "navigate"@);
    assert(c[1].name == "create_tab"@);
    assert(c[2].name == "close_tab"@);
    assert(c[3].name == "switch_tab"@);
    assert(c[4].name == "take_screenshot"@);
    assert(c[5].name == "find_element"@);
    assert(c[6].name == "click_element"@);
    assert(c[7].name == "type_text"@);
    assert(c[8].name == "get_page_info"@);
    assert(c[9].name == "execute_javascript"@);
    assert(c[10].name == "start_network_monitoring"@);
    assert(c[11].name == "stop_network_monitoring"@);
    assert(c[12].name == "get_network_stats"@);
    assert(c[13].name == "export_network_har"@);
    assert(c[14].name == "create_visual_baseline"@);
    assert(c[15].name == "run_visual_test"@);
    if is_known_tool(name) {
        if name == "navigate"@ {
            assert(c[0].name == name);
        }
        if name == "create_tab"@ {
            assert(c[1].name == name);
        }
        if name == "close_tab"@ {
            assert(c[2].name == name);
        }
        if name == "switch_tab"@ {
            assert(c[3].name == name);
        }
        if name == "take_screenshot"@ {
            assert(c[4].name == name);
        }
        if name == "find_element"@ {
            assert(c[5].name == name);
        }
        if name == "click_element"@ {
            assert(c[6].name == name);
        }
        if name == "type_text"@ {
            assert(c[7].name == name);
        }
        if name == "get_page_info"@ {
            assert(c[8].name == name);
        }
        if name == "execute_javascript"@ {
            assert(c[9].name == name);
        }
        if name == "start_network_monitoring"@ {
            assert(c[10].name == name);
        }
        if name == "stop_network_monitoring"@ {
            assert(c[11].name == name);
        }
        if name == "get_network_stats"@ {
            assert(c[12].name == name);
        }
        if name == "export_network_har"@ {
            assert(c[13].name == name);
        }
        if name == "create_visual_baseline"@ {
            assert(c[14].name == name);
        }
        if name == "run_visual_test"@ {
            assert(c[15].name == name);
        }
    }
}

/// A call of a listed tool that supplies every parameter the tool requires is
/// accepted: it comes to the tool's command, not to an error.
pub proof fn law_listed_tool_accepts_its_required_params(i: int, args: JsonV)
    requires
        0 <= i < tool_catalog_v().len(),
        required_params_supplied(tool_catalog_v()[i], args),
    ensures
        tool_call_check(
            Some(JsonV::Object(seq![("name"@, JsonV::Str(tool_catalog_v()[i].name)), ("arguments"@, args)])),
        ) == Ok::<Seq<char>, (i32, Seq<char>)>(tool_catalog_v()[i].name),
{
    lemma_tool_names_distinct();
    reveal_strlit("name");
    reveal_strlit("arguments");
    reveal_strlit("string");
    reveal_strlit("number");
    assert("name"@.len() != "arguments"@.len());
    assert("string"@[0] != "number"@[0]);
    let t = tool_catalog_v()[i];
    let fields = seq![("name"@, JsonV::Str(t.name)), ("arguments"@, args)];
    assert(fields.drop_first() =~= seq![("arguments"@, args)]);
    reveal_with_fuel(crate::json::member, 3);
    assert(JsonV::Object(fields).at("name"@) == JsonV::Str(t.name));
    assert(JsonV::Object(fields).at("arguments"@) == args);
    law_listed_tools_are_known(t.name);
    assert(tool_catalog_v()[i].name == t.name);
    assert(is_known_tool(t.name));
    if i == 0 {
        assert(t.name == tool_catalog_v()[0].name);
        assert(t.required[0] == t.params[0].name);
        assert(t.required.contains(t.params[0].name));
        assert(supplies(args, t.params[0]));
        assert(missing_param(t.name, args) is None);
    }
    if i == 1 {
        assert(t.name == tool_catalog_v()[1].name);
        assert(t.required[0] == t.params[0].name);
        assert(t.required.contains(t.params[0].name));
        assert(supplies(args, t.params[0]));
    }
    if i == 2 {
        assert(t.name == tool_catalog_v()[2].name);
        assert(t.required[0] == t.params[0].name);
        assert(t.required.contains(t.params[0].name));
        assert(supplies(args, t.params[0]));
        assert(missing_param(t.name, args) is None);
    }
    if i == 3 {
        assert(t.name == tool_catalog_v()[3].name);
        assert(t.required[0] == t.params[0].name);
        assert(t.required.contains(t.params[0].name));
        assert(supplies(args, t.params[0]));
    }
    if i == 4 {
        assert(t.name == tool_catalog_v()[4].name);
        assert(missing_param(t.name, args) is None);
    }
    if i == 5 {
        assert(t.name == tool_catalog_v()[5].name);
        assert(t.required[0] == t.params[0].name);
        assert(t.required.contains(t.params[0].name));
        assert(supplies(args, t.params[0]));
        assert(t.required[1] == t.params[1].name);
        assert(t.required.contains(t.params[1].name));
        assert(supplies(args, t.params[1]));
    }
    if i == 6 {
        assert(t.name == tool_catalog_v()[6].name);
        assert(t.required[0] == t.params[0].name);
        assert(t.required.contains(t.params[0].name));
        assert(supplies(args, t.params[0]));
        assert(t.required[1] == t.params[1].name);
        assert(t.required.contains(t.params[1].name));
        assert(supplies(args, t.params[1]));
        assert(missing_param(t.name, args) is None);
    }
    if i == 7 {
        assert(t.name == tool_catalog_v()[7].name);
        assert(t.required[0] == t.params[0].name);
        assert(t.required.contains(t.params[0].name));
        assert(supplies(args, t.params[0]));
        assert(t.required[1] == t.params[1].name);
        assert(t.required.contains(t.params[1].name));
        assert(supplies(args, t.params[1]));
        assert(t.required[2] == t.params[2].name);
        assert(t.required.contains(t.params[2].name));
        assert(supplies(args, t.params[2]));
    }
    if i == 8 {
        assert(t.name == tool_catalog_v()[8].name);
        assert(missing_param(t.name, args) is None);
    }
    if i == 9 {
        assert(t.name == tool_catalog_v()[9].name);
        assert(t.required[0] == t.params[0].name);
        assert(t.required.contains(t.params[0].name));
        assert(supplies(args, t.params[0]));
    }
    if i == 10 {
        assert(t.name == tool_catalog_v()[10].name);
        assert(missing_param(t.name, args) is None);
    }
    if i == 11 {
        assert(t.name == tool_catalog_v()[11].name);
    }
    if i == 12 {
        assert(t.name == tool_catalog_v()[12].name);
        assert(missing_param(t.name, args) is None);
    }
    if i == 13 {
        assert(t.name == tool_catalog_v()[13].name);
    }
    if i == 14 {
        assert(t.name == tool_catalog_v()[14].name);
        assert(t.required[0] == t.params[0].name);
        assert(t.required.contains(t.params[0].name));
        assert(supplies(args, t.params[0]));
        assert(missing_param(t.name, args) is None);
    }
    if i == 15 {
        assert(t.name == tool_catalog_v()[15].name);
        assert(t.required[0] == t.params[0].name);
        assert(t.required.contains(t.params[0].name));
        assert(supplies(args, t.params[0]));
    }
}

} // verus!
