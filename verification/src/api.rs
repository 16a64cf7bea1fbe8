//! The HTTP API: what each endpoint sends to the browser and answers.

use vstd::prelude::*;
use crate::event::BrowserCommand;
use crate::json::{Json, JsonNumber, JsonV, Real64};
use crate::mcp::{delivered_after, send_command, CommandSender, DEFAULT_TOLERANCE_BITS, SERVER_VERSION};
use crate::text::{concat, decimal, decimal_string, to_string};

verus! {

/// The answer of an endpoint: data on success, an error message otherwise.
#[derive(Debug)]
pub struct ApiResponse<T> {
    pub success: bool,
    pub data: Option<T>,
    pub error: Option<String>,
}

impl<T> ApiResponse<T> {
    /// A successful answer carrying `data`.
    pub fn success(data: T) -> (res: Self)
        ensures
            res.success,
            res.data == Some(data),
            res.error is None,
    {
        ApiResponse { success: true, data: Some(data), error: None }
    }

    /// A failed answer with message `error`.
    pub fn error(error: String) -> (res: Self)
        ensures
            !res.success,
            res.data is None,
            res.error == Some(error),
    {
        ApiResponse { success: false, data: None, error: Some(error) }
    }
}

/// Body of `POST /api/navigate`.
#[derive(Debug)]
pub struct NavigateRequest {
    pub url: String,
}

/// Body of `POST /api/tabs`.
#[derive(Debug)]
pub struct CreateTabRequest {
    pub url: String,
}

/// A tab named by its id.
#[derive(Debug)]
pub struct TabActionRequest {
    pub id: usize,
}

/// Body of `POST /api/screenshot`.
#[derive(Debug)]
pub struct ScreenshotRequest {
    pub options: Option<Json>,
}

/// Body of `POST /api/visual/baseline`.
#[derive(Debug)]
pub struct BaselineRequest {
    pub test_name: String,
    pub options: Option<Json>,
}

/// Body of `POST /api/visual/test`.
#[derive(Debug)]
pub struct VisualTestRequest {
    pub test_name: String,
    pub tolerance: Option<JsonNumber>,
    pub options: Option<Json>,
}

/// `res` answers a command sent to the browser: `ok` if it was sent, else
/// `failed` followed by the channel's error.
pub open spec fn sent_answer(res: ApiResponse<String>, ok: Seq<char>, failed: Seq<char>) -> bool {
    ||| res.success && res.error is None && (res.data matches Some(d) && d@ == ok)
    ||| !res.success && res.data is None && (res.error matches Some(e) && e@ == failed + "channel closed"@)
}

/// Sends `command` and answers with `ok`, or with `failed` and the error.
fn send_and_answer(
    command_tx: &mut CommandSender,
    command: BrowserCommand,
    ok: String,
    failed: &str,
) -> (res: ApiResponse<String>)
    ensures
        sent_answer(res, ok@, failed@),
        delivered_after(old(command_tx).delivered(), final(command_tx).delivered(), command, res.success),
{
    match send_command(command_tx, command) {
        Ok(()) => ApiResponse::success(ok),
        Err(e) => ApiResponse::error(concat(failed, e.as_str())),
    }
}

/// `POST /api/navigate`: navigates the active tab.
pub fn navigate(command_tx: &mut CommandSender, request: NavigateRequest) -> (res:
    ApiResponse<String>)
    ensures
        sent_answer(res, "Navigating to "@ + request.url@, "Failed to send navigate command: "@),
        delivered_after(old(command_tx).delivered(), final(command_tx).delivered(), BrowserCommand::Navigate { url: request.url }, res.success),
{
    let ok = concat("Navigating to ", request.url.as_str());
    send_and_answer(command_tx, BrowserCommand::Navigate { url: request.url }, ok, "Failed to send navigate command: ")
}

/// `POST /api/tabs`: opens a tab.
pub fn create_tab(command_tx: &mut CommandSender, request: CreateTabRequest) -> (res:
    ApiResponse<String>)
    ensures
        sent_answer(res, "Creating tab with URL "@ + request.url@, "Failed to send create tab command: "@),
        delivered_after(old(command_tx).delivered(), final(command_tx).delivered(), BrowserCommand::CreateTab { url: request.url }, res.success),
{
    let ok = concat("Creating tab with URL ", request.url.as_str());
    send_and_answer(
        command_tx,
        BrowserCommand::CreateTab { url: request.url },
        ok,
        "Failed to send create tab command: ",
    )
}

/// `DELETE /api/tabs/{id}`: closes a tab.
pub fn close_tab(command_tx: &mut CommandSender, id: usize) -> (res: ApiResponse<
    String,
>)
    ensures
        sent_answer(res, "Closing tab "@ + decimal(id as nat), "Failed to send close tab command: "@),
        delivered_after(old(command_tx).delivered(), final(command_tx).delivered(), BrowserCommand::CloseTab { id }, res.success),
{
    let ok = concat("Closing tab ", decimal_string(id as u64).as_str());
    send_and_answer(command_tx, BrowserCommand::CloseTab { id }, ok, "Failed to send close tab command: ")
}

/// `POST /api/tabs/{id}/activate`: switches to a tab.
pub fn activate_tab(command_tx: &mut CommandSender, id: usize) -> (res: ApiResponse<
    String,
>)
    ensures
        sent_answer(res, "Activating tab "@ + decimal(id as nat), "Failed to send activate tab command: "@),
        delivered_after(old(command_tx).delivered(), final(command_tx).delivered(), BrowserCommand::SwitchTab { id }, res.success),
{
    let ok = concat("Activating tab ", decimal_string(id as u64).as_str());
    send_and_answer(command_tx, BrowserCommand::SwitchTab { id }, ok, "Failed to send activate tab command: ")
}

/// `POST /api/screenshot`: takes a screenshot.
pub fn take_screenshot(
    command_tx: &mut CommandSender,
    request: ScreenshotRequest,
) -> (res: ApiResponse<String>)
    ensures
        sent_answer(res, "Screenshot command sent"@, "Failed to send screenshot command: "@),
        delivered_after(old(command_tx).delivered(), final(command_tx).delivered(), BrowserCommand::TakeScreenshot { options: request.options }, res.success),
{
    send_and_answer(
        command_tx,
        BrowserCommand::TakeScreenshot { options: request.options },
        to_string("Screenshot command sent"),
        "Failed to send screenshot command: ",
    )
}

/// `POST /api/visual/baseline`: records a baseline screenshot.
pub fn create_baseline(
    command_tx: &mut CommandSender,
    request: BaselineRequest,
) -> (res: ApiResponse<String>)
    ensures
        sent_answer(
            res,
            "Baseline creation started for '"@ + request.test_name@ + "'"@,
            "Failed to send baseline command: "@,
        ),
        delivered_after(old(command_tx).delivered(), final(command_tx).delivered(), BrowserCommand::CreateBaseline { test_name: request.test_name, options: request.options }, res.success),
{
    let ok = concat(concat("Baseline creation started for '", request.test_name.as_str()).as_str(), "'");
    send_and_answer(
        command_tx,
        BrowserCommand::CreateBaseline { test_name: request.test_name, options: request.options },
        ok,
        "Failed to send baseline command: ",
    )
}

/// The tolerance a visual test request asks for: the number given, else 0.1.
pub open spec fn request_tolerance(tolerance: Option<JsonNumber>) -> JsonNumber {
    match tolerance {
        Some(t) => t,
        None => JsonNumber::Float(Real64 { bits: DEFAULT_TOLERANCE_BITS }),
    }
}

/// The command that `POST /api/visual/test` sends: the request's test and
/// options, with the tolerance given or else 0.1.
pub fn visual_test_command(request: VisualTestRequest) -> (cmd: BrowserCommand)
    ensures
        cmd == (BrowserCommand::RunVisualTest {
            test_name: request.test_name,
            tolerance: request_tolerance(request.tolerance),
            options: request.options,
        }),
{
    let tolerance = match request.tolerance {
        Some(t) => t,
        None => JsonNumber::Float(Real64 { bits: DEFAULT_TOLERANCE_BITS }),
    };
    BrowserCommand::RunVisualTest { test_name: request.test_name, tolerance, options: request.options }
}

/// `POST /api/visual/test`: compares a screenshot with its baseline.
pub fn run_visual_test(
    command_tx: &mut CommandSender,
    request: VisualTestRequest,
) -> (res: ApiResponse<String>)
    ensures
        sent_answer(
            res,
            "Visual test '"@ + request.test_name@ + "' started"@,
            "Failed to send visual test command: "@,
        ),
        delivered_after(old(command_tx).delivered(), final(command_tx).delivered(), BrowserCommand::RunVisualTest {
            test_name: request.test_name,
            tolerance: request_tolerance(request.tolerance),
            options: request.options,
        }, res.success),
{
    let ok = concat(concat("Visual test '", request.test_name.as_str()).as_str(), "' started");
    send_and_answer(command_tx, visual_test_command(request), ok, "Failed to send visual test command: ")
}

/// The body of `GET /health`.
pub open spec fn health_v() -> JsonV {
    JsonV::Object(
        seq![
            ("status"@, JsonV::Str("ok"@)),
            ("version"@, JsonV::Str(SERVER_VERSION@)),
            ("name"@, JsonV::Str("Tinker Browser API"@)),
        ],
    )
}

/// `GET /health`: the service is up.
pub fn health_check() -> (res: ApiResponse<Json>)
    ensures
        res.success && res.error is None && (res.data matches Some(j) && j@ == health_v()),
{
    ApiResponse::success(
        Json::object3(
            "status",
            Json::string("ok"),
            "version",
            Json::string(SERVER_VERSION),
            "name",
            Json::string("Tinker Browser API"),
        ),
    )
}

/// The capabilities `GET /api/info` lists.
pub open spec fn capabilities_v() -> Seq<Seq<char>> {
    seq![
        "navigation"@,
        "tab_management"@,
        "event_streaming"@,
        "mqtt_integration"@,
        "recording_replay"@,
        "screenshot_capture"@,
        "visual_testing"@,
        "baseline_comparison"@,
    ]
}

/// The endpoints `GET /api/info` lists, by name.
pub open spec fn endpoints_v() -> Seq<(Seq<char>, Seq<char>)> {
    seq![
        ("navigate"@, "POST /api/navigate"@),
        ("create_tab"@, "POST /api/tabs"@),
        ("close_tab"@, "DELETE /api/tabs/{id}"@),
        ("activate_tab"@, "POST /api/tabs/{id}/activate"@),
        ("screenshot"@, "POST /api/screenshot"@),
        ("create_baseline"@, "POST /api/visual/baseline"@),
        ("run_visual_test"@, "POST /api/visual/test"@),
        ("websocket"@, "WS /ws"@),
    ]
}

/// The body of `GET /api/info`.
pub open spec fn browser_info_v() -> JsonV {
    JsonV::Object(
        seq![
            ("name"@, JsonV::Str("Tinker"@)),
            ("version"@, JsonV::Str(SERVER_VERSION@)),
            ("engine"@, JsonV::Str("WebView"@)),
            ("capabilities"@, JsonV::Array(capabilities_v().map_values(|c: Seq<char>| JsonV::Str(c)))),
            (
                "endpoints"@,
                JsonV::Object(endpoints_v().map_values(|e: (Seq<char>, Seq<char>)| (e.0, JsonV::Str(e.1)))),
            ),
        ],
    )
}

/// `GET /api/info`: what the browser is and which endpoints it has.
pub fn browser_info() -> (res: ApiResponse<Json>)
    ensures
        res.success && res.error is None && (res.data matches Some(j) && j@ == browser_info_v()),
{
    let caps = vec![
        to_string("navigation"),
        to_string("tab_management"),
        to_string("event_streaming"),
        to_string("mqtt_integration"),
        to_string("recording_replay"),
        to_string("screenshot_capture"),
        to_string("visual_testing"),
        to_string("baseline_comparison"),
    ];
    let capabilities = Json::strings(&caps);
    assert(crate::json::strs_view(caps@) =~= capabilities_v().map_values(|c: Seq<char>| JsonV::Str(c)));
    let eps = vec![
        (to_string("navigate"), Json::string("POST /api/navigate")),
        (to_string("create_tab"), Json::string("POST /api/tabs")),
        (to_string("close_tab"), Json::string("DELETE /api/tabs/{id}")),
        (to_string("activate_tab"), Json::string("POST /api/tabs/{id}/activate")),
        (to_string("screenshot"), Json::string("POST /api/screenshot")),
        (to_string("create_baseline"), Json::string("POST /api/visual/baseline")),
        (to_string("run_visual_test"), Json::string("POST /api/visual/test")),
        (to_string("websocket"), Json::string("WS /ws")),
    ];
    let ghost ev = eps@;
    let endpoints = Json::object(eps);
    assert(crate::json::members_view(ev) =~= endpoints_v().map_values(
        |e: (Seq<char>, Seq<char>)| (e.0, JsonV::Str(e.1)),
    ));
    let ghost cv = capabilities@;
    let ghost epv = endpoints@;
    let fields = vec![
        (to_string("name"), Json::string("Tinker")),
        (to_string("version"), Json::string(SERVER_VERSION)),
        (to_string("engine"), Json::string("WebView")),
        (to_string("capabilities"), capabilities),
        (to_string("endpoints"), endpoints),
    ];
    let ghost fv = fields@;
    let info = Json::object(fields);
    assert(crate::json::members_view(fv) =~= browser_info_v()->Object_0);
    ApiResponse::success(info)
}

} // verus!
