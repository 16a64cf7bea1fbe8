//! The application menu's commands and the script engines it can switch to.

use vstd::prelude::*;

verus! {

/// A command of the application menu.
#[derive(Debug)]
pub enum MenuCommand {
    NewTab,
    NewWindow,
    CloseTab,
    CloseWindow,
    ZoomIn,
    ZoomOut,
    ZoomReset,
    ToggleDevTools,
    StartRecording,
    StopRecording,
    RunTests,
    ViewTestReport,
    SwitchEngine(JsEngine),
    OpenJsConsole,
    OpenPerformanceMonitor,
    OpenDocumentation,
    ReportIssue,
    About,
}

/// A JavaScript engine that the menu can switch to.
#[derive(Debug, Clone, Copy, PartialEq, Eq, Structural)]
pub enum JsEngine {
    V8,
    SpiderMonkey,
    JavaScriptCore,
}

/// The name an engine is shown by.
pub open spec fn engine_label(e: JsEngine) -> Seq<char> {
    match e {
        JsEngine::V8 => "V8"@,
        JsEngine::SpiderMonkey => "SpiderMonkey"@,
        JsEngine::JavaScriptCore => "JavaScriptCore"@,
    }
}

impl JsEngine {
    /// The name the engine is shown by.
    pub fn to_string(&self) -> (res: String)
        ensures
            res@ == engine_label(*self),
    {
        match self {
            JsEngine::V8 => String::from_str("V8"),
            JsEngine::SpiderMonkey => String::from_str("SpiderMonkey"),
            JsEngine::JavaScriptCore => String::from_str("JavaScriptCore"),
        }
    }
}

} // verus!
