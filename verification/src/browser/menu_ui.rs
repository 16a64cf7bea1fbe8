//! The menu bar page: the commands its messages carry.

use vstd::prelude::*;
use crate::json::{Json, JsonV};
use crate::browser::tab_ui::str_member;
use crate::text::equals;

verus! {

/// The height of the menu bar, in pixels.
pub const MENU_BAR_HEIGHT: u32 = 30;

/// A command sent by the menu bar page.
#[derive(Debug)]
pub enum MenuCommand {
    NewTab,
    NewWindow,
    CloseTab,
    CloseWindow,
    ZoomIn,
    ZoomOut,
    ZoomReset,
    ToggleDevTools,
    StartRecording,
    StopRecording,
    RunTests,
    ViewTestReport,
    SwitchEngine(String),
    OpenJsConsole,
    OpenPerformanceMonitor,
    OpenDocumentation,
    ReportIssue,
    About,
}

/// The name a command is sent by.
pub open spec fn menu_name(c: MenuCommand) -> Seq<char> {
    match c {
        MenuCommand::NewTab => "NewTab"@,
        MenuCommand::NewWindow => "NewWindow"@,
        MenuCommand::CloseTab => "CloseTab"@,
        MenuCommand::CloseWindow => "CloseWindow"@,
        MenuCommand::ZoomIn => "ZoomIn"@,
        MenuCommand::ZoomOut => "ZoomOut"@,
        MenuCommand::ZoomReset => "ZoomReset"@,
        MenuCommand::ToggleDevTools => "ToggleDevTools"@,
        MenuCommand::StartRecording => "StartRecording"@,
        MenuCommand::StopRecording => "StopRecording"@,
        MenuCommand::RunTests => "RunTests"@,
        MenuCommand::ViewTestReport => "ViewTestReport"@,
        MenuCommand::SwitchEngine(_) => "SwitchEngine"@,
        MenuCommand::OpenJsConsole => "OpenJsConsole"@,
        MenuCommand::OpenPerformanceMonitor => "OpenPerformanceMonitor"@,
        MenuCommand::OpenDocumentation => "OpenDocumentation"@,
        MenuCommand::ReportIssue => "ReportIssue"@,
        MenuCommand::About => "About"@,
    }
}

/// The message `data` carries the command `c`: its `type` is `MenuCommand`,
/// its `command` names `c`, and an engine switch names the engine in `param`.
pub open spec fn menu_read(data: JsonV, c: MenuCommand) -> bool {
    &&& str_member(data, "type"@) == Some("MenuCommand"@)
    &&& str_member(data, "command"@) == Some(menu_name(c))
    &&& (c matches MenuCommand::SwitchEngine(engine) ==> str_member(data, "param"@) == Some(engine@))
}

/// The switch command's name differs from every other command's name.
proof fn lemma_switch_name_unique(c: MenuCommand)
    requires
        menu_name(c) == "SwitchEngine"@,
    ensures
        c is SwitchEngine,
{
        reveal_strlit("NewTab");
        reveal_strlit("NewWindow");
        reveal_strlit("CloseTab");
        reveal_strlit("CloseWindow");
        reveal_strlit("ZoomIn");
        reveal_strlit("ZoomOut");
        reveal_strlit("ZoomReset");
        reveal_strlit("ToggleDevTools");
        reveal_strlit("StartRecording");
        reveal_strlit("StopRecording");
        reveal_strlit("RunTests");
        reveal_strlit("ViewTestReport");
        reveal_strlit("SwitchEngine");
        reveal_strlit("OpenJsConsole");
        reveal_strlit("OpenPerformanceMonitor");
        reveal_strlit("OpenDocumentation");
        reveal_strlit("ReportIssue");
        reveal_strlit("About");
    assert("NewTab"@.len() == 6);
    assert("NewWindow"@.len() == 9);
    assert("CloseTab"@.len() == 8);
    assert("CloseWindow"@.len() == 11);
    assert("ZoomIn"@.len() == 6);
    assert("ZoomOut"@.len() == 7);
    assert("ZoomReset"@.len() == 9);
    assert("ToggleDevTools"@.len() == 14);
    assert("StartRecording"@.len() == 14);
    assert("StopRecording"@.len() == 13);
    assert("RunTests"@.len() == 8);
    assert("ViewTestReport"@.len() == 14);
    assert("SwitchEngine"@.len() == 12);
    assert("OpenJsConsole"@.len() == 13);
    assert("OpenPerformanceMonitor"@.len() == 22);
    assert("OpenDocumentation"@.len() == 17);
    assert("ReportIssue"@.len() == 11);
    assert("About"@.len() == 5);
}

impl MenuCommand {
    /// The command that a message of the menu bar page carries, if any.
    pub fn from_message(data: &Json) -> (res: Option<MenuCommand>)
        ensures
            match res {
                Some(c) => menu_read(data@, c),
                None => forall|c: MenuCommand| !menu_read(data@, c),
            },
    {
        let kind = match data.get("type") {
            Some(Json::Str(k)) => k,
            _ => {
                return None;
            },
        };
        if !equals(kind.as_str(), "MenuCommand") {
            return None;
        }
        let cmd = match data.get("command") {
            Some(Json::Str(c)) => c.as_str(),
            _ => {
                return None;
            },
        };
        let res = {
        if equals(cmd, "NewTab") {
                Some(MenuCommand::NewTab)
            } else if equals(cmd, "NewWindow") {
                Some(MenuCommand::NewWindow)
            } else if equals(cmd, "CloseTab") {
                Some(MenuCommand::CloseTab)
            } else if equals(cmd, "CloseWindow") {
                Some(MenuCommand::CloseWindow)
            } else if equals(cmd, "ZoomIn") {
                Some(MenuCommand::ZoomIn)
            } else if equals(cmd, "ZoomOut") {
                Some(MenuCommand::ZoomOut)
            } else if equals(cmd, "ZoomReset") {
                Some(MenuCommand::ZoomReset)
            } else if equals(cmd, "ToggleDevTools") {
                Some(MenuCommand::ToggleDevTools)
            } else if equals(cmd, "StartRecording") {
                Some(MenuCommand::StartRecording)
            } else if equals(cmd, "StopRecording") {
                Some(MenuCommand::StopRecording)
            } else if equals(cmd, "RunTests") {
                Some(MenuCommand::RunTests)
            } else if equals(cmd, "ViewTestReport") {
                Some(MenuCommand::ViewTestReport)
            } else if equals(cmd, "SwitchEngine") {
                match data.get("param") {
                    Some(Json::Str(engine)) => Some(MenuCommand::SwitchEngine(engine.clone())),
                    _ => None,
                }
            } else if equals(cmd, "OpenJsConsole") {
                Some(MenuCommand::OpenJsConsole)
            } else if equals(cmd, "OpenPerformanceMonitor") {
                Some(MenuCommand::OpenPerformanceMonitor)
            } else if equals(cmd, "OpenDocumentation") {
                Some(MenuCommand::OpenDocumentation)
            } else if equals(cmd, "ReportIssue") {
                Some(MenuCommand::ReportIssue)
            } else if equals(cmd, "About") {
                Some(MenuCommand::About)
            } else {
                None
            }
        };
        proof {
            if res is None {
                assert forall|c: MenuCommand| !menu_read(data@, c) by {
                    if menu_read(data@, c) && menu_name(c) == "SwitchEngine"@ {
                        lemma_switch_name_unique(c);
                    }
                }
            }
        }
        res
    }
}

} // verus!
