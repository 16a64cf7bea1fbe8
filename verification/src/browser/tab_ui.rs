//! The tab bar's page: the commands it sends and the scripts that update it.

use vstd::prelude::*;
use crate::json::{Json, JsonV};
use crate::text::{concat, equals, replace, replace_seq, to_string};

verus! {

/// A command from the tab bar page.
#[derive(Debug)]
pub enum TabCommand {
    Create { url: String },
    Close { id: usize },
    Switch { id: usize },
    UpdateUrl { id: usize, url: String },
    UpdateTitle { id: usize, title: String },
    Reload,
    Stop,
    Split,
    DragStart { id: String },
    DragEnd { id: String, target_id: String },
}

/// The string member `key`.
pub open spec fn str_member(j: JsonV, key: Seq<char>) -> Option<Seq<char>> {
    match j.get(key) {
        Some(JsonV::Str(s)) => Some(s),
        _ => None,
    }
}

/// The non-negative integer member `key` that fits a `usize`.
pub open spec fn id_member(j: JsonV, key: Seq<char>) -> Option<usize> {
    match j.get(key) {
        Some(v) => match v.as_u64() {
            Some(n) => if n <= usize::MAX {
                Some(n as usize)
            } else {
                None
            },
            None => None,
        },
        None => None,
    }
}

/// The `type` name of a command.
pub open spec fn command_type(cmd: TabCommand) -> Seq<char> {
    match cmd {
        TabCommand::Create { .. } => "create"@,
        TabCommand::Close { .. } => "close"@,
        TabCommand::Switch { .. } => "switch"@,
        TabCommand::UpdateUrl { .. } => "update_url"@,
        TabCommand::UpdateTitle { .. } => "update_title"@,
        TabCommand::Reload => "reload"@,
        TabCommand::Stop => "stop"@,
        TabCommand::Split => "split"@,
        TabCommand::DragStart { .. } => "drag_start"@,
        TabCommand::DragEnd { .. } => "drag_end"@,
    }
}

/// The fields of `cmd` are those that the message `j` carries beside its type.
pub open spec fn fields_read(j: JsonV, cmd: TabCommand) -> bool {
    match cmd {
        TabCommand::Create { url } => str_member(j, "url"@) == Some(url@),
        TabCommand::Close { id } => id_member(j, "id"@) == Some(id),
        TabCommand::Switch { id } => id_member(j, "id"@) == Some(id),
        TabCommand::UpdateUrl { id, url } => id_member(j, "id"@) == Some(id) && str_member(j, "url"@)
            == Some(url@),
        TabCommand::UpdateTitle { id, title } => id_member(j, "id"@) == Some(id) && str_member(
            j,
            "title"@,
        ) == Some(title@),
        TabCommand::Reload => true,
        TabCommand::Stop => true,
        TabCommand::Split => true,
        TabCommand::DragStart { id } => str_member(j, "id"@) == Some(id@),
        TabCommand::DragEnd { id, target_id } => str_member(j, "id"@) == Some(id@) && str_member(
            j,
            "target_id"@,
        ) == Some(target_id@),
    }
}

/// `cmd` is the command that the message `j` reads as.
pub open spec fn command_read(j: JsonV, cmd: TabCommand) -> bool {
    str_member(j, "type"@) == Some(command_type(cmd)) && fields_read(j, cmd)
}

/// The position of a variant in the list of commands.
spec fn variant_no(cmd: TabCommand) -> int {
    match cmd {
        TabCommand::Create { .. } => 0,
        TabCommand::Close { .. } => 1,
        TabCommand::Switch { .. } => 2,
        TabCommand::UpdateUrl { .. } => 3,
        TabCommand::UpdateTitle { .. } => 4,
        TabCommand::Reload => 5,
        TabCommand::Stop => 6,
        TabCommand::Split => 7,
        TabCommand::DragStart { .. } => 8,
        TabCommand::DragEnd { .. } => 9,
    }
}

/// The position of the command that a `type` name names, or -1.
spec fn variant_named(t: Seq<char>) -> int {
    if t == "create"@ {
        0
    } else if t == "close"@ {
        1
    } else if t == "switch"@ {
        2
    } else if t == "update_url"@ {
        3
    } else if t == "update_title"@ {
        4
    } else if t == "reload"@ {
        5
    } else if t == "stop"@ {
        6
    } else if t == "split"@ {
        7
    } else if t == "drag_start"@ {
        8
    } else if t == "drag_end"@ {
        9
    } else {
        -1
    }
}

/// Each command's type name names that command and no other.
proof fn lemma_type_names_name_their_command()
    ensures
        forall|c: TabCommand| #[trigger] variant_named(command_type(c)) == variant_no(c),
        variant_named("create"@) == 0,
        variant_named("close"@) == 1,
        variant_named("switch"@) == 2,
        variant_named("update_url"@) == 3,
        variant_named("update_title"@) == 4,
        variant_named("reload"@) == 5,
        variant_named("stop"@) == 6,
        variant_named("split"@) == 7,
        variant_named("drag_start"@) == 8,
        variant_named("drag_end"@) == 9,
{
    reveal_strlit("create");
    reveal_strlit("close");
    reveal_strlit("switch");
    reveal_strlit("update_url");
    reveal_strlit("update_title");
    reveal_strlit("reload");
    reveal_strlit("stop");
    reveal_strlit("split");
    reveal_strlit("drag_start");
    reveal_strlit("drag_end");
    assert("create"@[0] != "switch"@[0] && "create"@[0] != "reload"@[0] && "switch"@[0] != "reload"@[0]);
    assert("close"@[1] != "split"@[1]);
    assert("update_url"@[0] != "drag_start"@[0]);
    assert("create"@.len() == 6 && "close"@.len() == 5 && "switch"@.len() == 6);
    assert("update_url"@.len() == 10 && "update_title"@.len() == 12 && "reload"@.len() == 6);
    assert("stop"@.len() == 4 && "split"@.len() == 5 && "drag_start"@.len() == 10);
    assert("drag_end"@.len() == 8);
    assert("update_title"@ != "create"@ && "update_title"@ != "close"@ && "update_title"@ != "switch"@
        && "update_title"@ != "update_url"@);
    assert("stop"@ != "create"@ && "stop"@ != "close"@ && "stop"@ != "switch"@ && "stop"@ != "update_url"@
        && "stop"@ != "update_title"@ && "stop"@ != "reload"@);
    assert(variant_named("create"@) == 0);
    assert(variant_named("close"@) == 1);
    assert(variant_named("switch"@) == 2);
    assert(variant_named("update_url"@) == 3);
    assert(variant_named("update_title"@) == 4);
    assert(variant_named("reload"@) == 5);
    assert(variant_named("stop"@) == 6);
    assert(variant_named("split"@) == 7);
    assert(variant_named("drag_start"@) == 8);
    assert(variant_named("drag_end"@) == 9);
}

fn str_of(j: &Json, key: &str) -> (res: Option<String>)
    ensures
        match res {
            Some(s) => str_member(j@, key@) == Some(s@),
            None => str_member(j@, key@) is None,
        },
{
    match j.get(key) {
        Some(Json::Str(s)) => Some(s.clone()),
        _ => None,
    }
}

fn id_of(j: &Json, key: &str) -> (res: Option<usize>)
    ensures
        res == id_member(j@, key@),
{
    match j.get(key) {
        Some(v) => match v.as_u64() {
            Some(n) => if (n as u128) <= (usize::MAX as u128) {
                Some(n as usize)
            } else {
                None
            },
            None => None,
        },
        None => None,
    }
}

impl TabCommand {
    /// Reads a message of the tab bar page: an object whose `type` names the
    /// command, with its fields beside it; anything else reads as nothing.
    pub fn from_json(j: &Json) -> (res: Option<TabCommand>)
        ensures
            match res {
                Some(c) => command_read(j@, c),
                None => forall|c: TabCommand| !command_read(j@, c),
            },
    {
        let kind = match str_of(j, "type") {
            Some(k) => k,
            None => {
                return None;
            },
        };
        let t = kind.as_str();
        let res = self::read_tab_command(j, t);
        res
    }
}

/// A message whose type is `t` reads only as the command that `t` names.
proof fn lemma_read_names_variant(j: JsonV, t: Seq<char>)
    requires
        str_member(j, "type"@) == Some(t),
    ensures
        forall|c: TabCommand| #[trigger] command_read(j, c) ==> variant_no(c) == variant_named(t),
        variant_named("create"@) == 0,
        variant_named("close"@) == 1,
        variant_named("switch"@) == 2,
        variant_named("update_url"@) == 3,
        variant_named("update_title"@) == 4,
        variant_named("reload"@) == 5,
        variant_named("stop"@) == 6,
        variant_named("split"@) == 7,
        variant_named("drag_start"@) == 8,
        variant_named("drag_end"@) == 9,
{
    lemma_type_names_name_their_command();
    assert forall|c: TabCommand| #[trigger] command_read(j, c) implies variant_no(c) == variant_named(t) by {
        assert(variant_named(command_type(c)) == variant_no(c));
    }
}

fn read_tab_command(j: &Json, t: &str) -> (res: Option<TabCommand>)
    requires
        str_member(j@, "type"@) == Some(t@),
    ensures
        res is Some ==> command_read(j@, res->0),
        res is None ==> forall|c: TabCommand| !command_read(j@, c),
{
    proof {
        lemma_read_names_variant(j@, t@);
    }
    {
        if equals(t, "create") {
            match str_of(j, "url") {
                Some(url) => {
                    let c = TabCommand::Create { url };
                    Some(c)
                },
                None => None,
            }
        } else if equals(t, "close") {
            match id_of(j, "id") {
                Some(id) => Some(TabCommand::Close { id }),
                None => None,
            }
        } else if equals(t, "switch") {
            match id_of(j, "id") {
                Some(id) => {
                    let c = TabCommand::Switch { id };
                    Some(c)
                },
                None => None,
            }
        } else if equals(t, "update_url") {
            match (id_of(j, "id"), str_of(j, "url")) {
                (Some(id), Some(url)) => {
                    let c = TabCommand::UpdateUrl { id, url };
                    Some(c)
                },
                _ => None,
            }
        } else if equals(t, "update_title") {
            match (id_of(j, "id"), str_of(j, "title")) {
                (Some(id), Some(title)) => {
                    let c = TabCommand::UpdateTitle { id, title };
                    Some(c)
                },
                _ => None,
            }
        } else if equals(t, "reload") {
            Some(TabCommand::Reload)
        } else if equals(t, "stop") {
            Some(TabCommand::Stop)
        } else if equals(t, "split") {
            Some(TabCommand::Split)
        } else if equals(t, "drag_start") {
            match str_of(j, "id") {
                Some(id) => {
                    let c = TabCommand::DragStart { id };
                    Some(c)
                },
                None => None,
            }
        } else if equals(t, "drag_end") {
            match (str_of(j, "id"), str_of(j, "target_id")) {
                (Some(id), Some(target_id)) => {
                    let c = TabCommand::DragEnd { id, target_id };
                    Some(c)
                },
                _ => None,
            }
        } else {
            None
        }
    }
}

/// The text of a boolean.
pub open spec fn bool_text(b: bool) -> Seq<char> {
    if b {
        "true"@
    } else {
        "false"@
    }
}

fn bool_str(b: bool) -> (res: &'static str)
    ensures
        res@ == bool_text(b),
{
    if b {
        "true"
    } else {
        "false"
    }
}

/// The script that adds tab `id` to the bar.
pub fn add_tab_script(id: &str) -> (res: String)
    ensures
        res@ == "window.tabBar.addTab('"@ + id@ + "', 'New Tab', 'about:blank');"@,
{
    concat(concat("window.tabBar.addTab('", id).as_str(), "', 'New Tab', 'about:blank');")
}

/// The script that shows `url` in the address bar, its single quotes escaped.
pub fn update_url_script(url: &str) -> (res: String)
    ensures
        res@ == "window.tabBar.updateUrl('"@ + replace_seq(url@, "'"@, "\\'"@) + "');"@,
{
    proof {
        reveal_strlit("'");
    }
    let escaped = replace(url, "'", "\\'");
    concat(concat("window.tabBar.updateUrl('", escaped.as_str()).as_str(), "');")
}

/// The script that enables or disables the back and forward buttons.
pub fn update_navigation_state_script(can_go_back: bool, can_go_forward: bool) -> (res: String)
    ensures
        res@ == "window.tabBar.updateNavigationState("@ + bool_text(can_go_back) + ", "@ + bool_text(
            can_go_forward,
        ) + ");"@,
{
    let mut s = String::from_str("window.tabBar.updateNavigationState(");
    s.append(bool_str(can_go_back));
    s.append(", ");
    s.append(bool_str(can_go_forward));
    s.append(");");
    s
}

/// The script that shows whether the page is loading.
pub fn update_loading_state_script(is_loading: bool) -> (res: String)
    ensures
        res@ == "window.tabBar.updateLoadingState("@ + bool_text(is_loading) + ");"@,
{
    concat(concat("window.tabBar.updateLoadingState(", bool_str(is_loading)).as_str(), ");")
}

/// The JSON strings of `items`, separated by commas.
pub open spec fn json_joined(items: Seq<Seq<char>>) -> Seq<char>
    decreases items.len(),
{
    if items.len() == 0 {
        Seq::empty()
    } else if items.len() == 1 {
        crate::json::json_quoted(items[0])
    } else {
        json_joined(items.drop_last()) + seq![','] + crate::json::json_quoted(items.last())
    }
}

/// The JSON text of a list of strings, as `serde_json::to_string` writes it:
/// the quoted strings between brackets, separated by commas, with no space.
pub open spec fn json_strings_text(items: Seq<Seq<char>>) -> Seq<char> {
    seq!['['] + json_joined(items) + seq![']']
}

/// `serde_json::to_string` of a list of strings: the JSON array of them.
/// Writing strings into memory cannot fail, so its error is not looked at.
#[verifier::external_body]
fn strings_to_json(items: &Vec<String>) -> (res: String)
    ensures
        res@ == json_strings_text(items@.map_values(|i: String| i@)),
{
    match serde_json::to_string(items) {
        Ok(s) => s,
        Err(_) => String::new(),
    }
}

/// The script that puts the tabs in the order of `tab_ids`.
pub fn update_tab_order_script(tab_ids: &Vec<String>) -> (res: Result<String, String>)
    ensures
        res matches Ok(s) && s@ == "window.tabBar.updateTabOrder("@ + json_strings_text(
            tab_ids@.map_values(|i: String| i@),
        ) + ");"@,
{
    let ids = strings_to_json(tab_ids);
    Ok(concat(concat("window.tabBar.updateTabOrder(", ids.as_str()).as_str(), ");"))
}

/// The script that starts dragging tab `id`.
pub fn start_tab_drag_script(id: &str) -> (res: String)
    ensures
        res@ == "window.tabBar.startDrag('"@ + id@ + "');"@,
{
    concat(concat("window.tabBar.startDrag('", id).as_str(), "');")
}

/// The script that ends a drag.
pub const END_TAB_DRAG_SCRIPT: &'static str = "window.tabBar.endDrag();";

} // verus!
