//! Messages that a browser window's page sends about its tabs.

use vstd::prelude::*;

verus! {

/// A tab message from a window's page.
#[derive(Debug)]
pub enum BrowserMessage {
    CreateTab { id: u32, url: Option<String> },
    SwitchTab { id: u32 },
    CloseTab { id: u32 },
    UpdateUrl { id: u32, url: String },
    UpdateTitle { id: u32, title: String },
}

} // verus!
