//! The HTML of the browser's own pages: the tab bar and the window chrome.

use vstd::prelude::*;
use crate::text::{before_first, prefix_before, to_string};

verus! {

/// The start of the tab bar page, before its script.
pub const TAB_BAR_PAGE_START: &'static str = r#"
        <!DOCTYPE html>
        <html>
        <head>
            <script type="text/javascript">
                "#;

/// The part of the tab bar page between its script and its head content.
pub const TAB_BAR_PAGE_MIDDLE: &'static str = r#"
            </script>
            "#;

/// The end of the tab bar page, after its head content.
pub const TAB_BAR_PAGE_END: &'static str = r#"
        </head>
        <body>
            <div id="tab-bar">
                <div id="new-tab" onclick="createNewTab()">+</div>
            </div>
        </body>
        </html>
        "#;

/// The tab bar page: the tab bar script, the part of the tab bar markup before
/// its `<body>`, and a tab bar with a new-tab button.
pub fn get_tab_bar_html(tab_bar_js: &str, tab_bar_html: &str) -> (res: String)
    ensures
        res@ == TAB_BAR_PAGE_START@ + tab_bar_js@ + TAB_BAR_PAGE_MIDDLE@ + before_first(tab_bar_html@, "<body>"@)
            + TAB_BAR_PAGE_END@,
{
    let head = prefix_before(tab_bar_html, "<body>");
    let mut s = String::from_str(TAB_BAR_PAGE_START);
    s.append(tab_bar_js);
    s.append(TAB_BAR_PAGE_MIDDLE);
    s.append(head.as_str());
    s.append(TAB_BAR_PAGE_END);
    s
}

/// The window chrome page, as its markup reads.
pub fn get_window_chrome(window_chrome_html: &str) -> (res: String)
    ensures
        res@ == window_chrome_html@,
{
    to_string(window_chrome_html)
}

} // verus!
