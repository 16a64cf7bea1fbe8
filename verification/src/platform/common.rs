use vstd::prelude::*;

verus! {

/// Window configuration shared by all platforms.
#[derive(Debug)]
pub struct WindowConfig {
    pub title: String,
    pub width: u32,
    pub height: u32,
    pub resizable: bool,
    pub decorations: bool,
    pub transparent: bool,
    pub always_on_top: bool,
}

impl Clone for WindowConfig {
    fn clone(&self) -> (res: Self)
        ensures
            res.title@ == self.title@,
            res.width == self.width,
            res.height == self.height,
            res.resizable == self.resizable,
            res.decorations == self.decorations,
            res.transparent == self.transparent,
            res.always_on_top == self.always_on_top,
    {
        WindowConfig {
            title: self.title.clone(),
            width: self.width,
            height: self.height,
            resizable: self.resizable,
            decorations: self.decorations,
            transparent: self.transparent,
            always_on_top: self.always_on_top,
        }
    }
}

/// The default window: "Tinker Browser", 1024 by 768, resizable, decorated,
/// opaque and not kept on top.
pub open spec fn is_default_window_config(c: WindowConfig) -> bool {
    &&& c.title@ == "Tinker Browser"@
    &&& c.width == 1024
    &&& c.height == 768
    &&& c.resizable
    &&& c.decorations
    &&& !c.transparent
    &&& !c.always_on_top
}

impl Default for WindowConfig {
    fn default() -> (res: Self)
        ensures
            is_default_window_config(res),
    {
        WindowConfig {
            title: String::from_str("Tinker Browser"),
            width: 1024,
            height: 768,
            resizable: true,
            decorations: true,
            transparent: false,
            always_on_top: false,
        }
    }
}

/// Web view configuration shared by all platforms.
#[derive(Debug)]
pub struct WebViewConfig {
    pub url: String,
    pub transparent: bool,
    pub initialization_scripts: Vec<String>,
}

/// The default web view: on "about:blank", opaque, without scripts.
pub open spec fn is_default_webview_config(c: WebViewConfig) -> bool {
    &&& c.url@ == "about:blank"@
    &&& !c.transparent
    &&& c.initialization_scripts@.len() == 0
}

impl Default for WebViewConfig {
    fn default() -> (res: Self)
        ensures
            is_default_webview_config(res),
    {
        WebViewConfig {
            url: String::from_str("about:blank"),
            transparent: false,
            initialization_scripts: Vec::new(),
        }
    }
}

/// The default window configuration.
pub fn get_default_window_config() -> (res: WindowConfig)
    ensures
        is_default_window_config(res),
{
    WindowConfig::default()
}

/// The default web view configuration.
pub fn get_default_webview_config() -> (res: WebViewConfig)
    ensures
        is_default_webview_config(res),
{
    WebViewConfig::default()
}

} // verus!
