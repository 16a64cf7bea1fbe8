//! Configuration of the Windows platform.

use vstd::prelude::*;

verus! {

/// Window settings on Windows.
#[derive(Debug)]
pub struct WindowsConfig {
    pub title: String,
    pub width: u32,
    pub height: u32,
    pub decorations: bool,
    pub transparent: bool,
    pub dpi_aware: bool,
    pub theme: WindowsTheme,
}

/// Color themes on Windows.
#[derive(Debug, Clone, Copy, PartialEq, Eq, Structural)]
pub enum WindowsTheme {
    Light,
    Dark,
    System,
}

impl Default for WindowsConfig {
    /// "Tinker", 1024 by 768, decorated, opaque, aware of the display's DPI and
    /// following the system theme.
    fn default() -> (res: Self)
        ensures
            res.title@ == "Tinker"@,
            res.width == 1024,
            res.height == 768,
            res.decorations,
            !res.transparent,
            res.dpi_aware,
            res.theme == WindowsTheme::System,
    {
        WindowsConfig {
            title: String::from_str("Tinker"),
            width: 1024,
            height: 768,
            decorations: true,
            transparent: false,
            dpi_aware: true,
            theme: WindowsTheme::System,
        }
    }
}

} // verus!
