//! Platform-independent window configuration and platform errors.

pub mod common;
pub mod windows;

use vstd::prelude::*;
use crate::text::concat;

pub use common::{WindowConfig, WebViewConfig};

verus! {

/// Failures of the windowing platform.
#[derive(Debug)]
pub enum PlatformError {
    WindowCreationFailed(String),
    WebViewCreationFailed(String),
    InvalidHandle(String),
    Other(String),
}

/// The human-readable text of a platform error.
pub open spec fn platform_error_text(e: PlatformError) -> Seq<char> {
    match e {
        PlatformError::WindowCreationFailed(m) => "Window creation failed: "@ + m@,
        PlatformError::WebViewCreationFailed(m) => "WebView creation failed: "@ + m@,
        PlatformError::InvalidHandle(m) => "Invalid handle: "@ + m@,
        PlatformError::Other(m) => "Platform error: "@ + m@,
    }
}

impl PlatformError {
    /// The error's text, as the platform layer reports it.
    pub fn describe(&self) -> (res: String)
        ensures
            res@ == platform_error_text(*self),
    {
        match self {
            PlatformError::WindowCreationFailed(m) => concat("Window creation failed: ", m.as_str()),
            PlatformError::WebViewCreationFailed(m) => concat("WebView creation failed: ", m.as_str()),
            PlatformError::InvalidHandle(m) => concat("Invalid handle: ", m.as_str()),
            PlatformError::Other(m) => concat("Platform error: ", m.as_str()),
        }
    }
}

/// Window color themes.
#[derive(Debug, Clone, Copy, PartialEq, Eq, Structural)]
pub enum WindowTheme {
    Light,
    Dark,
    System,
}

} // verus!
