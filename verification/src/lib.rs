//! Tinker browser library: tab and history management, console and network
//! monitoring, recording and replay, and the command surface of the browser.

pub mod browser;
pub mod platform;
pub mod text;
pub mod json;
pub mod event;
pub mod mcp;
pub mod api;
pub mod templates;
pub mod utils;
pub mod ipc;
pub(crate) mod clock;
