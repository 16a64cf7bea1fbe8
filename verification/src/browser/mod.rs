//! Browser state and the logic behind the browser engine.

pub mod error;
pub mod inspector;
pub mod js_engine;
pub mod keyboard;
pub mod session;
pub mod state_manager;
pub mod tabs;
pub mod tab_ui;
pub mod console;
pub mod navigation;
pub mod network;
pub mod performance;
pub mod replay;
pub mod native_ui;
pub mod event_viewer;
pub mod menu;
pub mod menu_ui;
pub mod engine;
pub mod visual;
pub mod tab;
