use tinker::browser::console::{ConsoleLevel, ConsoleMessage, ConsoleMonitor, JavaScriptError};
use tinker::browser::error::{BrowserError, NavigationError, TabError, WindowError};
use tinker::browser::inspector::{DOMInspector, ElementSelector};
use tinker::browser::keyboard::{handle_keyboard_input, KeyCode, KeyCommand, ModifiersState};
use tinker::browser::state_manager::{StateManager, TabState, WindowState};
use tinker::platform::common::{WebViewConfig, WindowConfig};
use tinker::utils::{ensure_url_scheme, format_size};

#[test]
fn test_console_monitor_creation() {
    let monitor = ConsoleMonitor::new();
    assert!(!monitor.is_monitoring());
    assert_eq!(monitor.message_count(), 0);
    assert_eq!(monitor.error_count(), 0);
}

#[test]
fn test_start_stop_monitoring() {
    let mut monitor = ConsoleMonitor::new();
    assert!(!monitor.is_monitoring());
    monitor.start_monitoring();
    assert!(monitor.is_monitoring());
    monitor.stop_monitoring();
    assert!(!monitor.is_monitoring());
}

#[test]
fn test_add_message() {
    let mut monitor = ConsoleMonitor::new();
    let message = ConsoleMessage::new(ConsoleLevel::Log, "Test message".to_string(), vec![]);
    monitor.add_message(message);
    assert_eq!(monitor.message_count(), 1);
}

#[test]
fn test_circular_buffer() {
    let mut monitor = ConsoleMonitor::with_capacity(3);
    for i in 0..4 {
        let message = ConsoleMessage::new(ConsoleLevel::Log, format!("Message {}", i), vec![]);
        monitor.add_message(message);
    }
    assert_eq!(monitor.message_count(), 3);
    let messages = monitor.get_messages(None);
    assert_eq!(messages[0].message, "Message 1");
}

#[test]
fn test_filter_by_level() {
    let mut monitor = ConsoleMonitor::new();
    monitor.add_message(ConsoleMessage::new(ConsoleLevel::Log, "Log message".to_string(), vec![]));
    monitor.add_message(ConsoleMessage::new(ConsoleLevel::Error, "Error message".to_string(), vec![]));
    let errors = monitor.get_messages(Some(ConsoleLevel::Error));
    assert_eq!(errors.len(), 1);
    assert_eq!(errors[0].message, "Error message");
}

#[test]
fn test_set_filter_level() {
    let mut monitor = ConsoleMonitor::new();
    monitor.set_filter(Some(ConsoleLevel::Warn));
    monitor.add_message(ConsoleMessage::new(ConsoleLevel::Log, "Log message".to_string(), vec![]));
    monitor.add_message(ConsoleMessage::new(ConsoleLevel::Warn, "Warn message".to_string(), vec![]));
    monitor.add_message(ConsoleMessage::new(ConsoleLevel::Error, "Error message".to_string(), vec![]));
    assert_eq!(monitor.message_count(), 2);
}

#[test]
fn test_clear() {
    let mut monitor = ConsoleMonitor::new();
    monitor.add_message(ConsoleMessage::new(ConsoleLevel::Log, "Message".to_string(), vec![]));
    monitor.add_error(JavaScriptError::new(
        "Error".to_string(),
        "Stack".to_string(),
        "file.js".to_string(),
        10,
        5,
        "Error".to_string(),
    ));
    assert_eq!(monitor.message_count(), 1);
    assert_eq!(monitor.error_count(), 1);
    monitor.clear();
    assert_eq!(monitor.message_count(), 0);
    assert_eq!(monitor.error_count(), 0);
}

#[test]
fn test_console_level_from_str() {
    assert_eq!(ConsoleLevel::from_str("log"), Some(ConsoleLevel::Log));
    assert_eq!(ConsoleLevel::from_str("ERROR"), Some(ConsoleLevel::Error));
    assert_eq!(ConsoleLevel::from_str("invalid"), None);
}

#[test]
fn test_add_javascript_error() {
    let mut monitor = ConsoleMonitor::new();
    let error = JavaScriptError::new(
        "Test error".to_string(),
        "Stack trace".to_string(),
        "app.js".to_string(),
        42,
        10,
        "TypeError".to_string(),
    );
    monitor.add_error(error);
    assert_eq!(monitor.error_count(), 1);
    let errors = monitor.get_errors();
    assert_eq!(errors[0].message, "Test error");
    assert_eq!(errors[0].filename, "app.js");
    assert_eq!(errors[0].line, 42);
}

#[test]
fn console_level_names_round_trip() {
    for level in [ConsoleLevel::Log, ConsoleLevel::Info, ConsoleLevel::Warn, ConsoleLevel::Error, ConsoleLevel::Debug] {
        assert_eq!(ConsoleLevel::from_str(level.as_str()), Some(level));
    }
    assert_eq!(ConsoleLevel::from_str("Warn"), Some(ConsoleLevel::Warn));
}

#[test]
fn test_browser_error_conversion() {
    let err: BrowserError = "test error".into();
    assert!(matches!(err, BrowserError::Other(_)));
}

#[test]
fn test_window_error() {
    let err = WindowError::Creation("failed to create window".to_string());
    let browser_err: BrowserError = err.into();
    assert!(matches!(browser_err, BrowserError::Window(_)));
}

#[test]
fn test_tab_error() {
    let err = TabError::NotFound { id: 1 };
    let browser_err: BrowserError = err.into();
    assert!(matches!(browser_err, BrowserError::Tab(_)));
}

#[test]
fn test_navigation_error() {
    let err = NavigationError::InvalidUrl("invalid url".to_string());
    let browser_err: BrowserError = err.into();
    assert!(matches!(browser_err, BrowserError::Navigation(_)));
}

#[test]
fn test_element_selector_creation() {
    let css_selector = ElementSelector::css("button.submit");
    assert_eq!(css_selector.css, Some("button.submit".to_string()));
    assert!(css_selector.xpath.is_none());
    let xpath_selector = ElementSelector::xpath("//button[@class='submit']");
    assert_eq!(xpath_selector.xpath, Some("//button[@class='submit']".to_string()));
    assert!(xpath_selector.css.is_none());
}

#[test]
fn test_navigation_shortcuts() {
    let alt = ModifiersState::ALT();
    assert!(matches!(handle_keyboard_input(KeyCode::ArrowLeft, alt), Some(KeyCommand::Back)));
    assert!(matches!(handle_keyboard_input(KeyCode::ArrowRight, alt), Some(KeyCommand::Forward)));
}

#[test]
fn test_tab_shortcuts() {
    let ctrl = ModifiersState::CONTROL();
    assert!(matches!(handle_keyboard_input(KeyCode::KeyT, ctrl), Some(KeyCommand::NewTab)));
    assert!(matches!(handle_keyboard_input(KeyCode::KeyW, ctrl), Some(KeyCommand::CloseTab)));
}

#[test]
fn keyboard_test_tab_switching() {
    let ctrl = ModifiersState::CONTROL();
    assert!(matches!(handle_keyboard_input(KeyCode::Digit1, ctrl), Some(KeyCommand::SwitchTab(0))));
    assert!(matches!(handle_keyboard_input(KeyCode::Digit9, ctrl), Some(KeyCommand::SwitchTab(8))));
}

#[test]
fn shortcuts_need_their_modifier() {
    assert_eq!(handle_keyboard_input(KeyCode::KeyT, ModifiersState::ALT()), None);
    assert_eq!(handle_keyboard_input(KeyCode::ArrowLeft, ModifiersState::CONTROL()), None);
}

#[test]
fn test_state_manager_creation() {
    let manager = StateManager::new();
    let state = manager.get_state().unwrap();
    assert_eq!(state.window_state, WindowState::Initializing);
    assert_eq!(state.active_tab, None);
    assert!(state.tab_states.is_empty());
    assert!(!state.is_incognito);
}

#[test]
fn test_window_state_transition() {
    let mut manager = StateManager::new();
    assert!(manager.set_window_state(WindowState::Ready).is_ok());
    assert!(manager.set_window_state(WindowState::Loading).is_ok());
    assert!(manager.set_window_state(WindowState::Ready).is_ok());
    assert!(manager.set_window_state(WindowState::Error("test".to_string())).is_ok());
    let mut manager = StateManager::new();
    assert!(manager.set_window_state(WindowState::Loading).is_err());
}

#[test]
fn test_tab_state_management() {
    let mut manager = StateManager::new();
    assert!(manager.set_tab_state(1, TabState::Loading).is_ok());
    assert!(manager.set_tab_state(1, TabState::Ready).is_ok());
    assert!(manager.set_active_tab(1).is_ok());
    assert_eq!(manager.get_active_tab().unwrap(), Some(1));
    assert!(manager.set_active_tab(2).is_err());
}

#[test]
fn test_incognito_mode() {
    let mut manager = StateManager::new();
    assert!(!manager.is_incognito().unwrap());
    assert!(manager.set_incognito(true).is_ok());
    assert!(manager.is_incognito().unwrap());
}

#[test]
fn test_window_config_default() {
    let config = WindowConfig::default();
    assert_eq!(config.title, "Tinker Browser");
    assert_eq!(config.width, 1024);
    assert_eq!(config.height, 768);
    assert!(config.resizable);
    assert!(config.decorations);
    assert!(!config.transparent);
    assert!(!config.always_on_top);
}

#[test]
fn test_webview_config_default() {
    let config = WebViewConfig::default();
    assert_eq!(config.url, "about:blank");
    assert!(!config.transparent);
    assert!(config.initialization_scripts.is_empty());
}

#[test]
fn test_ensure_url_scheme() {
    assert_eq!(ensure_url_scheme("example.com"), "https://example.com");
    assert_eq!(ensure_url_scheme("http://example.com"), "http://example.com");
    assert_eq!(ensure_url_scheme("https://example.com"), "https://example.com");
}

#[test]
fn format_size_picks_the_unit() {
    assert_eq!(format_size(512), "512 B");
    assert_eq!(format_size(1536), "1.5 KB");
    assert_eq!(format_size(1024 * 1024), "1.0 MB");
}

#[test]
fn test_inspector_js_generation() {
    let inspector = DOMInspector::new();
    let js = inspector.find_element("{\"css\":\"button\",\"xpath\":null,\"text\":null,\"attributes\":null,\"index\":null}");
    assert!(js.contains("findElement"));
    assert!(js.contains("getElementInfo"));
}
