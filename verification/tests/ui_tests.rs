use tinker::browser::event_viewer::{EventViewer, MAX_EVENTS};
use tinker::browser::menu::JsEngine;
use tinker::browser::menu_ui::MenuCommand;
use tinker::browser::native_ui::NativeTabBar;
use tinker::browser::navigation::{ParsedUrl, UrlManager};
use tinker::browser::tab::{Tab, TabAction, TabId, TabMessage};
use tinker::browser::tab_ui::{
    add_tab_script, start_tab_drag_script, update_loading_state_script, update_navigation_state_script,
    update_tab_order_script, update_url_script, TabCommand, END_TAB_DRAG_SCRIPT,
};
use tinker::browser::visual::{
    compare_pixels, join_path, ScreenshotFormat, ScreenshotOptions, ScreenshotResult, VisualTester,
};
use tinker::event::BrowserEvent;
use tinker::json::{Json, Real32};

fn obj(fields: Vec<(&str, &str)>) -> Json {
    Json::object(fields.into_iter().map(|(k, v)| (k.to_string(), Json::string(v))).collect())
}

#[test]
fn test_valid_url_parsing() {
    let url = ParsedUrl::new("https://example.com").unwrap();
    assert!(url.is_secure());
    assert!(!url.is_search());
    assert_eq!(url.original_input(), "https://example.com");
}

#[test]
fn test_url_without_scheme() {
    let url = ParsedUrl::new("example.com").unwrap();
    assert!(url.is_secure());
    assert!(!url.is_search());
    assert_eq!(url.url().scheme(), "https");
}

#[test]
fn test_search_query() {
    let url = ParsedUrl::new("rust programming").unwrap();
    assert!(url.is_secure());
    assert!(url.is_search());
    assert_eq!(url.original_input(), "rust programming");
    assert!(url.display_url().starts_with("🔍"));
}

#[test]
fn test_invalid_url() {
    let result = ParsedUrl::new("http:invalid");
    assert!(result.is_err());
}

#[test]
fn a_scheme_without_slashes_is_read_when_a_host_can_be() {
    let url = ParsedUrl::new("https:example.com").unwrap();
    assert!(url.is_secure());
    assert_eq!(url.url().as_str(), "https://example.com/");
}

#[test]
fn test_custom_search_engine() {
    let mut manager = UrlManager::new();
    assert!(manager.set_search_engine("https://duckduckgo.com/?q={}".to_string()).is_ok());
    assert!(manager.set_search_engine("https://invalid.com".to_string()).is_err());
}

#[test]
fn search_queries_go_to_the_search_engine() {
    let mut manager = UrlManager::new();
    assert_eq!(manager.to_search_url("rust"), "https://www.google.com/search?q=rust");
    assert_eq!(manager.to_search_url("rust lang"), "https://www.google.com/search?q=rust%20lang");
    manager.set_search_engine("https://duckduckgo.com/?q={}".to_string()).unwrap();
    assert_eq!(manager.to_search_url("rust lang"), "https://duckduckgo.com/?q=rust%20lang");
}

#[test]
fn test_native_tab_bar_creation() {
    let tab_bar = NativeTabBar::new();
    assert_eq!(tab_bar.get_height(), 30);
}

#[test]
fn test_tab_management() {
    let mut tab_bar = NativeTabBar::new();
    tab_bar.add_tab(0, "Test Tab");
    tab_bar.set_active_tab(0);
    tab_bar.remove_tab(0);
}

#[test]
fn test_multiple_tabs() {
    let mut tab_bar = NativeTabBar::new();
    tab_bar.add_tab(0, "Tab 1");
    tab_bar.add_tab(1, "Tab 2");
    tab_bar.add_tab(2, "Tab 3");
    tab_bar.set_active_tab(1);
    tab_bar.remove_tab(0);
    tab_bar.remove_tab(2);
}

#[test]
fn test_tab_command_serialization() {
    let create_json = obj(vec![("type", "create"), ("url", "https://example.com")]);
    let create_cmd = TabCommand::from_json(&create_json).unwrap();
    assert!(matches!(create_cmd, TabCommand::Create { url } if url == "https://example.com"));
    let drag_start_json = obj(vec![("type", "drag_start"), ("id", "tab_0")]);
    let drag_start_cmd = TabCommand::from_json(&drag_start_json).unwrap();
    assert!(matches!(drag_start_cmd, TabCommand::DragStart { id } if id == "tab_0"));
    let drag_end_json = obj(vec![("type", "drag_end"), ("id", "tab_0"), ("target_id", "tab_1")]);
    let drag_end_cmd = TabCommand::from_json(&drag_end_json).unwrap();
    assert!(matches!(drag_end_cmd, TabCommand::DragEnd { id, target_id } if id == "tab_0" && target_id == "tab_1"));
}

#[test]
fn tab_commands_need_their_fields() {
    let close = Json::object(vec![
        ("type".to_string(), Json::string("close")),
        ("id".to_string(), Json::Number(tinker::json::JsonNumber::PosInt(3))),
    ]);
    assert!(matches!(TabCommand::from_json(&close), Some(TabCommand::Close { id: 3 })));
    assert!(TabCommand::from_json(&obj(vec![("type", "close")])).is_none());
    assert!(TabCommand::from_json(&obj(vec![("type", "explode")])).is_none());
    assert!(matches!(TabCommand::from_json(&obj(vec![("type", "reload")])), Some(TabCommand::Reload)));
}

#[test]
fn tab_bar_scripts() {
    assert_eq!(add_tab_script("t1"), "window.tabBar.addTab('t1', 'New Tab', 'about:blank');");
    assert_eq!(update_url_script("https://example.com/path's/end"), "window.tabBar.updateUrl('https://example.com/path\\'s/end');");
    assert_eq!(update_navigation_state_script(true, false), "window.tabBar.updateNavigationState(true, false);");
    assert_eq!(update_loading_state_script(false), "window.tabBar.updateLoadingState(false);");
    let ids = vec!["tab_0".to_string(), "tab_1".to_string()];
    assert_eq!(update_tab_order_script(&ids).unwrap(), "window.tabBar.updateTabOrder([\"tab_0\",\"tab_1\"]);");
    assert_eq!(start_tab_drag_script("tab_0"), "window.tabBar.startDrag('tab_0');");
    assert_eq!(END_TAB_DRAG_SCRIPT, "window.tabBar.endDrag();");
}

#[test]
fn test_tab_addition() {
    assert_eq!(add_tab_script("test_tab"), "window.tabBar.addTab('test_tab', 'New Tab', 'about:blank');");
}

#[test]
fn test_url_update() {
    assert_eq!(update_url_script("https://example.com"), "window.tabBar.updateUrl('https://example.com');");
    assert_eq!(update_url_script("https://example.com/path's/end"), "window.tabBar.updateUrl('https://example.com/path\\'s/end');");
}

#[test]
fn test_navigation_state() {
    assert_eq!(update_navigation_state_script(true, false), "window.tabBar.updateNavigationState(true, false);");
    assert_eq!(update_navigation_state_script(false, true), "window.tabBar.updateNavigationState(false, true);");
    assert_eq!(update_navigation_state_script(false, false), "window.tabBar.updateNavigationState(false, false);");
}

#[test]
fn test_loading_state() {
    assert_eq!(update_loading_state_script(true), "window.tabBar.updateLoadingState(true);");
    assert_eq!(update_loading_state_script(false), "window.tabBar.updateLoadingState(false);");
}

#[test]
fn test_tab_order_update() {
    let tab_ids = vec!["tab_0".to_string(), "tab_1".to_string(), "tab_2".to_string()];
    let script = update_tab_order_script(&tab_ids);
    assert!(script.is_ok());
    assert_eq!(script.unwrap(), "window.tabBar.updateTabOrder([\"tab_0\",\"tab_1\",\"tab_2\"]);");
}

#[test]
fn test_drag_operations() {
    assert_eq!(start_tab_drag_script("test_tab"), "window.tabBar.startDrag('test_tab');");
    assert_eq!(END_TAB_DRAG_SCRIPT, "window.tabBar.endDrag();");
}

#[test]
fn menu_messages_read_as_commands() {
    let msg = obj(vec![("type", "MenuCommand"), ("command", "ZoomIn")]);
    assert!(matches!(MenuCommand::from_message(&msg), Some(MenuCommand::ZoomIn)));
    let msg = obj(vec![("type", "MenuCommand"), ("command", "SwitchEngine"), ("param", "V8")]);
    assert!(matches!(MenuCommand::from_message(&msg), Some(MenuCommand::SwitchEngine(e)) if e == "V8"));
    let msg = obj(vec![("type", "MenuCommand"), ("command", "SwitchEngine")]);
    assert!(MenuCommand::from_message(&msg).is_none());
    let msg = obj(vec![("type", "Other"), ("command", "ZoomIn")]);
    assert!(MenuCommand::from_message(&msg).is_none());
    assert_eq!(JsEngine::SpiderMonkey.to_string(), "SpiderMonkey");
}

#[test]
fn test_event_addition() {
    let mut viewer = EventViewer::new();
    viewer.add_event(BrowserEvent::Navigation { url: "https://example.com".to_string() });
    assert_eq!(viewer.get_events().len(), 1);
}

#[test]
fn test_max_events() {
    let mut viewer = EventViewer::new();
    for i in 0..MAX_EVENTS + 10 {
        viewer.add_event(BrowserEvent::Navigation { url: format!("https://example{}.com", i) });
    }
    assert_eq!(viewer.get_events().len(), MAX_EVENTS);
}

#[test]
fn recent_events_come_newest_first() {
    let mut viewer = EventViewer::new();
    viewer.add_event_at(BrowserEvent::TabClosed { id: 1 }, 10);
    viewer.add_event_at(BrowserEvent::TabClosed { id: 2 }, 20);
    viewer.add_event_at(BrowserEvent::TabClosed { id: 3 }, 30);
    let recent = viewer.get_recent_events(2);
    assert_eq!(recent.len(), 2);
    assert_eq!(recent[0].timestamp_ms, 30);
    assert_eq!(recent[1].timestamp_ms, 20);
    viewer.clear();
    assert!(viewer.get_events().is_empty());
}

#[test]
fn test_screenshot_options_default() {
    let options = ScreenshotOptions::default();
    assert!(matches!(options.format, ScreenshotFormat::PNG));
    assert_eq!(options.quality, Some(90));
    assert!(options.area.is_none());
    assert!(!options.include_chrome);
}

#[test]
fn test_pixel_difference() {
    let black = vec![0u8, 0, 0, 255];
    let white = vec![255u8, 255, 255, 255];
    let red = vec![255u8, 0, 0, 255];
    assert_eq!(compare_pixels(&black, &black, 1, 0).0, 0);
    // a difference above half the full scale: sqrt(3 * 255^2) / 510 > 0.5
    assert_eq!(compare_pixels(&black, &white, 1, 65025).0, 1);
    assert_eq!(compare_pixels(&black, &red, 1, 0).0, 1);
}

#[test]
fn differing_pixels_are_red_and_others_dimmed() {
    let a = vec![100u8, 50, 20, 255, 10, 10, 10, 200];
    let b = vec![100u8, 50, 20, 255, 200, 10, 10, 200];
    let (count, diff) = compare_pixels(&a, &b, 2, 100);
    assert_eq!(count, 1);
    assert_eq!(diff, vec![50, 25, 10, 255, 255, 0, 0, 255]);
}

#[test]
fn screenshots_round_trip_through_png() {
    let tester = VisualTester::new("shots".to_string());
    let pixels: Vec<u8> = (0..16u8).flat_map(|i| [i * 10, 0, 255 - i, 255]).collect();
    let shot = tester.capture_from_data(&pixels, 4, 4, ScreenshotOptions::default(), None).unwrap();
    assert_eq!((shot.width, shot.height), (4, 4));
    let same = tester.compare_screenshots(&shot, &shot, 0).unwrap();
    assert_eq!(same.differing_pixels, 0);
    assert_eq!(same.total_pixels, 16);
    assert!(same.diff_image.is_none());
    let (path, bytes) = tester.save_screenshot(&shot, "page").unwrap();
    assert_eq!(path, "shots/page.png");
    assert_eq!(bytes.len(), shot.size);
    let loaded = tester.load_baseline(bytes).unwrap();
    assert_eq!((loaded.width, loaded.height), (4, 4));
}

#[test]
fn too_few_pixels_are_refused() {
    let tester = VisualTester::new("shots".to_string());
    let err = tester.capture_from_data(&[0u8; 8], 2, 2, ScreenshotOptions::default(), None).unwrap_err();
    assert_eq!(err, "Failed to create image buffer from raw data");
}

#[test]
fn cropping_keeps_the_area_inside_the_image() {
    let tester = VisualTester::new("shots".to_string());
    let pixels = vec![7u8; 4 * 4 * 4];
    let mut options = ScreenshotOptions::default();
    options.area = Some(tinker::browser::visual::CaptureArea { x: 3, y: 1, width: 5, height: 2 });
    let shot = tester.capture_from_data(&pixels, 4, 4, options, None).unwrap();
    assert_eq!((shot.width, shot.height), (1, 2));
}

#[test]
fn images_of_different_sizes_are_not_compared() {
    let tester = VisualTester::new("shots".to_string());
    let a = tester.capture_from_data(&[1u8; 16], 2, 2, ScreenshotOptions::default(), None).unwrap();
    let b = tester.capture_from_data(&[1u8; 8], 2, 1, ScreenshotOptions::default(), None).unwrap();
    let err = tester.compare_screenshots(&a, &b, 0).unwrap_err();
    assert_eq!(err, "Images have different dimensions: (2, 2) vs (2, 1)");
}

#[test]
fn baselines_and_paths() {
    let tester = VisualTester::new("shots/".to_string());
    assert_eq!(tester.baseline_path("home"), "shots/baseline_home.png");
    assert_eq!(join_path("dir", "/abs.png"), "/abs.png");
    assert_eq!(join_path("", "a.png"), "a.png");
    let shot = ScreenshotResult {
        data: String::new(),
        width: 0,
        height: 0,
        format: ScreenshotFormat::JPEG,
        size: 0,
        timestamp_ms: 0,
    };
    let (path, bytes) = tester.create_baseline(&shot, "home").unwrap();
    assert_eq!(path, "shots/baseline_home.jpg");
    assert!(bytes.is_empty());
    let (path, _) = tester.save_screenshot(&shot, "x.jpg").unwrap();
    assert_eq!(path, "shots/x.jpg");
}

#[test]
fn tab_history_moves_and_loads() {
    let mut counter = 0u64;
    let id = TabId::new(&mut counter);
    assert_eq!(counter, 1);
    let (mut tab, action) = Tab::new("https://a.example".to_string(), id);
    assert!(matches!(action, TabAction::LoadUrl(u) if u == "https://a.example"));
    assert_eq!(tab.title(), "New Tab");
    assert_eq!(tab.view_text(), "Loading...");
    tab.navigate("https://b.example".to_string());
    let back = tab.update(TabMessage::Back);
    assert!(matches!(back, TabAction::LoadUrl(u) if u == "https://a.example"));
    assert_eq!(tab.url(), "https://a.example");
    assert!(matches!(tab.update(TabMessage::Back), TabAction::LoadUrl(u) if u == "https://a.example"));
    assert!(matches!(tab.update(TabMessage::Load(tinker::browser::tab::Resource::Url("x".to_string()))), TabAction::FetchContent));
    tab.update(TabMessage::LoadError("boom".to_string()));
    assert_eq!(tab.view_text(), "Error: boom");
    tab.update(TabMessage::Progress(Real32 { bits: 0x3F00_0000 }));
    tab.update(TabMessage::Title("A".to_string()));
    assert_eq!(tab.title(), "A");
    assert_eq!(tab.id(), TabId(0));
}

#[test]
fn a_larger_tolerance_finds_no_more_differences() {
    let a = vec![0u8, 0, 0, 255, 10, 10, 10, 255, 100, 100, 100, 255];
    let b = vec![0u8, 0, 0, 255, 20, 10, 10, 255, 200, 100, 100, 255];
    let strict = compare_pixels(&a, &b, 3, 0).0;
    let loose = compare_pixels(&a, &b, 3, 1000).0;
    let looser = compare_pixels(&a, &b, 3, 100000).0;
    assert_eq!((strict, loose, looser), (2, 1, 0));
}
