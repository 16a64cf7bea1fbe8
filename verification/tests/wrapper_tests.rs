use tinker::browser::state_manager::{window_state_debug, StateManager, WindowState};
use tinker::browser::visual::{ScreenshotOptions, VisualTester};
use tinker::event::broker_address;
use tinker::browser::engine::{BrowserEngine, Effect};
use tinker::json::Real32;

#[test]
fn page_messages_quote_the_address_as_json() {
    let mut engine = BrowserEngine::new(false, None);
    engine.attach_views(true, false);
    engine.create_tab("about:blank").unwrap();
    engine.take_effects();
    engine.navigate("https://x.example/a\"b\\c").unwrap();
    let effects = engine.take_effects();
    let script = effects.iter().find_map(|e| if let Effect::EvaluateScript(s) = e { Some(s.clone()) } else { None });
    assert_eq!(
        script.unwrap(),
        "window.ipc.handleMessage('{\"type\":\"navigate\",\"url\":\"https://x.example/a\\\"b\\\\c\"}')"
    );
}

#[test]
fn debug_text_of_a_state() {
    assert_eq!(window_state_debug(&WindowState::Error("x\"y".to_string())), "Error(\"x\\\"y\")");
    assert_eq!(window_state_debug(&WindowState::Error("boom".to_string())), "Error(\"boom\")");
    assert_eq!(window_state_debug(&WindowState::Ready), "Ready");
}

#[test]
fn refused_transitions_name_both_states() {
    let mut manager = StateManager::new();
    let err = manager.set_window_state(WindowState::Loading).unwrap_err();
    let text = format!("{:?}", err);
    assert!(text.contains("Initializing"));
    assert!(text.contains("Loading"));
}

#[test]
fn scaling_resizes_the_screenshot() {
    let tester = VisualTester::new("shots".to_string());
    let pixels = vec![200u8; 4 * 4 * 4];
    let mut options = ScreenshotOptions::default();
    options.scale_factor = Some(Real32 { bits: 0.5f32.to_bits() });
    let shot = tester.capture_from_data(&pixels, 4, 4, options, Some((2, 2))).unwrap();
    assert_eq!((shot.width, shot.height), (2, 2));
    // a factor of exactly 1 leaves the size alone
    options.scale_factor = Some(Real32 { bits: 1.0f32.to_bits() });
    let shot = tester.capture_from_data(&pixels, 4, 4, options, Some((2, 2))).unwrap();
    assert_eq!((shot.width, shot.height), (4, 4));
}

#[test]
fn broker_addresses_get_their_scheme_and_defaults() {
    let a = broker_address("broker.example:1884", "localhost", 3003);
    assert_eq!(a.broker_url, "mqtt://broker.example:1884");
    assert_eq!(a.host, "broker.example");
    assert_eq!(a.port, 1884);
    let b = broker_address("mqtt://host-only", "localhost", 3003);
    assert_eq!(b.host, "host-only");
    assert_eq!(b.port, 3003);
}
