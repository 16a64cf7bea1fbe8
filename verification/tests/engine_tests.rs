use tinker::browser::engine::{
    is_left_to_window, BrowserEngine, Effect, HeadlessStep, KeyInput, WebViewError, WindowInput,
};
use tinker::browser::replay::{BrowserConfig, EventRecord, Recording, RecordingMetadata, RECORDING_VERSION};
use tinker::browser::keyboard::ModifiersState;
use tinker::browser::session::{SavedTab, Session};
use tinker::event::{BrowserCommand, BrowserEvent};
use tinker::json::Json;

fn engine_with_views() -> BrowserEngine {
    let mut engine = BrowserEngine::new(false, None);
    engine.attach_views(true, true);
    engine
}

fn published(effects: &[Effect]) -> Vec<&BrowserEvent> {
    effects.iter().filter_map(|e| if let Effect::Publish(ev) = e { Some(ev) } else { None }).collect()
}

#[test]
fn the_first_tab_is_shown_and_announced() {
    let mut engine = engine_with_views();
    assert_eq!(engine.create_tab("https://a.example").unwrap(), 0);
    let effects = engine.take_effects();
    assert!(matches!(&effects[0], Effect::TabBarUrl { id: 0, url } if url == "https://a.example"));
    assert!(matches!(&effects[1], Effect::Publish(BrowserEvent::TabCreated { id: 0, .. })));
    assert!(matches!(&effects[2], Effect::LoadUrl(u) if u == "https://a.example"));
    assert!(matches!(&effects[3], Effect::TabBarUrl { id: 0, .. }));
    assert!(matches!(&effects[4], Effect::TabBarTitle { id: 0, title } if title.is_empty()));
    assert!(matches!(&effects[5], Effect::Publish(BrowserEvent::TabActivated { id: 0 })));
    assert_eq!(effects.len(), 6);
    engine.create_tab("https://b.example").unwrap();
    let effects = engine.take_effects();
    assert_eq!(effects.len(), 2);
    assert_eq!(engine.get_active_tab().unwrap(), "https://b.example");
}

#[test]
fn navigating_tells_the_page_and_records_history() {
    let mut engine = engine_with_views();
    engine.create_tab("https://a.example").unwrap();
    engine.take_effects();
    engine.navigate("https://b.example").unwrap();
    let effects = engine.take_effects();
    assert!(matches!(&effects[0], Effect::Publish(BrowserEvent::TabUrlChanged { id: 0, url }) if url == "https://b.example"));
    assert!(matches!(&effects[1], Effect::EvaluateScript(s)
        if s == "window.ipc.handleMessage('{\"type\":\"navigate\",\"url\":\"https://b.example\"}')"));
    assert!(matches!(&effects[2], Effect::LoadUrl(u) if u == "https://b.example"));
    assert!(matches!(&effects[3], Effect::Publish(BrowserEvent::Navigation { url }) if url == "https://b.example"));
    assert_eq!(engine.go_back().unwrap(), Some("https://a.example".to_string()));
    assert_eq!(engine.go_forward().unwrap(), Some("https://b.example".to_string()));
    assert_eq!(engine.go_forward().unwrap(), None);
}

#[test]
fn closing_the_active_tab_switches_to_the_first_other() {
    let mut engine = engine_with_views();
    engine.create_tab("https://a.example").unwrap();
    engine.create_tab("https://b.example").unwrap();
    engine.take_effects();
    engine.close_tab(1).unwrap();
    let effects = engine.take_effects();
    let events = published(&effects);
    assert!(matches!(events[0], BrowserEvent::TabClosed { id: 1 }));
    assert!(matches!(events[1], BrowserEvent::TabActivated { id: 0 }));
    assert_eq!(engine.get_active_tab().unwrap(), "https://a.example");
    let err = engine.close_tab(0).unwrap_err();
    assert!(matches!(err, WebViewError::TabError(ref m) if m == "Tab not found"));
    assert_eq!(err.to_string(), "Tab operation failed: Tab not found");
    let err = engine.switch_to_tab(9).unwrap_err();
    assert_eq!(err.to_string(), "Tab operation failed: Failed to switch to tab 9");
}

#[test]
fn page_messages_update_the_active_tab() {
    let mut engine = engine_with_views();
    engine.create_tab("https://a.example").unwrap();
    engine.take_effects();
    let msg = Json::object(vec![
        ("type".to_string(), Json::string("titleChanged")),
        ("title".to_string(), Json::string("Hello")),
    ]);
    engine.handle_ipc_message(&msg).unwrap();
    let effects = engine.take_effects();
    let events = published(&effects);
    assert!(matches!(events[0], BrowserEvent::TabTitleChanged { id: 0, title } if title == "Hello"));
    assert!(matches!(events[1], BrowserEvent::TitleChanged { title } if title == "Hello"));
    assert_eq!(engine.save_session().tabs[0].title, "Hello");
    let msg = Json::object(vec![("type".to_string(), Json::string("unknown"))]);
    engine.handle_ipc_message(&msg).unwrap();
    assert!(engine.take_effects().is_empty());
}

#[test]
fn key_presses_run_their_commands() {
    let mut engine = engine_with_views();
    engine.create_tab("https://a.example").unwrap();
    let ctrl = |key: KeyInput| WindowInput::KeyboardInput {
        pressed: true,
        repeat: false,
        key,
        modifiers: ModifiersState::CONTROL(),
    };
    let plain = |key: KeyInput| WindowInput::KeyboardInput {
        pressed: true,
        repeat: false,
        key,
        modifiers: ModifiersState { alt: false, ctrl: false, shift: false, meta: false },
    };
    engine.handle_window_event(&ctrl(KeyInput::Character("T".to_string()))).unwrap();
    assert_eq!(engine.get_active_tab().unwrap(), "about:blank");
    // a plain t types; only Ctrl+T opens a tab
    engine.handle_window_event(&plain(KeyInput::Character("t".to_string()))).unwrap();
    assert_eq!(engine.save_session().tabs.len(), 2);
    // Ctrl+Tab moves to the next tab, from the last back to the first
    engine.handle_window_event(&ctrl(KeyInput::Tab)).unwrap();
    assert_eq!(engine.get_active_tab().unwrap(), "https://a.example");
    engine.handle_window_event(&ctrl(KeyInput::Tab)).unwrap();
    assert_eq!(engine.get_active_tab().unwrap(), "about:blank");
    engine.handle_window_event(&plain(KeyInput::Tab)).unwrap();
    assert_eq!(engine.get_active_tab().unwrap(), "about:blank");
    engine.handle_window_event(&WindowInput::KeyboardInput {
        pressed: true,
        repeat: true,
        key: KeyInput::Character("t".to_string()),
        modifiers: ModifiersState::CONTROL(),
    })
    .unwrap();
    assert_eq!(engine.save_session().tabs.len(), 2);
    engine.handle_window_event(&plain(KeyInput::Character("w".to_string()))).unwrap();
    assert_eq!(engine.save_session().tabs.len(), 2);
    engine.handle_window_event(&ctrl(KeyInput::Character("w".to_string()))).unwrap();
    assert_eq!(engine.save_session().tabs.len(), 1);
    engine.take_effects();
    engine.handle_window_event(&WindowInput::Resized { width: 800, height: 600 }).unwrap();
    let effects = engine.take_effects();
    assert!(matches!(effects[0], Effect::LayoutTabBar { width: 800 }));
    assert!(matches!(effects[1], Effect::SetContentBounds { x: 0, y: 40, width: 800, height: 560 }));
}

#[test]
fn window_commands_are_handed_back() {
    let mut engine = engine_with_views();
    let cmd = BrowserCommand::TakeScreenshot { options: None };
    assert!(is_left_to_window(&cmd));
    assert!(matches!(engine.handle_command(cmd), Ok(Some(BrowserCommand::TakeScreenshot { .. }))));
    let cmd = BrowserCommand::CreateTab { url: "https://a.example".to_string() };
    assert!(matches!(engine.handle_command(cmd), Ok(None)));
    assert!(matches!(engine.handle_command(BrowserCommand::CloseTab { id: 5 }), Err(WebViewError::TabError(_))));
}

#[test]
fn console_logs_are_published_in_order() {
    let mut engine = engine_with_views();
    engine.handle_command(BrowserCommand::ClearConsoleLogs).unwrap();
    let effects = engine.take_effects();
    assert!(matches!(published(&effects)[0], BrowserEvent::ConsoleCleared));
    engine.handle_command(BrowserCommand::GetConsoleLogs { level: Some("error".to_string()) }).unwrap();
    assert!(engine.take_effects().is_empty());
}

#[test]
fn recording_through_the_engine() {
    let mut engine = BrowserEngine::new(true, None);
    engine.start_recording("r".to_string(), "https://a.example".to_string()).unwrap();
    engine.create_tab("https://a.example").unwrap();
    assert!(engine.get_recording().unwrap().events.len() >= 2);
    engine.stop_recording().unwrap();
    assert_eq!(engine.stop_recording(), Err("No active recording".to_string()));
}

#[test]
fn headless_runs_prepare_a_tab_and_finish_without_playback() {
    let mut engine = BrowserEngine::new(true, Some("https://start.example".to_string()));
    engine.prepare_headless().unwrap();
    assert_eq!(engine.get_active_tab().unwrap(), "https://start.example");
    assert!(matches!(engine.headless_step(true, 0), HeadlessStep::Finished));
}

#[test]
fn sessions_restore_through_the_engine() {
    let mut engine = engine_with_views();
    let session = Session {
        tabs: vec![
            SavedTab { url: "https://a.example".to_string(), title: "A".to_string() },
            SavedTab { url: "https://b.example".to_string(), title: String::new() },
        ],
        active_index: 0,
    };
    engine.restore_session(&session).unwrap();
    let saved = engine.save_session();
    assert_eq!(saved.tabs.len(), 2);
    assert_eq!(saved.tabs[0].title, "A");
    assert_eq!(saved.active_index, 0);
}

#[test]
fn page_queries_need_a_view() {
    let engine = BrowserEngine::new(true, None);
    assert_eq!(engine.execute_javascript("1"), Err("No content view available".to_string()));
    let engine = engine_with_views();
    assert_eq!(engine.execute_javascript("1"), Ok("{}".to_string()));
    let info = engine.get_page_info().unwrap();
    assert_eq!(info.get("title").unwrap().as_str(), Some("Mock Page Title"));
}

fn replay_of(events: Vec<BrowserEvent>) -> Recording {
    let count = events.len();
    Recording {
        version: RECORDING_VERSION.to_string(),
        metadata: RecordingMetadata {
            id: "r".to_string(),
            name: "r".to_string(),
            description: None,
            created_at: 0,
            modified_at: 0,
            duration_ms: 0,
            event_count: count,
            start_url: "https://start.example".to_string(),
            browser_config: BrowserConfig {
                viewport_width: 1920,
                viewport_height: 1080,
                user_agent: None,
                javascript_enabled: true,
                custom: Json::object(vec![]),
            },
            tags: Vec::new(),
            custom: Json::object(vec![]),
        },
        events: events.into_iter().map(|event| EventRecord { timestamp_ms: 0, event, metadata: None }).collect(),
        snapshots: Vec::new(),
    }
}

#[test]
fn a_headless_step_replays_the_next_event() {
    let mut engine = BrowserEngine::new(true, Some("https://start.example".to_string()));
    engine.prepare_headless().unwrap();
    engine.load_recording(
        replay_of(vec![
            BrowserEvent::Navigation { url: "https://b.example".to_string() },
            BrowserEvent::TabCreated { id: 7, url: "https://c.example".to_string() },
        ]),
        "replay.json",
    );
    engine.start_replay().unwrap();
    assert!(matches!(engine.headless_step(false, 0), HeadlessStep::Wait(1)));
    assert_eq!(engine.get_active_tab().unwrap(), "https://start.example");
    assert!(matches!(engine.headless_step(true, 0), HeadlessStep::Ran(Ok(()))));
    assert_eq!(engine.player().get_current_index(), 1);
    assert_eq!(engine.get_active_tab().unwrap(), "https://b.example");
    assert!(matches!(engine.headless_step(true, 0), HeadlessStep::Ran(Ok(()))));
    assert_eq!(engine.player().get_current_index(), 2);
    assert_eq!(engine.save_session().tabs.len(), 2);
}

#[test]
fn an_assertion_marks_the_last_recorded_event() {
    let mut engine = BrowserEngine::new(true, None);
    engine.start_recording("r".to_string(), "https://a.example".to_string()).unwrap();
    engine.create_tab("https://a.example").unwrap();
    let before = engine.get_recording().unwrap().events.len();
    engine.add_recording_assertion(Json::string("ok"), Some("loaded".to_string())).unwrap();
    let recording = engine.get_recording().unwrap();
    assert_eq!(recording.events.len(), before);
    let meta = recording.events[before - 1].metadata.as_ref().unwrap();
    assert!(meta.is_assertion);
    assert_eq!(meta.description.as_deref(), Some("loaded"));
    assert_eq!(meta.tags, vec!["assertion".to_string()]);
}

#[test]
fn page_messages_enter_the_event_history() {
    let mut engine = engine_with_views();
    engine.create_tab("https://a.example").unwrap();
    let msg = Json::object(vec![
        ("type".to_string(), Json::string("titleChanged")),
        ("title".to_string(), Json::string("T1")),
    ]);
    engine.handle_ipc_message(&msg).unwrap();
    let history = engine.event_viewer().get_events();
    let n = history.len();
    assert!(matches!(&history[n - 2].event, BrowserEvent::TabTitleChanged { id: 0, title } if title == "T1"));
    assert!(matches!(&history[n - 1].event, BrowserEvent::TitleChanged { title } if title == "T1"));
}

#[test]
fn tab_commands_return_the_tab_error() {
    let mut engine = BrowserEngine::new(true, None);
    engine.handle_command(BrowserCommand::CreateTab { url: "https://a.com".to_string() }).unwrap();
    engine.handle_command(BrowserCommand::CreateTab { url: "https://b.com".to_string() }).unwrap();
    let err = engine.handle_command(BrowserCommand::SwitchTab { id: 7 }).unwrap_err();
    assert!(matches!(&err, WebViewError::TabError(m) if m == "Failed to switch to tab 7"));
    assert_eq!(engine.get_active_tab(), Some("https://b.com".to_string()));
    let err = engine.handle_command(BrowserCommand::CloseTab { id: 7 }).unwrap_err();
    assert!(matches!(&err, WebViewError::TabError(m) if m == "Tab not found"));
    assert_eq!(engine.save_session().tabs.len(), 2);
}

#[test]
fn recorded_commands_reach_the_recording() {
    let mut engine = BrowserEngine::new(true, None);
    engine.start_recording("r".to_string(), "https://a.example".to_string()).unwrap();
    let before = engine.get_recording().unwrap().events.len();
    engine
        .handle_command(BrowserCommand::RecordEvent { event: BrowserEvent::TitleChanged { title: "x".to_string() } })
        .unwrap();
    let recording = engine.get_recording().unwrap();
    assert_eq!(recording.events.len(), before + 1);
    assert!(matches!(&recording.events[before].event, BrowserEvent::TitleChanged { title } if title == "x"));
    engine
        .handle_command(BrowserCommand::AddRecordingAssertion {
            expected_state: Json::string("ok"),
            description: None,
        })
        .unwrap();
    let recording = engine.get_recording().unwrap();
    assert!(recording.events[before].metadata.as_ref().unwrap().is_assertion);
}

#[test]
fn stepping_forward_records_the_event_played() {
    let mut engine = BrowserEngine::new(true, None);
    engine.load_recording(
        replay_of(vec![BrowserEvent::TitleChanged { title: "step".to_string() }]),
        "replay.json",
    );
    engine.start_recording("r".to_string(), "https://a.example".to_string()).unwrap();
    let before = engine.get_recording().unwrap().events.len();
    engine.handle_command(BrowserCommand::StepForward).unwrap();
    assert_eq!(engine.player().get_current_index(), 1);
    let recording = engine.get_recording().unwrap();
    assert_eq!(recording.events.len(), before + 1);
    assert!(matches!(&recording.events[before].event, BrowserEvent::TitleChanged { title } if title == "step"));
}

#[test]
fn measures_record_the_time_between_markers() {
    let mut engine = BrowserEngine::new(true, None);
    engine.add_performance_marker("a".to_string(), None).unwrap();
    engine.add_performance_marker("b".to_string(), None).unwrap();
    assert!(engine.add_performance_measure("m".to_string(), "a".to_string(), "zz".to_string()).is_err());
    engine.add_performance_measure("m".to_string(), "a".to_string(), "b".to_string()).unwrap();
    let measures = engine.performance_monitor().get_measures();
    assert_eq!(measures.len(), 1);
    assert_eq!(measures[0].name, "m");
    assert_eq!(measures[0].start_mark, "a");
    assert_eq!(measures[0].end_mark, "b");
    assert!(measures[0].duration_ms >= 0);
}
