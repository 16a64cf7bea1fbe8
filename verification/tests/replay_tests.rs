use tinker::browser::replay::{
    BrowserConfig, EventPlayer, EventRecord, EventRecorder, PlaybackState, Recording, RecordingEditor,
    RecordingMetadata, RECORDING_VERSION,
};
use tinker::event::BrowserEvent;
use tinker::json::Json;

fn sample_recording() -> Recording {
    Recording {
        version: RECORDING_VERSION.to_string(),
        metadata: RecordingMetadata {
            id: "test".to_string(),
            name: "test".to_string(),
            description: None,
            created_at: 0,
            modified_at: 0,
            duration_ms: 1000,
            event_count: 3,
            start_url: "https://example.com".to_string(),
            browser_config: BrowserConfig {
                viewport_width: 1920,
                viewport_height: 1080,
                user_agent: None,
                javascript_enabled: true,
                custom: Json::object(vec![]),
            },
            tags: Vec::new(),
            custom: Json::object(vec![]),
        },
        events: vec![
            EventRecord {
                timestamp_ms: 100,
                event: BrowserEvent::Navigation { url: "https://example.com".to_string() },
                metadata: None,
            },
            EventRecord {
                timestamp_ms: 500,
                event: BrowserEvent::PageLoaded { url: "https://example.com".to_string() },
                metadata: None,
            },
            EventRecord {
                timestamp_ms: 900,
                event: BrowserEvent::TitleChanged { title: "Test".to_string() },
                metadata: None,
            },
        ],
        snapshots: Vec::new(),
    }
}

#[test]
fn test_recorder_lifecycle() {
    let mut recorder = EventRecorder::new();
    recorder.start("test".to_string(), "https://example.com".to_string());
    assert!(recorder.is_recording());
    recorder.pause();
    assert!(!recorder.is_recording());
    recorder.resume();
    assert!(recorder.is_recording());
    recorder.stop();
    assert!(!recorder.is_recording());
}

#[test]
fn test_record_events() {
    let mut recorder = EventRecorder::new();
    recorder.start("test".to_string(), "https://example.com".to_string());
    recorder.record_event(BrowserEvent::Navigation { url: "https://example.com".to_string() });
    recorder.record_event(BrowserEvent::PageLoaded { url: "https://example.com".to_string() });
    let recording = recorder.stop();
    assert!(recording.is_some());
    assert_eq!(recording.unwrap().events.len(), 2);
}

#[test]
fn test_player_lifecycle() {
    let mut player = EventPlayer::new();
    assert_eq!(player.get_state(), PlaybackState::Stopped);
    player.start();
    assert_eq!(player.get_state(), PlaybackState::Playing);
    player.pause();
    assert_eq!(player.get_state(), PlaybackState::Paused);
    player.resume();
    assert_eq!(player.get_state(), PlaybackState::Playing);
    player.stop();
    assert_eq!(player.get_state(), PlaybackState::Stopped);
}

#[test]
fn test_player_seek() {
    let mut player = EventPlayer::new();
    player.load_recording(sample_recording());
    player.seek(500);
    assert_eq!(player.get_current_index(), 1);
}

#[test]
fn test_editor_trim() {
    let mut editor = RecordingEditor::new(sample_recording());
    editor.trim(100, 600);
    let edited = editor.finish();
    assert_eq!(edited.events.len(), 2);
    assert_eq!(edited.events[0].timestamp_ms, 0);
    assert_eq!(edited.events[1].timestamp_ms, 400);
}

#[test]
fn seeking_lands_on_the_first_event_at_or_after_the_time() {
    let mut player = EventPlayer::new();
    player.load_recording(sample_recording());
    player.seek(0);
    assert_eq!(player.get_current_index(), 0);
    player.seek(501);
    assert_eq!(player.get_current_index(), 2);
    player.seek(5000);
    assert_eq!(player.get_current_index(), 3);
}

#[test]
fn stepping_forward_then_back_returns_to_the_same_position() {
    let mut player = EventPlayer::new();
    player.load_recording(sample_recording());
    let first = player.step_forward();
    assert!(matches!(first, Some(BrowserEvent::Navigation { .. })));
    assert_eq!(player.get_current_index(), 1);
    player.step_backward();
    assert_eq!(player.get_current_index(), 0);
    player.step_backward();
    assert_eq!(player.get_current_index(), 0);
}

#[test]
fn paused_recorder_drops_events() {
    let mut recorder = EventRecorder::new();
    recorder.start("r".to_string(), "https://example.com".to_string());
    recorder.pause();
    recorder.record_event(BrowserEvent::PageLoaded { url: "https://example.com".to_string() });
    assert_eq!(recorder.get_event_count(), 0);
    recorder.resume();
    recorder.record_event(BrowserEvent::PageLoaded { url: "https://example.com".to_string() });
    assert_eq!(recorder.get_event_count(), 1);
}

#[test]
fn filtered_kinds_are_not_recorded() {
    let mut recorder = EventRecorder::new();
    recorder.start("r".to_string(), "https://example.com".to_string());
    recorder.add_filter("PageLoaded".to_string());
    recorder.record_event(BrowserEvent::PageLoaded { url: "https://example.com".to_string() });
    recorder.record_event(BrowserEvent::Navigation { url: "https://example.com".to_string() });
    assert_eq!(recorder.get_event_count(), 1);
}

#[test]
fn removing_a_range_shifts_later_events_back() {
    let mut editor = RecordingEditor::new(sample_recording());
    editor.remove_range(400, 600);
    let edited = editor.finish();
    assert_eq!(edited.events.len(), 2);
    assert_eq!(edited.events[0].timestamp_ms, 100);
    assert_eq!(edited.events[1].timestamp_ms, 700);
}

#[test]
fn stopping_without_recording_gives_nothing() {
    let mut recorder = EventRecorder::new();
    assert!(recorder.stop().is_none());
}

fn record(timestamp_ms: u64, title: &str) -> EventRecord {
    EventRecord { timestamp_ms, event: BrowserEvent::TitleChanged { title: title.to_string() }, metadata: None }
}

#[test]
fn inserted_events_go_before_the_first_later_event() {
    let mut editor = RecordingEditor::new(sample_recording());
    editor.insert_events(450, vec![record(0, "a"), record(10, "b")]);
    let edited = editor.finish();
    let times: Vec<u64> = edited.events.iter().map(|e| e.timestamp_ms).collect();
    assert_eq!(times, vec![100, 450, 460, 500, 900]);
    assert_eq!(edited.metadata.event_count, 5);
    assert_eq!(edited.metadata.duration_ms, 1000);
}

#[test]
fn splicing_puts_the_other_recording_in_place() {
    let mut other = sample_recording();
    other.events = vec![record(5, "x")];
    let mut editor = RecordingEditor::new(sample_recording());
    editor.splice(other, 900);
    let edited = editor.finish();
    let times: Vec<u64> = edited.events.iter().map(|e| e.timestamp_ms).collect();
    assert_eq!(times, vec![100, 500, 900, 905]);
    assert!(matches!(&edited.events[3].event, BrowserEvent::TitleChanged { title } if title == "x"));
}

#[test]
fn delays_move_only_later_events() {
    let mut editor = RecordingEditor::new(sample_recording());
    editor.add_delay(500, 250);
    let edited = editor.finish();
    let times: Vec<u64> = edited.events.iter().map(|e| e.timestamp_ms).collect();
    assert_eq!(times, vec![100, 500, 1150]);
    assert_eq!(edited.metadata.duration_ms, 1250);
}

#[test]
fn filtering_leaves_out_the_named_kinds() {
    let mut editor = RecordingEditor::new(sample_recording());
    editor.filter_events(vec!["PageLoaded".to_string(), "TitleChanged".to_string()]);
    let edited = editor.finish();
    assert_eq!(edited.events.len(), 1);
    assert_eq!(edited.metadata.event_count, 1);
    assert!(matches!(&edited.events[0].event, BrowserEvent::Navigation { .. }));
}

#[test]
fn events_in_a_range_are_listed_in_order() {
    let mut player = EventPlayer::new();
    assert!(player.get_events_in_range(0, 1000).is_empty());
    player.load_recording(sample_recording());
    let found: Vec<u64> = player.get_events_in_range(100, 500).iter().map(|e| e.timestamp_ms).collect();
    assert_eq!(found, vec![100, 500]);
    assert!(player.get_events_in_range(950, 2000).is_empty());
}
