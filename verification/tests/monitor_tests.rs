use tinker::browser::network::{NetworkEventType, NetworkMonitor, NetworkRequest, NetworkResponse};
use tinker::browser::performance::{MemoryMetrics, NavigationTiming, PerformanceMonitor};

fn request(id: &str, url: &str, timestamp: u64) -> NetworkRequest {
    NetworkRequest {
        id: id.to_string(),
        method: "GET".to_string(),
        url: url.to_string(),
        headers: Vec::new(),
        body: None,
        timestamp,
        initiator: "fetch".to_string(),
        resource_type: "xhr".to_string(),
        blocked: false,
    }
}

#[test]
fn test_network_monitor_creation() {
    let monitor = NetworkMonitor::new();
    assert!(monitor.is_enabled());
    assert_eq!(monitor.get_stats().total_requests, 0);
}

#[test]
fn test_request_recording() {
    let mut monitor = NetworkMonitor::new();
    monitor.record_request(request("test_123", "https://example.com", 1234567890)).unwrap();
    assert_eq!(monitor.get_stats().total_requests, 1);
    assert_eq!(monitor.request_count(), 1);
}

#[test]
fn a_response_reports_its_time_and_counts_its_bytes() {
    let mut monitor = NetworkMonitor::new();
    monitor.record_request(request("r1", "https://example.com/a", 1000)).unwrap();
    let response = NetworkResponse {
        request_id: "r1".to_string(),
        status_code: 200,
        status_text: "OK".to_string(),
        headers: Vec::new(),
        body: None,
        timestamp: 1250,
        size: 512,
        from_cache: false,
        mime_type: "text/html".to_string(),
    };
    assert_eq!(monitor.record_response(response), Ok(Some(250)));
    assert_eq!(monitor.get_stats().total_bytes, 512);
    assert_eq!(monitor.get_stats().fastest_response, 250);
    assert_eq!(monitor.get_stats().slowest_response, 250);
}

#[test]
fn a_response_to_an_unknown_request_is_ignored() {
    let mut monitor = NetworkMonitor::new();
    let response = NetworkResponse {
        request_id: "nope".to_string(),
        status_code: 404,
        status_text: "Not Found".to_string(),
        headers: Vec::new(),
        body: None,
        timestamp: 10,
        size: 1,
        from_cache: false,
        mime_type: "text/plain".to_string(),
    };
    assert_eq!(monitor.record_response(response), Ok(None));
    assert_eq!(monitor.get_stats().total_bytes, 0);
}

#[test]
fn a_stopped_monitor_records_nothing() {
    let mut monitor = NetworkMonitor::new();
    monitor.stop_monitoring();
    monitor.record_request(request("r1", "https://example.com", 1)).unwrap();
    assert_eq!(monitor.get_stats().total_requests, 0);
    assert_eq!(monitor.request_count(), 0);
}

#[test]
fn test_memory_metrics_percentage() {
    let metrics = MemoryMetrics {
        js_heap_size_limit: 1000,
        total_js_heap_size: 900,
        used_js_heap_size: 850,
        dom_node_count: 100,
        event_listener_count: 50,
        detached_node_count: 5,
        timestamp: 0,
    };
    assert!(metrics.is_high_memory_usage());
}

#[test]
fn memory_at_exactly_eighty_percent_is_not_high() {
    let metrics = MemoryMetrics {
        js_heap_size_limit: 1000,
        total_js_heap_size: 900,
        used_js_heap_size: 800,
        dom_node_count: 0,
        event_listener_count: 0,
        detached_node_count: 0,
        timestamp: 0,
    };
    assert!(!metrics.is_high_memory_usage());
}

#[test]
fn test_performance_monitor() {
    let mut monitor = PerformanceMonitor::new();
    assert!(!monitor.is_monitoring());
    monitor.start_monitoring();
    assert!(monitor.is_monitoring());
    monitor.add_marker_at("start".to_string(), None, 1000);
    monitor.add_marker_at("end".to_string(), None, 1010);
    let result = monitor.add_measure("test_measure".to_string(), "start".to_string(), "end".to_string());
    assert!(result.is_ok());
    assert_eq!(monitor.get_measures().len(), 1);
    assert_eq!(monitor.get_measures()[0].duration_ms, 10);
}

#[test]
fn a_measure_needs_both_markers() {
    let mut monitor = PerformanceMonitor::new();
    monitor.add_marker_at("start".to_string(), None, 5);
    let result = monitor.add_measure("m".to_string(), "start".to_string(), "missing".to_string());
    assert_eq!(result, Err("End marker 'missing' not found".to_string()));
    let result = monitor.add_measure("m".to_string(), "nope".to_string(), "start".to_string());
    assert_eq!(result, Err("Start marker 'nope' not found".to_string()));
}

#[test]
fn test_js_profiling() {
    let mut monitor = PerformanceMonitor::new();
    let profile_id = monitor.start_js_profile_at("test.js".to_string(), 2000);
    assert_eq!(profile_id, "profile_2000");
    assert!(monitor.get_active_profile().is_some());
    let profile = monitor.stop_js_profile_at(2010);
    assert!(profile.is_some());
    assert!(profile.unwrap().duration_ms > 0);
    assert_eq!(monitor.get_js_profiles().len(), 1);
}

#[test]
fn a_failure_is_logged_and_counted() {
    let mut monitor = NetworkMonitor::new();
    monitor.record_request(request("r1", "https://example.com/a", 1000)).unwrap();
    let before = monitor.get_events().len();
    assert!(monitor.record_failure("r1", "timeout").is_ok());
    assert_eq!(monitor.get_stats().failed_requests, 1);
    let events = monitor.get_events();
    assert_eq!(events.len(), before + 1);
    let last = &events[events.len() - 1];
    assert_eq!(last.event_type, NetworkEventType::RequestFailed);
    assert_eq!(last.error.as_deref(), Some("timeout"));
    assert_eq!(last.request.as_ref().map(|r| r.id.as_str()), Some("r1"));
}

#[test]
fn a_failure_of_an_unknown_request_changes_nothing() {
    let mut monitor = NetworkMonitor::new();
    assert!(monitor.record_failure("nope", "timeout").is_ok());
    assert_eq!(monitor.get_stats().failed_requests, 0);
    assert!(monitor.get_events().is_empty());
}

#[test]
fn navigation_phases_are_differences_that_stop_at_zero() {
    let timing = NavigationTiming {
        navigation_start: 100,
        unload_event_start: None,
        unload_event_end: None,
        redirect_start: None,
        redirect_end: None,
        redirect_count: 0,
        fetch_start: 110,
        domain_lookup_start: 120,
        domain_lookup_end: 150,
        connect_start: 150,
        connect_end: 200,
        secure_connection_start: None,
        request_start: 210,
        response_start: 300,
        response_end: 420,
        dom_interactive: 500,
        dom_content_loaded_event_start: 510,
        dom_content_loaded_event_end: 520,
        dom_complete: 450,
        load_event_start: 700,
        load_event_end: 800,
    };
    assert_eq!(timing.total_load_time(), 700);
    assert_eq!(timing.dns_time(), 30);
    assert_eq!(timing.tcp_time(), 50);
    assert_eq!(timing.request_time(), 90);
    assert_eq!(timing.response_time(), 120);
    assert_eq!(timing.dom_processing_time(), 0);
}
