//! The browser's events and commands, and the decisions of the MQTT event
//! system: where an event is published, which broker is used, and what an
//! incoming command message is answered with.

use vstd::prelude::*;
use crate::browser::navigation::{parse_web_url, url_host, url_parse_failure, url_port};
use crate::json::{Json, JsonNumber, JsonV, Real32, Real64};
use crate::text::{concat, has_prefix, starts_with, to_string};

verus! {

/// Something that happened in the browser, as it is published and recorded.
#[derive(Debug)]
pub enum BrowserEvent {
    Navigation { url: String },
    PageLoaded { url: String },
    TitleChanged { title: String },
    TabCreated { id: usize, url: String },
    TabClosed { id: usize },
    TabActivated { id: usize },
    TabUrlChanged { id: usize, url: String },
    TabTitleChanged { id: usize, title: String },
    Error { message: String },
    CommandReceived { command: String },
    CommandExecuted { command: String, success: bool },
    RecordingStarted { name: String, start_url: String },
    RecordingStopped { name: String, event_count: usize, duration_ms: u64 },
    RecordingPaused,
    RecordingResumed,
    RecordingSaved { path: String },
    RecordingLoaded { path: String },
    PlaybackStarted,
    PlaybackStopped,
    PlaybackPaused,
    PlaybackResumed,
    PlaybackSeeked { timestamp_ms: u64 },
    PlaybackSpeedChanged { speed: Real32 },
    PerformanceMetricsCollected { metrics: Json },
    CoreWebVitalsUpdated { vitals: Json },
    MemoryMetricsUpdated { metrics: Json },
    JSProfilingStarted { profile_id: String },
    JSProfilingCompleted { profile: Json },
    PerformanceMarkerAdded { name: String },
    PerformanceMeasureAdded { name: String, duration: Real64 },
    ConsoleMessage { level: String, message: String, timestamp: u64, stack_trace: Option<String> },
    ConsoleCleared,
}

/// An event with its strings and JSON values taken as plain values.
pub enum EventV {
    Navigation { url: Seq<char> },
    PageLoaded { url: Seq<char> },
    TitleChanged { title: Seq<char> },
    TabCreated { id: usize, url: Seq<char> },
    TabClosed { id: usize },
    TabActivated { id: usize },
    TabUrlChanged { id: usize, url: Seq<char> },
    TabTitleChanged { id: usize, title: Seq<char> },
    Error { message: Seq<char> },
    CommandReceived { command: Seq<char> },
    CommandExecuted { command: Seq<char>, success: bool },
    RecordingStarted { name: Seq<char>, start_url: Seq<char> },
    RecordingStopped { name: Seq<char>, event_count: usize, duration_ms: u64 },
    RecordingPaused,
    RecordingResumed,
    RecordingSaved { path: Seq<char> },
    RecordingLoaded { path: Seq<char> },
    PlaybackStarted,
    PlaybackStopped,
    PlaybackPaused,
    PlaybackResumed,
    PlaybackSeeked { timestamp_ms: u64 },
    PlaybackSpeedChanged { speed: Real32 },
    PerformanceMetricsCollected { metrics: JsonV },
    CoreWebVitalsUpdated { vitals: JsonV },
    MemoryMetricsUpdated { metrics: JsonV },
    JSProfilingStarted { profile_id: Seq<char> },
    JSProfilingCompleted { profile: JsonV },
    PerformanceMarkerAdded { name: Seq<char> },
    PerformanceMeasureAdded { name: Seq<char>, duration: Real64 },
    ConsoleMessage { level: Seq<char>, message: Seq<char>, timestamp: u64, stack_trace: Option<Seq<char>> },
    ConsoleCleared,
}

impl View for BrowserEvent {
    type V = EventV;

    open spec fn view(&self) -> EventV {
        match *self {
            BrowserEvent::Navigation { url } => EventV::Navigation { url: url@ },
            BrowserEvent::PageLoaded { url } => EventV::PageLoaded { url: url@ },
            BrowserEvent::TitleChanged { title } => EventV::TitleChanged { title: title@ },
            BrowserEvent::TabCreated { id, url } => EventV::TabCreated { id: id, url: url@ },
            BrowserEvent::TabClosed { id } => EventV::TabClosed { id: id },
            BrowserEvent::TabActivated { id } => EventV::TabActivated { id: id },
            BrowserEvent::TabUrlChanged { id, url } => EventV::TabUrlChanged { id: id, url: url@ },
            BrowserEvent::TabTitleChanged { id, title } => EventV::TabTitleChanged { id: id, title: title@ },
            BrowserEvent::Error { message } => EventV::Error { message: message@ },
            BrowserEvent::CommandReceived { command } => EventV::CommandReceived { command: command@ },
            BrowserEvent::CommandExecuted { command, success } => EventV::CommandExecuted { command: command@, success: success },
            BrowserEvent::RecordingStarted { name, start_url } => EventV::RecordingStarted { name: name@, start_url: start_url@ },
            BrowserEvent::RecordingStopped { name, event_count, duration_ms } => EventV::RecordingStopped { name: name@, event_count: event_count, duration_ms: duration_ms },
            BrowserEvent::RecordingPaused => EventV::RecordingPaused,
            BrowserEvent::RecordingResumed => EventV::RecordingResumed,
            BrowserEvent::RecordingSaved { path } => EventV::RecordingSaved { path: path@ },
            BrowserEvent::RecordingLoaded { path } => EventV::RecordingLoaded { path: path@ },
            BrowserEvent::PlaybackStarted => EventV::PlaybackStarted,
            BrowserEvent::PlaybackStopped => EventV::PlaybackStopped,
            BrowserEvent::PlaybackPaused => EventV::PlaybackPaused,
            BrowserEvent::PlaybackResumed => EventV::PlaybackResumed,
            BrowserEvent::PlaybackSeeked { timestamp_ms } => EventV::PlaybackSeeked { timestamp_ms: timestamp_ms },
            BrowserEvent::PlaybackSpeedChanged { speed } => EventV::PlaybackSpeedChanged { speed: speed },
            BrowserEvent::PerformanceMetricsCollected { metrics } => EventV::PerformanceMetricsCollected { metrics: metrics@ },
            BrowserEvent::CoreWebVitalsUpdated { vitals } => EventV::CoreWebVitalsUpdated { vitals: vitals@ },
            BrowserEvent::MemoryMetricsUpdated { metrics } => EventV::MemoryMetricsUpdated { metrics: metrics@ },
            BrowserEvent::JSProfilingStarted { profile_id } => EventV::JSProfilingStarted { profile_id: profile_id@ },
            BrowserEvent::JSProfilingCompleted { profile } => EventV::JSProfilingCompleted { profile: profile@ },
            BrowserEvent::PerformanceMarkerAdded { name } => EventV::PerformanceMarkerAdded { name: name@ },
            BrowserEvent::PerformanceMeasureAdded { name, duration } => EventV::PerformanceMeasureAdded { name: name@, duration: duration },
            BrowserEvent::ConsoleMessage { level, message, timestamp, stack_trace } => EventV::ConsoleMessage { level: level@, message: message@, timestamp: timestamp, stack_trace: opt_str_view(stack_trace) },
            BrowserEvent::ConsoleCleared => EventV::ConsoleCleared,
        }
    }
}

/// The topic under which an event is published.
pub open spec fn event_topic(e: BrowserEvent) -> Seq<char> {
    match e {
        BrowserEvent::Navigation { .. } => "browser/navigation"@,
        BrowserEvent::PageLoaded { .. } => "browser/page/loaded"@,
        BrowserEvent::TitleChanged { .. } => "browser/page/title"@,
        BrowserEvent::TabCreated { .. } => "browser/tabs/created"@,
        BrowserEvent::TabClosed { .. } => "browser/tabs/closed"@,
        BrowserEvent::TabActivated { .. } => "browser/tabs/activated"@,
        BrowserEvent::TabUrlChanged { .. } => "browser/tabs/url"@,
        BrowserEvent::TabTitleChanged { .. } => "browser/tabs/title"@,
        BrowserEvent::Error { .. } => "browser/error"@,
        BrowserEvent::CommandReceived { .. } => "browser/command/received"@,
        BrowserEvent::CommandExecuted { .. } => "browser/command/executed"@,
        BrowserEvent::RecordingStarted { .. } => "browser/recording/started"@,
        BrowserEvent::RecordingStopped { .. } => "browser/recording/stopped"@,
        BrowserEvent::RecordingPaused => "browser/recording/paused"@,
        BrowserEvent::RecordingResumed => "browser/recording/resumed"@,
        BrowserEvent::RecordingSaved { .. } => "browser/recording/saved"@,
        BrowserEvent::RecordingLoaded { .. } => "browser/recording/loaded"@,
        BrowserEvent::PlaybackStarted => "browser/playback/started"@,
        BrowserEvent::PlaybackStopped => "browser/playback/stopped"@,
        BrowserEvent::PlaybackPaused => "browser/playback/paused"@,
        BrowserEvent::PlaybackResumed => "browser/playback/resumed"@,
        BrowserEvent::PlaybackSeeked { .. } => "browser/playback/seeked"@,
        BrowserEvent::PlaybackSpeedChanged { .. } => "browser/playback/speed"@,
        BrowserEvent::PerformanceMetricsCollected { .. } => "browser/performance/metrics"@,
        BrowserEvent::CoreWebVitalsUpdated { .. } => "browser/performance/vitals"@,
        BrowserEvent::MemoryMetricsUpdated { .. } => "browser/performance/memory"@,
        BrowserEvent::JSProfilingStarted { .. } => "browser/performance/profiling/started"@,
        BrowserEvent::JSProfilingCompleted { .. } => "browser/performance/profiling/completed"@,
        BrowserEvent::PerformanceMarkerAdded { .. } => "browser/performance/marker"@,
        BrowserEvent::PerformanceMeasureAdded { .. } => "browser/performance/measure"@,
        BrowserEvent::ConsoleMessage { .. } => "browser/console/message"@,
        BrowserEvent::ConsoleCleared => "browser/console/cleared"@,
    }
}

/// The name of an event's kind: the name of its variant.
pub open spec fn event_kind(e: BrowserEvent) -> Seq<char> {
    match e {
        BrowserEvent::Navigation { .. } => "Navigation"@,
        BrowserEvent::PageLoaded { .. } => "PageLoaded"@,
        BrowserEvent::TitleChanged { .. } => "TitleChanged"@,
        BrowserEvent::TabCreated { .. } => "TabCreated"@,
        BrowserEvent::TabClosed { .. } => "TabClosed"@,
        BrowserEvent::TabActivated { .. } => "TabActivated"@,
        BrowserEvent::TabUrlChanged { .. } => "TabUrlChanged"@,
        BrowserEvent::TabTitleChanged { .. } => "TabTitleChanged"@,
        BrowserEvent::Error { .. } => "Error"@,
        BrowserEvent::CommandReceived { .. } => "CommandReceived"@,
        BrowserEvent::CommandExecuted { .. } => "CommandExecuted"@,
        BrowserEvent::RecordingStarted { .. } => "RecordingStarted"@,
        BrowserEvent::RecordingStopped { .. } => "RecordingStopped"@,
        BrowserEvent::RecordingPaused => "RecordingPaused"@,
        BrowserEvent::RecordingResumed => "RecordingResumed"@,
        BrowserEvent::RecordingSaved { .. } => "RecordingSaved"@,
        BrowserEvent::RecordingLoaded { .. } => "RecordingLoaded"@,
        BrowserEvent::PlaybackStarted => "PlaybackStarted"@,
        BrowserEvent::PlaybackStopped => "PlaybackStopped"@,
        BrowserEvent::PlaybackPaused => "PlaybackPaused"@,
        BrowserEvent::PlaybackResumed => "PlaybackResumed"@,
        BrowserEvent::PlaybackSeeked { .. } => "PlaybackSeeked"@,
        BrowserEvent::PlaybackSpeedChanged { .. } => "PlaybackSpeedChanged"@,
        BrowserEvent::PerformanceMetricsCollected { .. } => "PerformanceMetricsCollected"@,
        BrowserEvent::CoreWebVitalsUpdated { .. } => "CoreWebVitalsUpdated"@,
        BrowserEvent::MemoryMetricsUpdated { .. } => "MemoryMetricsUpdated"@,
        BrowserEvent::JSProfilingStarted { .. } => "JSProfilingStarted"@,
        BrowserEvent::JSProfilingCompleted { .. } => "JSProfilingCompleted"@,
        BrowserEvent::PerformanceMarkerAdded { .. } => "PerformanceMarkerAdded"@,
        BrowserEvent::PerformanceMeasureAdded { .. } => "PerformanceMeasureAdded"@,
        BrowserEvent::ConsoleMessage { .. } => "ConsoleMessage"@,
        BrowserEvent::ConsoleCleared => "ConsoleCleared"@,
    }
}

impl BrowserEvent {
    /// The topic under which the event is published.
    pub fn topic(&self) -> (res: &'static str)
        ensures
            res@ == event_topic(*self),
    {
        match self {
            BrowserEvent::Navigation { .. } => "browser/navigation",
            BrowserEvent::PageLoaded { .. } => "browser/page/loaded",
            BrowserEvent::TitleChanged { .. } => "browser/page/title",
            BrowserEvent::TabCreated { .. } => "browser/tabs/created",
            BrowserEvent::TabClosed { .. } => "browser/tabs/closed",
            BrowserEvent::TabActivated { .. } => "browser/tabs/activated",
            BrowserEvent::TabUrlChanged { .. } => "browser/tabs/url",
            BrowserEvent::TabTitleChanged { .. } => "browser/tabs/title",
            BrowserEvent::Error { .. } => "browser/error",
            BrowserEvent::CommandReceived { .. } => "browser/command/received",
            BrowserEvent::CommandExecuted { .. } => "browser/command/executed",
            BrowserEvent::RecordingStarted { .. } => "browser/recording/started",
            BrowserEvent::RecordingStopped { .. } => "browser/recording/stopped",
            BrowserEvent::RecordingPaused => "browser/recording/paused",
            BrowserEvent::RecordingResumed => "browser/recording/resumed",
            BrowserEvent::RecordingSaved { .. } => "browser/recording/saved",
            BrowserEvent::RecordingLoaded { .. } => "browser/recording/loaded",
            BrowserEvent::PlaybackStarted => "browser/playback/started",
            BrowserEvent::PlaybackStopped => "browser/playback/stopped",
            BrowserEvent::PlaybackPaused => "browser/playback/paused",
            BrowserEvent::PlaybackResumed => "browser/playback/resumed",
            BrowserEvent::PlaybackSeeked { .. } => "browser/playback/seeked",
            BrowserEvent::PlaybackSpeedChanged { .. } => "browser/playback/speed",
            BrowserEvent::PerformanceMetricsCollected { .. } => "browser/performance/metrics",
            BrowserEvent::CoreWebVitalsUpdated { .. } => "browser/performance/vitals",
            BrowserEvent::MemoryMetricsUpdated { .. } => "browser/performance/memory",
            BrowserEvent::JSProfilingStarted { .. } => "browser/performance/profiling/started",
            BrowserEvent::JSProfilingCompleted { .. } => "browser/performance/profiling/completed",
            BrowserEvent::PerformanceMarkerAdded { .. } => "browser/performance/marker",
            BrowserEvent::PerformanceMeasureAdded { .. } => "browser/performance/measure",
            BrowserEvent::ConsoleMessage { .. } => "browser/console/message",
            BrowserEvent::ConsoleCleared => "browser/console/cleared",
        }
    }

    /// The name of the event's kind, as the first word of its debug text.
    pub fn kind_name(&self) -> (res: &'static str)
        ensures
            res@ == event_kind(*self),
    {
        match self {
            BrowserEvent::Navigation { .. } => "Navigation",
            BrowserEvent::PageLoaded { .. } => "PageLoaded",
            BrowserEvent::TitleChanged { .. } => "TitleChanged",
            BrowserEvent::TabCreated { .. } => "TabCreated",
            BrowserEvent::TabClosed { .. } => "TabClosed",
            BrowserEvent::TabActivated { .. } => "TabActivated",
            BrowserEvent::TabUrlChanged { .. } => "TabUrlChanged",
            BrowserEvent::TabTitleChanged { .. } => "TabTitleChanged",
            BrowserEvent::Error { .. } => "Error",
            BrowserEvent::CommandReceived { .. } => "CommandReceived",
            BrowserEvent::CommandExecuted { .. } => "CommandExecuted",
            BrowserEvent::RecordingStarted { .. } => "RecordingStarted",
            BrowserEvent::RecordingStopped { .. } => "RecordingStopped",
            BrowserEvent::RecordingPaused => "RecordingPaused",
            BrowserEvent::RecordingResumed => "RecordingResumed",
            BrowserEvent::RecordingSaved { .. } => "RecordingSaved",
            BrowserEvent::RecordingLoaded { .. } => "RecordingLoaded",
            BrowserEvent::PlaybackStarted => "PlaybackStarted",
            BrowserEvent::PlaybackStopped => "PlaybackStopped",
            BrowserEvent::PlaybackPaused => "PlaybackPaused",
            BrowserEvent::PlaybackResumed => "PlaybackResumed",
            BrowserEvent::PlaybackSeeked { .. } => "PlaybackSeeked",
            BrowserEvent::PlaybackSpeedChanged { .. } => "PlaybackSpeedChanged",
            BrowserEvent::PerformanceMetricsCollected { .. } => "PerformanceMetricsCollected",
            BrowserEvent::CoreWebVitalsUpdated { .. } => "CoreWebVitalsUpdated",
            BrowserEvent::MemoryMetricsUpdated { .. } => "MemoryMetricsUpdated",
            BrowserEvent::JSProfilingStarted { .. } => "JSProfilingStarted",
            BrowserEvent::JSProfilingCompleted { .. } => "JSProfilingCompleted",
            BrowserEvent::PerformanceMarkerAdded { .. } => "PerformanceMarkerAdded",
            BrowserEvent::PerformanceMeasureAdded { .. } => "PerformanceMeasureAdded",
            BrowserEvent::ConsoleMessage { .. } => "ConsoleMessage",
            BrowserEvent::ConsoleCleared => "ConsoleCleared",
        }
    }
}

/// The characters of an optional string.
pub open spec fn opt_str_view(s: Option<String>) -> Option<Seq<char>> {
    match s {
        Some(t) => Some(t@),
        None => None,
    }
}

/// Two events of the same kind whose fields hold the same values.
pub open spec fn same_event(a: BrowserEvent, b: BrowserEvent) -> bool {
    match (a, b) {
        (BrowserEvent::Navigation { url: a_url }, BrowserEvent::Navigation { url: b_url }) => a_url@ == b_url@,
        (BrowserEvent::PageLoaded { url: a_url }, BrowserEvent::PageLoaded { url: b_url }) => a_url@ == b_url@,
        (BrowserEvent::TitleChanged { title: a_title }, BrowserEvent::TitleChanged { title: b_title }) => a_title@ == b_title@,
        (BrowserEvent::TabCreated { id: a_id, url: a_url }, BrowserEvent::TabCreated { id: b_id, url: b_url }) => a_id == b_id && a_url@ == b_url@,
        (BrowserEvent::TabClosed { id: a_id }, BrowserEvent::TabClosed { id: b_id }) => a_id == b_id,
        (BrowserEvent::TabActivated { id: a_id }, BrowserEvent::TabActivated { id: b_id }) => a_id == b_id,
        (BrowserEvent::TabUrlChanged { id: a_id, url: a_url }, BrowserEvent::TabUrlChanged { id: b_id, url: b_url }) => a_id == b_id && a_url@ == b_url@,
        (BrowserEvent::TabTitleChanged { id: a_id, title: a_title }, BrowserEvent::TabTitleChanged { id: b_id, title: b_title }) => a_id == b_id && a_title@ == b_title@,
        (BrowserEvent::Error { message: a_message }, BrowserEvent::Error { message: b_message }) => a_message@ == b_message@,
        (BrowserEvent::CommandReceived { command: a_command }, BrowserEvent::CommandReceived { command: b_command }) => a_command@ == b_command@,
        (BrowserEvent::CommandExecuted { command: a_command, success: a_success }, BrowserEvent::CommandExecuted { command: b_command, success: b_success }) => a_command@ == b_command@ && a_success == b_success,
        (BrowserEvent::RecordingStarted { name: a_name, start_url: a_start_url }, BrowserEvent::RecordingStarted { name: b_name, start_url: b_start_url }) => a_name@ == b_name@ && a_start_url@ == b_start_url@,
        (BrowserEvent::RecordingStopped { name: a_name, event_count: a_event_count, duration_ms: a_duration_ms }, BrowserEvent::RecordingStopped { name: b_name, event_count: b_event_count, duration_ms: b_duration_ms }) => a_name@ == b_name@ && a_event_count == b_event_count && a_duration_ms == b_duration_ms,
        (BrowserEvent::RecordingPaused, BrowserEvent::RecordingPaused) => true,
        (BrowserEvent::RecordingResumed, BrowserEvent::RecordingResumed) => true,
        (BrowserEvent::RecordingSaved { path: a_path }, BrowserEvent::RecordingSaved { path: b_path }) => a_path@ == b_path@,
        (BrowserEvent::RecordingLoaded { path: a_path }, BrowserEvent::RecordingLoaded { path: b_path }) => a_path@ == b_path@,
        (BrowserEvent::PlaybackStarted, BrowserEvent::PlaybackStarted) => true,
        (BrowserEvent::PlaybackStopped, BrowserEvent::PlaybackStopped) => true,
        (BrowserEvent::PlaybackPaused, BrowserEvent::PlaybackPaused) => true,
        (BrowserEvent::PlaybackResumed, BrowserEvent::PlaybackResumed) => true,
        (BrowserEvent::PlaybackSeeked { timestamp_ms: a_timestamp_ms }, BrowserEvent::PlaybackSeeked { timestamp_ms: b_timestamp_ms }) => a_timestamp_ms == b_timestamp_ms,
        (BrowserEvent::PlaybackSpeedChanged { speed: a_speed }, BrowserEvent::PlaybackSpeedChanged { speed: b_speed }) => a_speed == b_speed,
        (BrowserEvent::PerformanceMetricsCollected { metrics: a_metrics }, BrowserEvent::PerformanceMetricsCollected { metrics: b_metrics }) => a_metrics@ == b_metrics@,
        (BrowserEvent::CoreWebVitalsUpdated { vitals: a_vitals }, BrowserEvent::CoreWebVitalsUpdated { vitals: b_vitals }) => a_vitals@ == b_vitals@,
        (BrowserEvent::MemoryMetricsUpdated { metrics: a_metrics }, BrowserEvent::MemoryMetricsUpdated { metrics: b_metrics }) => a_metrics@ == b_metrics@,
        (BrowserEvent::JSProfilingStarted { profile_id: a_profile_id }, BrowserEvent::JSProfilingStarted { profile_id: b_profile_id }) => a_profile_id@ == b_profile_id@,
        (BrowserEvent::JSProfilingCompleted { profile: a_profile }, BrowserEvent::JSProfilingCompleted { profile: b_profile }) => a_profile@ == b_profile@,
        (BrowserEvent::PerformanceMarkerAdded { name: a_name }, BrowserEvent::PerformanceMarkerAdded { name: b_name }) => a_name@ == b_name@,
        (BrowserEvent::PerformanceMeasureAdded { name: a_name, duration: a_duration }, BrowserEvent::PerformanceMeasureAdded { name: b_name, duration: b_duration }) => a_name@ == b_name@ && a_duration == b_duration,
        (BrowserEvent::ConsoleMessage { level: a_level, message: a_message, timestamp: a_timestamp, stack_trace: a_stack_trace }, BrowserEvent::ConsoleMessage { level: b_level, message: b_message, timestamp: b_timestamp, stack_trace: b_stack_trace }) => a_level@ == b_level@ && a_message@ == b_message@ && a_timestamp == b_timestamp && opt_str_view(a_stack_trace) == opt_str_view(b_stack_trace),
        (BrowserEvent::ConsoleCleared, BrowserEvent::ConsoleCleared) => true,
        _ => false,
    }
}

/// Events with the same view are of the same kind.
pub proof fn lemma_same_view_same_kind(a: BrowserEvent, b: BrowserEvent)
    requires
        a@ == b@,
    ensures
        event_kind(a) == event_kind(b),
{
}

/// Events of the same kind with the same field values have the same view.
pub proof fn lemma_same_event_same_view(a: BrowserEvent, b: BrowserEvent)
    requires
        same_event(a, b),
    ensures
        a@ == b@,
{
}

impl Clone for BrowserEvent {
    fn clone(&self) -> (res: Self)
        ensures
            same_event(res, *self),
            res@ == self@,
    {
        match self {
            BrowserEvent::Navigation { url } => BrowserEvent::Navigation { url: url.clone() },
            BrowserEvent::PageLoaded { url } => BrowserEvent::PageLoaded { url: url.clone() },
            BrowserEvent::TitleChanged { title } => BrowserEvent::TitleChanged { title: title.clone() },
            BrowserEvent::TabCreated { id, url } => BrowserEvent::TabCreated { id: *id, url: url.clone() },
            BrowserEvent::TabClosed { id } => BrowserEvent::TabClosed { id: *id },
            BrowserEvent::TabActivated { id } => BrowserEvent::TabActivated { id: *id },
            BrowserEvent::TabUrlChanged { id, url } => BrowserEvent::TabUrlChanged { id: *id, url: url.clone() },
            BrowserEvent::TabTitleChanged { id, title } => BrowserEvent::TabTitleChanged { id: *id, title: title.clone() },
            BrowserEvent::Error { message } => BrowserEvent::Error { message: message.clone() },
            BrowserEvent::CommandReceived { command } => BrowserEvent::CommandReceived { command: command.clone() },
            BrowserEvent::CommandExecuted { command, success } => BrowserEvent::CommandExecuted { command: command.clone(), success: *success },
            BrowserEvent::RecordingStarted { name, start_url } => BrowserEvent::RecordingStarted { name: name.clone(), start_url: start_url.clone() },
            BrowserEvent::RecordingStopped { name, event_count, duration_ms } => BrowserEvent::RecordingStopped { name: name.clone(), event_count: *event_count, duration_ms: *duration_ms },
            BrowserEvent::RecordingPaused => BrowserEvent::RecordingPaused,
            BrowserEvent::RecordingResumed => BrowserEvent::RecordingResumed,
            BrowserEvent::RecordingSaved { path } => BrowserEvent::RecordingSaved { path: path.clone() },
            BrowserEvent::RecordingLoaded { path } => BrowserEvent::RecordingLoaded { path: path.clone() },
            BrowserEvent::PlaybackStarted => BrowserEvent::PlaybackStarted,
            BrowserEvent::PlaybackStopped => BrowserEvent::PlaybackStopped,
            BrowserEvent::PlaybackPaused => BrowserEvent::PlaybackPaused,
            BrowserEvent::PlaybackResumed => BrowserEvent::PlaybackResumed,
            BrowserEvent::PlaybackSeeked { timestamp_ms } => BrowserEvent::PlaybackSeeked { timestamp_ms: *timestamp_ms },
            BrowserEvent::PlaybackSpeedChanged { speed } => BrowserEvent::PlaybackSpeedChanged { speed: *speed },
            BrowserEvent::PerformanceMetricsCollected { metrics } => BrowserEvent::PerformanceMetricsCollected { metrics: metrics.clone() },
            BrowserEvent::CoreWebVitalsUpdated { vitals } => BrowserEvent::CoreWebVitalsUpdated { vitals: vitals.clone() },
            BrowserEvent::MemoryMetricsUpdated { metrics } => BrowserEvent::MemoryMetricsUpdated { metrics: metrics.clone() },
            BrowserEvent::JSProfilingStarted { profile_id } => BrowserEvent::JSProfilingStarted { profile_id: profile_id.clone() },
            BrowserEvent::JSProfilingCompleted { profile } => BrowserEvent::JSProfilingCompleted { profile: profile.clone() },
            BrowserEvent::PerformanceMarkerAdded { name } => BrowserEvent::PerformanceMarkerAdded { name: name.clone() },
            BrowserEvent::PerformanceMeasureAdded { name, duration } => BrowserEvent::PerformanceMeasureAdded { name: name.clone(), duration: *duration },
            BrowserEvent::ConsoleMessage { level, message, timestamp, stack_trace } => BrowserEvent::ConsoleMessage { level: level.clone(), message: message.clone(), timestamp: *timestamp, stack_trace: match stack_trace { Some(s) => Some(s.clone()), None => None } },
            BrowserEvent::ConsoleCleared => BrowserEvent::ConsoleCleared,
        }
    }
}

/// A command for the browser, as the MQTT broker, the HTTP API and the MCP
/// server send it.
#[derive(Debug, Clone)]
pub enum BrowserCommand {
    Navigate { url: String },
    CreateTab { url: String },
    CloseTab { id: usize },
    SwitchTab { id: usize },
    RecordEvent { event: BrowserEvent },
    PlayEvent { event: BrowserEvent },
    TakeScreenshot { options: Option<Json> },
    CreateBaseline { test_name: String, options: Option<Json> },
    RunVisualTest { test_name: String, tolerance: JsonNumber, options: Option<Json> },
    FindElement { selector: Json },
    InteractElement { selector: Json, interaction: Json },
    HighlightElement { selector: Json, color: Option<String> },
    WaitForCondition { condition: Json },
    GetPageInfo,
    ExecuteJavaScript { script: String },
    StartNetworkMonitoring,
    StopNetworkMonitoring,
    GetNetworkStats,
    ExportNetworkHAR,
    AddNetworkFilter { filter: Json },
    ClearNetworkFilters,
    StartPerformanceMonitoring,
    StopPerformanceMonitoring,
    CollectPerformanceMetrics,
    GetCoreWebVitals,
    GetMemoryMetrics,
    GetPerformanceSummary,
    StartJSProfiling { script_url: String },
    StopJSProfiling,
    AddPerformanceMarker { name: String, metadata: Option<Json> },
    AddPerformanceMeasure { name: String, start_mark: String, end_mark: String },
    StartConsoleMonitoring,
    StopConsoleMonitoring,
    GetConsoleLogs { level: Option<String> },
    ClearConsoleLogs,
    SetConsoleFilter { level: Option<String> },
    StartRecording { name: String, start_url: String },
    StopRecording,
    PauseRecording,
    ResumeRecording,
    SaveRecording { path: String },
    LoadRecording { path: String },
    AddRecordingAssertion { expected_state: Json, description: Option<String> },
    EnableRecordingSnapshots { interval_ms: u64 },
    StartPlayback,
    StopPlayback,
    PausePlayback,
    ResumePlayback,
    SeekPlayback { timestamp_ms: u64 },
    StepForward,
    StepBackward,
    SetPlaybackSpeed { speed: Real32 },
    SetPlaybackLoop { enable: bool },
    GetPlaybackState,
}

/// The topic on which the browser receives commands.
pub open spec fn command_topic() -> Seq<char> {
    "browser/command"@
}

/// Where the MQTT client connects: the broker URL as it was given a scheme,
/// and the host and port taken from it.
pub struct BrokerAddress {
    pub broker_url: String,
    pub host: String,
    pub port: u16,
}

/// The broker URL with the `mqtt://` scheme put in front where it is missing.
pub open spec fn mqtt_url(broker_url: Seq<char>) -> Seq<char> {
    if has_prefix(broker_url, "mqtt://"@) {
        broker_url
    } else {
        "mqtt://"@ + broker_url
    }
}

/// The host of the URL parsed from `text`, `localhost` where it has none.
pub open spec fn host_or_localhost(text: Seq<char>) -> Seq<char> {
    match url_host(text) {
        Some(h) => h,
        None => "localhost"@,
    }
}

/// The port of the URL parsed from `text`, `default_port` where it has none.
pub open spec fn port_or(text: Seq<char>, default_port: u16) -> u16 {
    match url_port(text) {
        Some(p) => p,
        None => default_port,
    }
}

/// The broker's host and port: from the broker URL if it parses, else from
/// the default broker if that parses, else `localhost` at the default port.
pub open spec fn broker_endpoint(broker_url: Seq<char>, default_broker: Seq<char>, default_port: u16) -> (
    Seq<char>,
    u16,
) {
    let url = mqtt_url(broker_url);
    if url_parse_failure(url) is None {
        (host_or_localhost(url), port_or(url, default_port))
    } else if url_parse_failure(default_broker) is None {
        (host_or_localhost(default_broker), port_or(default_broker, default_port))
    } else {
        ("localhost"@, default_port)
    }
}

/// Works out where the event system connects, from the broker URL it was
/// given and the defaults for the broker and its port.
pub fn broker_address(broker_url: &str, default_broker: &str, default_port: u16) -> (res: BrokerAddress)
    ensures
        res.broker_url@ == mqtt_url(broker_url@),
        (res.host@, res.port) == broker_endpoint(broker_url@, default_broker@, default_port),
{
    let url = if starts_with(broker_url, "mqtt://") {
        to_string(broker_url)
    } else {
        concat("mqtt://", broker_url)
    };
    let (host, port) = match parse_web_url(url.as_str()) {
        Ok(u) => endpoint_of(&u, default_port),
        Err(_) => match parse_web_url(default_broker) {
            Ok(u) => endpoint_of(&u, default_port),
            Err(_) => (to_string("localhost"), default_port),
        },
    };
    BrokerAddress { broker_url: url, host, port }
}

/// The host and port of a parsed URL, with `localhost` and `default_port`
/// where it has none.
fn endpoint_of(u: &crate::browser::navigation::WebUrl, default_port: u16) -> (res: (String, u16))
    ensures
        res.0@ == match u@.host {
            Some(h) => h,
            None => "localhost"@,
        },
        res.1 == match u@.port {
            Some(p) => p,
            None => default_port,
        },
{
    let host = match u.host_str() {
        Some(h) => to_string(h),
        None => to_string("localhost"),
    };
    let port = match u.port() {
        Some(p) => p,
        None => default_port,
    };
    (host, port)
}

/// The events published on a message that arrives on the command topic, before
/// the command is handed on: the message is acknowledged, and a message that
/// is no command is reported as an error and as a failed command.
pub open spec fn received_events_ok(events: Seq<BrowserEvent>, text: Seq<char>, is_command: bool) -> bool {
    if is_command {
        events.len() == 1 && (events[0] matches BrowserEvent::CommandReceived { command } && command@ == text)
    } else {
        &&& events.len() == 3
        &&& events[0] matches BrowserEvent::CommandReceived { command } && command@ == text
        &&& events[1] matches BrowserEvent::Error { message } && message@ == "Invalid command format: "@ + text
        &&& events[2] matches BrowserEvent::CommandExecuted { command, success } && command@ == text && !success
    }
}

/// What the event system does with a message on topic `topic` whose payload
/// reads `text` and parses as `command` (or as none): the events it publishes
/// first, and the command it hands on to the browser, if a receiver is there.
/// Messages on other topics are ignored.
pub fn plan_incoming_message(topic: &str, text: &str, command: Option<BrowserCommand>, has_receiver: bool) -> (res: (
    Vec<BrowserEvent>,
    Option<BrowserCommand>,
))
    ensures
        topic@ != command_topic() ==> res.0@.len() == 0 && res.1 is None,
        topic@ == command_topic() ==> received_events_ok(res.0@, text@, command is Some),
        topic@ == command_topic() ==> res.1 == if has_receiver {
            command
        } else {
            None
        },
{
    if !crate::text::equals(topic, "browser/command") {
        return (Vec::new(), None);
    }
    let mut events: Vec<BrowserEvent> = Vec::new();
    events.push(BrowserEvent::CommandReceived { command: to_string(text) });
    match command {
        Some(c) => {
            if has_receiver {
                (events, Some(c))
            } else {
                (events, None)
            }
        },
        None => {
            events.push(BrowserEvent::Error { message: concat("Invalid command format: ", text) });
            events.push(BrowserEvent::CommandExecuted { command: to_string(text), success: false });
            (events, None)
        },
    }
}

/// The events published once a command has been handed on: success, or the
/// error of the channel and a failed command.
pub fn forwarded_events(text: &str, sent: Result<(), String>) -> (res: Vec<BrowserEvent>)
    ensures
        sent is Ok ==> res@.len() == 1 && (res@[0] matches BrowserEvent::CommandExecuted { command, success }
            && command@ == text@ && success),
        sent matches Err(e) ==> res@.len() == 2 && (res@[0] matches BrowserEvent::Error { message } && message@
            == "Failed to send command: "@ + e@) && (res@[1] matches BrowserEvent::CommandExecuted {
            command,
            success,
        } && command@ == text@ && !success),
{
    let mut events: Vec<BrowserEvent> = Vec::new();
    match sent {
        Ok(()) => {
            events.push(BrowserEvent::CommandExecuted { command: to_string(text), success: true });
        },
        Err(e) => {
            events.push(BrowserEvent::Error { message: concat("Failed to send command: ", e.as_str()) });
            events.push(BrowserEvent::CommandExecuted { command: to_string(text), success: false });
        },
    }
    events
}

/// How long the event system waits between attempts to reconnect, in
/// milliseconds.
pub const RECONNECT_DELAY_MS: u64 = 3000;

/// Whether to try to reconnect now, given how long ago the last attempt was
/// (none yet: `None`).
pub fn should_reconnect(since_last_attempt_ms: Option<u64>) -> (res: bool)
    ensures
        res == match since_last_attempt_ms {
            Some(t) => t >= RECONNECT_DELAY_MS,
            None => true,
        },
{
    match since_last_attempt_ms {
        Some(t) => t >= RECONNECT_DELAY_MS,
        None => true,
    }
}

} // verus!
