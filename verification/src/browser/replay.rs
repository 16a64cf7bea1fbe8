//! Recording browser events with their timing, playing them back, and editing
//! recordings.

use vstd::prelude::*;
use crate::clock::{unix_time_millis, unix_time_secs};
use crate::event::{event_kind, same_event, BrowserEvent};
use crate::json::{Json, Real32};
use crate::text::{concat, decimal, decimal_string, replace, replace_seq, to_string};

verus! {

/// The version of the recording format.
pub const RECORDING_VERSION: &'static str = "1.0";

/// An event with the time it happened, in milliseconds from the start of the
/// recording.
#[derive(Debug)]
pub struct EventRecord {
    pub timestamp_ms: u64,
    pub event: BrowserEvent,
    pub metadata: Option<EventMetadata>,
}

/// What is known of a recorded event besides the event itself.
#[derive(Debug)]
pub struct EventMetadata {
    pub description: Option<String>,
    pub is_assertion: bool,
    pub expected_state: Option<Json>,
    pub tags: Vec<String>,
}

/// A recording: its metadata, its events in time order, and state snapshots.
#[derive(Debug)]
pub struct Recording {
    pub version: String,
    pub metadata: RecordingMetadata,
    pub events: Vec<EventRecord>,
    pub snapshots: Vec<StateSnapshot>,
}

/// What a recording is.
#[derive(Debug)]
pub struct RecordingMetadata {
    pub id: String,
    pub name: String,
    pub description: Option<String>,
    pub created_at: u64,
    pub modified_at: u64,
    pub duration_ms: u64,
    pub event_count: usize,
    pub start_url: String,
    pub browser_config: BrowserConfig,
    pub tags: Vec<String>,
    pub custom: Json,
}

/// The browser's configuration while it was recorded.
#[derive(Debug)]
pub struct BrowserConfig {
    pub viewport_width: u32,
    pub viewport_height: u32,
    pub user_agent: Option<String>,
    pub javascript_enabled: bool,
    pub custom: Json,
}

/// The browser's state at a moment of a recording.
#[derive(Debug)]
pub struct StateSnapshot {
    pub timestamp_ms: u64,
    pub dom_state: Option<String>,
    pub network_state: Option<Json>,
    pub browser_state: Json,
}

/// The timestamps of a sequence of records.
pub open spec fn stamps(events: Seq<EventRecord>) -> Seq<u64> {
    events.map_values(|e: EventRecord| e.timestamp_ms)
}

// ---------------------------------------------------------------------------
// Recorder
// ---------------------------------------------------------------------------

/// `n` is recorder `o` after `event` was recorded at some time: while
/// recording, unless its kind is filtered out, it is appended to the events
/// without metadata; otherwise the events stay as they were. The state of the
/// recorder and the recording's metadata are unchanged.
pub open spec fn event_recorded(o: RecorderView, n: RecorderView, event: BrowserEvent) -> bool {
    &&& n.is_recording == o.is_recording
    &&& n.start_ms == o.start_ms
    &&& n.filters == o.filters
    &&& n.capture_snapshots == o.capture_snapshots
    &&& n.snapshot_interval_ms == o.snapshot_interval_ms
    &&& match o.recording {
        None => n.recording is None,
        Some(r) => n.recording matches Some(m) && m.metadata == r.metadata && m.version == r.version && if o.is_recording
            && !o.filters.contains(event_kind(event)) && o.start_ms is Some {
            &&& m.events@.len() == r.events@.len() + 1
            &&& m.events@.drop_last() == r.events@
            &&& m.events@.last().event@ == event@
            &&& m.events@.last().metadata is None
        } else {
            m.events == r.events
        },
    }
}

/// `n` is recorder `o` with its last recorded event marked as an assertion
/// of `expected_state`, described by `description` and tagged `assertion`;
/// all else is as it was, and without a recorded event nothing changes.
pub open spec fn assertion_added(
    o: RecorderView,
    n: RecorderView,
    expected_state: Json,
    description: Option<String>,
) -> bool {
    &&& n == (RecorderView { recording: n.recording, ..o })
    &&& match o.recording {
        None => n.recording is None,
        Some(r) => n.recording matches Some(m) && {
            &&& m.version == r.version
            &&& m.metadata == r.metadata
            &&& m.snapshots == r.snapshots
            &&& m.events@.len() == r.events@.len()
            &&& r.events@.len() == 0 ==> m.events == r.events
            &&& forall|i: int| 0 <= i < r.events@.len() - 1 ==> m.events@[i] == r.events@[i]
            &&& r.events@.len() > 0 ==> {
                let last = m.events@.last();
                &&& last.timestamp_ms == r.events@.last().timestamp_ms
                &&& last.event == r.events@.last().event
                &&& last.metadata matches Some(md) && md.is_assertion && md.description == description
                    && md.expected_state == Some(expected_state) && md.tags@.map_values(|t: String| t@)
                    == seq!["assertion"@]
            }
        },
    }
}

/// A recorder as a mathematical value.
pub struct RecorderView {
    pub recording: Option<Recording>,
    pub start_ms: Option<u64>,
    pub is_recording: bool,
    pub capture_snapshots: bool,
    pub snapshot_interval_ms: u64,
    pub last_snapshot_ms: Option<u64>,
    pub filters: Seq<Seq<char>>,
}

/// Records browser events while it is recording.
pub struct EventRecorder {
    recording: Option<Recording>,
    start_ms: Option<u64>,
    is_recording: bool,
    capture_snapshots: bool,
    snapshot_interval_ms: u64,
    last_snapshot_ms: Option<u64>,
    filters: Vec<String>,
}

impl View for EventRecorder {
    type V = RecorderView;

    closed spec fn view(&self) -> RecorderView {
        RecorderView {
            recording: self.recording,
            start_ms: self.start_ms,
            is_recording: self.is_recording,
            capture_snapshots: self.capture_snapshots,
            snapshot_interval_ms: self.snapshot_interval_ms,
            last_snapshot_ms: self.last_snapshot_ms,
            filters: self.filters@.map_values(|f: String| f@),
        }
    }
}

/// The identifier of a recording named `name` started at `secs`.
pub open spec fn recording_id(secs: u64, name: Seq<char>) -> Seq<char> {
    "rec_"@ + decimal(secs as nat) + "_"@ + replace_seq(name, " "@, "_"@)
}

/// `v` is a recorder that started recording `name` from `start_url` at `secs`
/// (seconds since the epoch) and `ms` (milliseconds), keeping the settings of
/// `old`.
pub open spec fn started(v: RecorderView, old: RecorderView, name: Seq<char>, start_url: Seq<char>, secs: u64, ms: u64) -> bool {
    &&& v.is_recording
    &&& v.start_ms == Some(ms)
    &&& v.last_snapshot_ms == Some(ms)
    &&& v.capture_snapshots == old.capture_snapshots
    &&& v.snapshot_interval_ms == old.snapshot_interval_ms
    &&& v.filters == old.filters
    &&& v.recording matches Some(r) && {
        &&& r.version@ == RECORDING_VERSION@
        &&& r.metadata.id@ == recording_id(secs, name)
        &&& r.metadata.name@ == name
        &&& r.metadata.start_url@ == start_url
        &&& r.metadata.description is None
        &&& r.metadata.created_at == secs
        &&& r.metadata.modified_at == secs
        &&& r.metadata.duration_ms == 0
        &&& r.metadata.event_count == 0
        &&& r.metadata.tags@.len() == 0
        &&& r.metadata.custom@ == crate::json::JsonV::Object(Seq::empty())
        &&& r.metadata.browser_config.viewport_width == 1920
        &&& r.metadata.browser_config.viewport_height == 1080
        &&& r.metadata.browser_config.user_agent is None
        &&& r.metadata.browser_config.javascript_enabled
        &&& r.metadata.browser_config.custom@ == crate::json::JsonV::Object(Seq::empty())
        &&& r.events@.len() == 0
        &&& r.snapshots@.len() == 0
    }
}

/// An empty JSON object.
fn empty_object() -> (res: Json)
    ensures
        res@ == crate::json::JsonV::Object(Seq::empty()),
{
    let res = Json::object(Vec::new());
    assert(crate::json::members_view(Seq::<(String, Json)>::empty()) =~= Seq::empty());
    res
}

/// Whether `s` is among `items`.
fn contains_string(items: &Vec<String>, s: &str) -> (res: bool)
    ensures
        res == items@.map_values(|f: String| f@).contains(s@),
{
    let ghost names = items@.map_values(|f: String| f@);
    let mut i: usize = 0;
    while i < items.len()
        invariant
            i <= items.len(),
            names == items@.map_values(|f: String| f@),
            forall|k: int| 0 <= k < i ==> names[k] != s@,
        decreases items.len() - i,
    {
        if crate::text::equals(items[i].as_str(), s) {
            assert(names[i as int] == s@);
            return true;
        }
        i = i + 1;
    }
    false
}

impl EventRecorder {
    /// A recorder that is not recording, taking a snapshot every five seconds
    /// once snapshots are on.
    pub fn new() -> (res: Self)
        ensures
            res@.recording is None,
            res@.start_ms is None,
            !res@.is_recording,
            !res@.capture_snapshots,
            res@.snapshot_interval_ms == 5000,
            res@.last_snapshot_ms is None,
            res@.filters.len() == 0,
    {
        let res = EventRecorder {
            recording: None,
            start_ms: None,
            is_recording: false,
            capture_snapshots: false,
            snapshot_interval_ms: 5000,
            last_snapshot_ms: None,
            filters: Vec::new(),
        };
        assert(res@.filters =~= Seq::<Seq<char>>::empty());
        res
    }

    /// Starts a new recording named `name` from `start_url`, at the given
    /// times; a recording in progress is dropped.
    pub fn start_at(&mut self, name: String, start_url: String, now_secs: u64, now_ms: u64)
        ensures
            started(final(self)@, old(self)@, name@, start_url@, now_secs, now_ms),
    {
        proof {
            reveal_strlit(" ");
        }
        let id = concat(
            concat(concat("rec_", decimal_string(now_secs).as_str()).as_str(), "_").as_str(),
            replace(name.as_str(), " ", "_").as_str(),
        );
        let browser_config = BrowserConfig {
            viewport_width: 1920,
            viewport_height: 1080,
            user_agent: None,
            javascript_enabled: true,
            custom: empty_object(),
        };
        let metadata = RecordingMetadata {
            id,
            name,
            description: None,
            created_at: now_secs,
            modified_at: now_secs,
            duration_ms: 0,
            event_count: 0,
            start_url,
            browser_config,
            tags: Vec::new(),
            custom: empty_object(),
        };
        self.recording = Some(
            Recording { version: to_string(RECORDING_VERSION), metadata, events: Vec::new(), snapshots: Vec::new() },
        );
        self.start_ms = Some(now_ms);
        self.last_snapshot_ms = Some(now_ms);
        self.is_recording = true;
    }

    /// Starts a new recording named `name` from `start_url`, now.
    pub fn start(&mut self, name: String, start_url: String)
        ensures
            exists|secs: u64, ms: u64| started(final(self)@, old(self)@, name@, start_url@, secs, ms),
    {
        let secs = unix_time_secs();
        let ms = unix_time_millis();
        self.start_at(name, start_url, secs, ms);
    }

    /// Stops recording at `now_ms` (and `now_secs`) and hands the recording
    /// out, with its duration, event count and modification time set.
    pub fn stop_at(&mut self, now_ms: u64, now_secs: u64) -> (res: Option<Recording>)
        ensures
            !final(self)@.is_recording,
            final(self)@.recording is None,
            final(self)@.start_ms == old(self)@.start_ms,
            final(self)@.filters == old(self)@.filters,
            final(self)@.capture_snapshots == old(self)@.capture_snapshots,
            final(self)@.snapshot_interval_ms == old(self)@.snapshot_interval_ms,
            final(self)@.last_snapshot_ms == old(self)@.last_snapshot_ms,
            match old(self)@.recording {
                None => res is None,
                Some(r) => res matches Some(out) && out.events == r.events && out.snapshots == r.snapshots
                    && out.version == r.version && out.metadata.name == r.metadata.name && out.metadata.id
                    == r.metadata.id && out.metadata.start_url == r.metadata.start_url && out.metadata.tags
                    == r.metadata.tags && out.metadata.description == r.metadata.description
                    && out.metadata.created_at == r.metadata.created_at && match old(self)@.start_ms {
                    Some(start) => out.metadata.duration_ms == (if now_ms >= start {
                        (now_ms - start) as u64
                    } else {
                        0u64
                    }) && out.metadata.event_count == r.events@.len() && out.metadata.modified_at == now_secs,
                    None => out.metadata.duration_ms == r.metadata.duration_ms && out.metadata.event_count
                        == r.metadata.event_count && out.metadata.modified_at == r.metadata.modified_at,
                },
            },
    {
        let taken = self.recording.take();
        self.is_recording = false;
        match taken {
            None => None,
            Some(mut recording) => {
                match self.start_ms {
                    Some(start) => {
                        recording.metadata.duration_ms = if now_ms >= start {
                            now_ms - start
                        } else {
                            0
                        };
                        recording.metadata.event_count = recording.events.len();
                        recording.metadata.modified_at = now_secs;
                    },
                    None => {},
                }
                Some(recording)
            },
        }
    }

    /// Stops recording now and hands the recording out.
    pub fn stop(&mut self) -> (res: Option<Recording>)
        ensures
            !final(self)@.is_recording,
            final(self)@.recording is None,
            final(self)@.filters == old(self)@.filters,
            old(self)@.recording is None <==> res is None,
            res matches Some(out) ==> out.events == old(self)@.recording->0.events && out.metadata.name
                == old(self)@.recording->0.metadata.name,
    {
        let ms = unix_time_millis();
        let secs = unix_time_secs();
        self.stop_at(ms, secs)
    }

    /// Stops taking events for now.
    pub fn pause(&mut self)
        ensures
            final(self)@ == (RecorderView { is_recording: false, ..old(self)@ }),
    {
        self.is_recording = false;
    }

    /// Takes events again.
    pub fn resume(&mut self)
        ensures
            final(self)@ == (RecorderView { is_recording: true, ..old(self)@ }),
    {
        self.is_recording = true;
    }

    /// Whether events are taken.
    pub fn is_recording(&self) -> (res: bool)
        ensures
            res == self@.is_recording,
    {
        self.is_recording
    }

    /// Sets the description of the recording in progress.
    pub fn set_description(&mut self, description: String)
        ensures
            final(self)@.is_recording == old(self)@.is_recording,
            final(self)@.start_ms == old(self)@.start_ms,
            final(self)@.filters == old(self)@.filters,
            match old(self)@.recording {
                None => final(self)@.recording is None,
                Some(r) => final(self)@.recording matches Some(n) && n.metadata.description == Some(description)
                    && n.events == r.events && n.metadata.name == r.metadata.name && n.metadata.tags
                    == r.metadata.tags,
            },
    {
        match &mut self.recording {
            Some(r) => {
                r.metadata.description = Some(description);
            },
            None => {},
        }
    }

    /// Tags the recording in progress with `tag`, unless it already has it.
    pub fn add_tag(&mut self, tag: String)
        ensures
            final(self)@.is_recording == old(self)@.is_recording,
            final(self)@.filters == old(self)@.filters,
            match old(self)@.recording {
                None => final(self)@.recording is None,
                Some(r) => final(self)@.recording matches Some(n) && n.events == r.events && n.metadata.name
                    == r.metadata.name && if r.metadata.tags@.map_values(|f: String| f@).contains(tag@) {
                    n.metadata.tags == r.metadata.tags
                } else {
                    n.metadata.tags@ == r.metadata.tags@.push(tag)
                },
            },
    {
        match &mut self.recording {
            Some(r) => {
                if !contains_string(&r.metadata.tags, tag.as_str()) {
                    r.metadata.tags.push(tag);
                }
            },
            None => {},
        }
    }

    /// Leaves events of kind `event_type` out from now on.
    pub fn add_filter(&mut self, event_type: String)
        ensures
            final(self)@ == (RecorderView {
                filters: if old(self)@.filters.contains(event_type@) {
                    old(self)@.filters
                } else {
                    old(self)@.filters.push(event_type@)
                },
                ..old(self)@
            }),
    {
        if !contains_string(&self.filters, event_type.as_str()) {
            let ghost before = self.filters@;
            self.filters.push(event_type);
            assert(self.filters@.map_values(|f: String| f@) =~= before.map_values(|f: String| f@).push(
                self.filters@[before.len() as int]@,
            ));
        }
    }

    /// Takes events of every kind again.
    pub fn clear_filters(&mut self)
        ensures
            final(self)@ == (RecorderView { filters: Seq::empty(), ..old(self)@ }),
    {
        self.filters.clear();
        assert(self.filters@.map_values(|f: String| f@) =~= Seq::<Seq<char>>::empty());
    }

    /// Takes a state snapshot every `interval_ms` while recording.
    pub fn enable_snapshots(&mut self, interval_ms: u64)
        ensures
            final(self)@ == (RecorderView {
                capture_snapshots: true,
                snapshot_interval_ms: interval_ms,
                ..old(self)@
            }),
    {
        self.capture_snapshots = true;
        self.snapshot_interval_ms = interval_ms;
    }

    /// Takes no more snapshots.
    pub fn disable_snapshots(&mut self)
        ensures
            final(self)@ == (RecorderView { capture_snapshots: false, ..old(self)@ }),
    {
        self.capture_snapshots = false;
    }

    /// Records `event` as happening at `now_ms`: while recording, and unless
    /// its kind is filtered out, it is appended with the time since the start;
    /// a snapshot is taken too when one is due.
    pub fn record_event_at(&mut self, event: BrowserEvent, now_ms: u64)
        ensures
            final(self)@.is_recording == old(self)@.is_recording,
            final(self)@.start_ms == old(self)@.start_ms,
            final(self)@.filters == old(self)@.filters,
            final(self)@.capture_snapshots == old(self)@.capture_snapshots,
            final(self)@.snapshot_interval_ms == old(self)@.snapshot_interval_ms,
            old(self)@.recording is None ==> final(self)@.recording is None,
            old(self)@.recording matches Some(r) ==> final(self)@.recording matches Some(n)
                && n.metadata == r.metadata && n.version == r.version && if old(self)@.is_recording
                && !old(self)@.filters.contains(event_kind(event)) && old(self)@.start_ms is Some {
                n.events@ == r.events@.push(
                    EventRecord {
                        timestamp_ms: elapsed(old(self)@.start_ms->0, now_ms),
                        event,
                        metadata: None,
                    },
                )
            } else {
                n.events == r.events && n.snapshots == r.snapshots
            },
    {
        if !self.is_recording {
            return;
        }
        if contains_string(&self.filters, event.kind_name()) {
            return;
        }
        let start = match self.start_ms {
            Some(s) => s,
            None => {
                return;
            },
        };
        let due = match self.last_snapshot_ms {
            Some(last) => self.capture_snapshots && elapsed_exec(last, now_ms) >= self.snapshot_interval_ms,
            None => false,
        };
        match &mut self.recording {
            Some(r) => {
                r.events.push(EventRecord { timestamp_ms: elapsed_exec(start, now_ms), event, metadata: None });
                if due {
                    r.snapshots.push(
                        StateSnapshot {
                            timestamp_ms: elapsed_exec(start, now_ms),
                            dom_state: None,
                            network_state: None,
                            browser_state: empty_object(),
                        },
                    );
                }
            },
            None => {
                return;
            },
        }
        if due {
            self.last_snapshot_ms = Some(now_ms);
        }
    }

    /// Records `event` as happening now.
    pub fn record_event(&mut self, event: BrowserEvent)
        ensures
            event_recorded(old(self)@, final(self)@, event),
    {
        let ghost o = self@;
        let ghost ev = event;
        let now = unix_time_millis();
        self.record_event_at(event, now);
        proof {
            if o.recording is Some && o.is_recording && !o.filters.contains(event_kind(ev)) && o.start_ms is Some {
                let r = o.recording->0;
                let m = self@.recording->0;
                assert(m.events@.drop_last() =~= r.events@);
            }
        }
    }

    /// Marks the last recorded event as an assertion that the browser is in
    /// `expected_state`.
    pub fn add_assertion(&mut self, expected_state: Json, description: Option<String>)
        ensures
            assertion_added(old(self)@, final(self)@, expected_state, description),
            final(self)@.is_recording == old(self)@.is_recording,
            final(self)@.filters == old(self)@.filters,
            old(self)@.recording is None ==> final(self)@.recording is None,
            old(self)@.recording matches Some(r) ==> final(self)@.recording matches Some(n)
                && n.metadata == r.metadata && stamps(n.events@) == stamps(r.events@) && (r.events@.len() > 0
                ==> (n.events@.last().metadata matches Some(m) && m.is_assertion && m.description == description
                && m.expected_state == Some(expected_state) && m.tags@.map_values(|t: String| t@) == seq![
                "assertion"@])) && (forall|i: int| 0 <= i < r.events@.len() - 1 ==> n.events@[i] == r.events@[i])
                && (r.events@.len() == 0 ==> n.events == r.events),
    {
        match &mut self.recording {
            Some(r) => {
                let n = r.events.len();
                if n > 0 {
                    let tags = vec![to_string("assertion")];
                    assert(tags@.map_values(|t: String| t@) =~= seq!["assertion"@]);
                    let mut events: Vec<EventRecord> = Vec::new();
                    std::mem::swap(&mut events, &mut r.events);
                    let ghost before = events@;
                    let mut last = events.pop().unwrap();
                    last.metadata = Some(
                        EventMetadata {
                            description,
                            is_assertion: true,
                            expected_state: Some(expected_state),
                            tags,
                        },
                    );
                    events.push(last);
                    assert(stamps(events@) =~= stamps(before));
                    r.events = events;
                }
            },
            None => {},
        }
    }

    /// The recording in progress.
    pub fn get_recording(&self) -> (res: Option<&Recording>)
        ensures
            match self@.recording {
                Some(r) => res == Some(&r),
                None => res is None,
            },
    {
        match &self.recording {
            Some(r) => Some(r),
            None => None,
        }
    }

    /// How many events have been recorded.
    pub fn get_event_count(&self) -> (res: usize)
        ensures
            res == match self@.recording {
                Some(r) => r.events@.len(),
                None => 0,
            },
    {
        match &self.recording {
            Some(r) => r.events.len(),
            None => 0,
        }
    }

    /// How long the recording has run at `now_ms`, in milliseconds: since the
    /// start, else the recording's stated duration, else zero.
    pub fn get_duration_at(&self, now_ms: u64) -> (res: u64)
        ensures
            res == match self@.start_ms {
                Some(s) => elapsed(s, now_ms),
                None => match self@.recording {
                    Some(r) => r.metadata.duration_ms,
                    None => 0,
                },
            },
    {
        match self.start_ms {
            Some(s) => elapsed_exec(s, now_ms),
            None => match &self.recording {
                Some(r) => r.metadata.duration_ms,
                None => 0,
            },
        }
    }

    /// How long the recording has run, in milliseconds.
    pub fn get_duration(&self) -> (res: u64)
        ensures
            self@.start_ms is None ==> res == match self@.recording {
                Some(r) => r.metadata.duration_ms,
                None => 0,
            },
    {
        let now = unix_time_millis();
        self.get_duration_at(now)
    }
}

impl Default for EventRecorder {
    fn default() -> (res: Self)
        ensures
            res@.recording is None,
            !res@.is_recording,
            res@.snapshot_interval_ms == 5000,
    {
        EventRecorder::new()
    }
}

/// Milliseconds from `start` to `now`, zero if the clock went back.
pub open spec fn elapsed(start: u64, now: u64) -> u64 {
    if now >= start {
        (now - start) as u64
    } else {
        0
    }
}

fn elapsed_exec(start: u64, now: u64) -> (res: u64)
    ensures
        res == elapsed(start, now),
{
    if now >= start {
        now - start
    } else {
        0
    }
}

// ---------------------------------------------------------------------------
// Player
// ---------------------------------------------------------------------------

/// Where playback stands.
#[derive(Debug, Clone, Copy, PartialEq, Eq, Structural)]
pub enum PlaybackState {
    Stopped,
    Playing,
    Paused,
    Completed,
}

/// The bits of the single-precision 1.0.
pub const SPEED_ONE_BITS: u32 = 0x3F80_0000;

/// The bits of the slowest speed, the single-precision number closest to 0.1.
pub const SPEED_MIN_BITS: u32 = 0x3DCC_CCCD;

/// The bits of the fastest speed, the single-precision 10.0.
pub const SPEED_MAX_BITS: u32 = 0x4120_0000;

/// A player as a mathematical value.
pub struct PlayerView {
    pub recording: Option<Recording>,
    pub state: PlaybackState,
    pub start_ms: Option<u64>,
    pub pause_ms: Option<u64>,
    pub paused_ms: u64,
    pub current_index: usize,
    pub speed: Real32,
    pub loop_playback: bool,
}

/// The player paused at `now_ms`, if it was playing.
pub open spec fn paused_at(v: PlayerView, now_ms: u64) -> PlayerView {
    if v.state == PlaybackState::Playing {
        PlayerView { state: PlaybackState::Paused, pause_ms: Some(now_ms), ..v }
    } else {
        v
    }
}

/// The player resumed at `now_ms`, if it was paused, with the pause counted
/// as paused time.
pub open spec fn resumed_at(v: PlayerView, now_ms: u64) -> PlayerView {
    if v.state == PlaybackState::Paused {
        match v.pause_ms {
            Some(p) => PlayerView {
                state: PlaybackState::Playing,
                pause_ms: None,
                paused_ms: sat_add(v.paused_ms, elapsed(p, now_ms)),
                ..v
            },
            None => PlayerView { state: PlaybackState::Playing, ..v },
        }
    } else {
        v
    }
}

/// Resuming keeps the player's place: the recording, the position, the start
/// time, the speed and the looping stay; a paused player plays again, and the
/// paused time only grows.
pub proof fn law_resume_keeps_the_place(v: PlayerView, now_ms: u64)
    ensures
        resumed_at(v, now_ms).recording == v.recording,
        resumed_at(v, now_ms).current_index == v.current_index,
        resumed_at(v, now_ms).start_ms == v.start_ms,
        resumed_at(v, now_ms).speed == v.speed,
        resumed_at(v, now_ms).loop_playback == v.loop_playback,
        resumed_at(v, now_ms).paused_ms >= v.paused_ms,
        v.state == PlaybackState::Paused ==> resumed_at(v, now_ms).state == PlaybackState::Playing,
        v.state != PlaybackState::Paused ==> resumed_at(v, now_ms) == v,
{
}

/// Pausing a playing player at `t1` and resuming it at `t2 >= t1` gives the
/// player back as it was, playing at the same position with no pause pending,
/// with the time between the two counted as paused (up to the largest count).
pub proof fn law_pause_then_resume(v: PlayerView, t1: u64, t2: u64)
    requires
        v.state == PlaybackState::Playing,
        t1 <= t2,
    ensures
        resumed_at(paused_at(v, t1), t2) == (PlayerView {
            paused_ms: if v.paused_ms + (t2 - t1) > u64::MAX {
                u64::MAX
            } else {
                (v.paused_ms + (t2 - t1)) as u64
            },
            pause_ms: None,
            ..v
        }),
{
}

/// The player moved past the event at its position.
pub open spec fn stepped_forward(v: PlayerView) -> PlayerView {
    PlayerView { current_index: (v.current_index + 1) as usize, ..v }
}

/// The player moved back by one event, unless at the first.
pub open spec fn stepped_back(v: PlayerView) -> PlayerView {
    if v.current_index > 0 {
        PlayerView { current_index: (v.current_index - 1) as usize, ..v }
    } else {
        v
    }
}

/// Plays a recording back, event by event, at a chosen speed.
pub struct EventPlayer {
    recording: Option<Recording>,
    state: PlaybackState,
    start_ms: Option<u64>,
    pause_ms: Option<u64>,
    paused_ms: u64,
    current_index: usize,
    speed: Real32,
    loop_playback: bool,
}

impl View for EventPlayer {
    type V = PlayerView;

    closed spec fn view(&self) -> PlayerView {
        PlayerView {
            recording: self.recording,
            state: self.state,
            start_ms: self.start_ms,
            pause_ms: self.pause_ms,
            paused_ms: self.paused_ms,
            current_index: self.current_index,
            speed: self.speed,
            loop_playback: self.loop_playback,
        }
    }
}

/// The number of events of the loaded recording, zero without one.
pub open spec fn event_count(r: Option<Recording>) -> nat {
    match r {
        Some(rec) => rec.events@.len(),
        None => 0,
    }
}

/// A single-precision number, by its bits, that is not a number.
pub open spec fn is_nan_bits(bits: u32) -> bool {
    (bits & 0x7F80_0000) == 0x7F80_0000 && (bits & 0x007F_FFFF) != 0
}

/// The speed, by its bits, that a requested speed is clamped to: between 0.1
/// and 10; what is below 0.1, negative or not a number counts as 0.1.
pub open spec fn clamped_speed(bits: u32) -> u32 {
    if is_nan_bits(bits) || bits >= 0x8000_0000 || bits < SPEED_MIN_BITS {
        SPEED_MIN_BITS
    } else if bits > SPEED_MAX_BITS {
        SPEED_MAX_BITS
    } else {
        bits
    }
}

/// The index of the first event at or after `timestamp_ms`, or the number of
/// events where there is none.
pub open spec fn seek_index(events: Seq<EventRecord>, timestamp_ms: u64) -> int
    decreases events.len(),
{
    if events.len() == 0 {
        0
    } else if events[0].timestamp_ms >= timestamp_ms {
        0
    } else {
        1 + seek_index(events.drop_first(), timestamp_ms)
    }
}

/// Stepping forward over an event and then back returns the player to where
/// it was.
pub proof fn law_step_forward_then_back(v: PlayerView)
    requires
        v.recording matches Some(r) && v.current_index < r.events@.len() <= usize::MAX,
    ensures
        stepped_back(stepped_forward(v)) == v,
{
}

/// Seeking to a time lands on the first event at or after it: every event
/// before the position is earlier, and the event at the position, if any, is
/// not.
pub proof fn law_seek_lands_on_first_event_at_or_after(events: Seq<EventRecord>, timestamp_ms: u64)
    ensures
        0 <= seek_index(events, timestamp_ms) <= events.len(),
        seek_index(events, timestamp_ms) < events.len() ==> events[seek_index(events, timestamp_ms)].timestamp_ms
            >= timestamp_ms,
        forall|i: int| 0 <= i < seek_index(events, timestamp_ms) ==> events[i].timestamp_ms < timestamp_ms,
    decreases events.len(),
{
    if events.len() > 0 && events[0].timestamp_ms < timestamp_ms {
        law_seek_lands_on_first_event_at_or_after(events.drop_first(), timestamp_ms);
        assert forall|i: int| 0 <= i < seek_index(events, timestamp_ms) implies events[i].timestamp_ms
            < timestamp_ms by {
            if i > 0 {
                assert(events[i] == events.drop_first()[i - 1]);
            }
        }
    }
}

/// The index of the first event at or after `timestamp_ms`, or the number of
/// events.
fn seek_position(events: &Vec<EventRecord>, timestamp_ms: u64) -> (res: usize)
    ensures
        res == seek_index(events@, timestamp_ms),
{
    let n = events.len();
    let mut i: usize = 0;
    assert(events@.skip(0) =~= events@);
    while i < n
        invariant
            n == events@.len(),
            i <= n,
            seek_index(events@, timestamp_ms) == i + seek_index(events@.skip(i as int), timestamp_ms),
        decreases n - i,
    {
        assert(events@.skip(i as int).drop_first() =~= events@.skip(i + 1));
        assert(events@.skip(i as int)[0] == events@[i as int]);
        if events[i].timestamp_ms >= timestamp_ms {
            return i;
        }
        i = i + 1;
    }
    assert(events@.skip(n as int).len() == 0);
    n
}

impl EventPlayer {
    /// A stopped player with no recording, at normal speed, not looping.
    pub fn new() -> (res: Self)
        ensures
            res@ == (PlayerView {
                recording: None,
                state: PlaybackState::Stopped,
                start_ms: None,
                pause_ms: None,
                paused_ms: 0,
                current_index: 0,
                speed: Real32 { bits: SPEED_ONE_BITS },
                loop_playback: false,
            }),
    {
        EventPlayer {
            recording: None,
            state: PlaybackState::Stopped,
            start_ms: None,
            pause_ms: None,
            paused_ms: 0,
            current_index: 0,
            speed: Real32 { bits: SPEED_ONE_BITS },
            loop_playback: false,
        }
    }

    /// Loads `recording`, stopped at its first event.
    pub fn load_recording(&mut self, recording: Recording)
        ensures
            final(self)@ == (PlayerView {
                recording: Some(recording),
                current_index: 0,
                state: PlaybackState::Stopped,
                ..old(self)@
            }),
    {
        self.recording = Some(recording);
        self.current_index = 0;
        self.state = PlaybackState::Stopped;
    }

    /// Plays from the first event, starting at `now_ms`.
    pub fn start_at(&mut self, now_ms: u64)
        ensures
            final(self)@ == (PlayerView {
                start_ms: Some(now_ms),
                current_index: 0,
                paused_ms: 0,
                state: PlaybackState::Playing,
                ..old(self)@
            }),
    {
        self.start_ms = Some(now_ms);
        self.current_index = 0;
        self.paused_ms = 0;
        self.state = PlaybackState::Playing;
    }

    /// Plays from the first event, starting now.
    pub fn start(&mut self)
        ensures
            final(self)@.state == PlaybackState::Playing,
            final(self)@.current_index == 0,
            final(self)@.paused_ms == 0,
            final(self)@.start_ms is Some,
            final(self)@.recording == old(self)@.recording,
            final(self)@.speed == old(self)@.speed,
            final(self)@.loop_playback == old(self)@.loop_playback,
    {
        let now = unix_time_millis();
        self.start_at(now);
    }

    /// Stops playback and goes back to the first event.
    pub fn stop(&mut self)
        ensures
            final(self)@ == (PlayerView {
                state: PlaybackState::Stopped,
                current_index: 0,
                start_ms: None,
                pause_ms: None,
                paused_ms: 0,
                ..old(self)@
            }),
    {
        self.state = PlaybackState::Stopped;
        self.current_index = 0;
        self.start_ms = None;
        self.pause_ms = None;
        self.paused_ms = 0;
    }

    /// Pauses playback at `now_ms`, if it is playing.
    pub fn pause_at(&mut self, now_ms: u64)
        ensures
            final(self)@ == paused_at(old(self)@, now_ms),
    {
        if self.state == PlaybackState::Playing {
            self.state = PlaybackState::Paused;
            self.pause_ms = Some(now_ms);
        }
    }

    /// Pauses playback now, if it is playing.
    pub fn pause(&mut self)
        ensures
            old(self)@.state == PlaybackState::Playing ==> final(self)@.state == PlaybackState::Paused
                && final(self)@.current_index == old(self)@.current_index,
            old(self)@.state != PlaybackState::Playing ==> final(self)@ == old(self)@,
    {
        let now = unix_time_millis();
        self.pause_at(now);
    }

    /// Resumes paused playback at `now_ms`, counting the pause as paused time.
    pub fn resume_at(&mut self, now_ms: u64)
        ensures
            final(self)@ == resumed_at(old(self)@, now_ms),
    {
        if self.state == PlaybackState::Paused {
            match self.pause_ms {
                Some(p) => {
                    self.paused_ms = self.paused_ms.saturating_add(elapsed_exec(p, now_ms));
                    self.pause_ms = None;
                },
                None => {},
            }
            self.state = PlaybackState::Playing;
        }
    }

    /// Resumes paused playback now.
    pub fn resume(&mut self)
        ensures
            old(self)@.state == PlaybackState::Paused ==> final(self)@.state == PlaybackState::Playing
                && final(self)@.current_index == old(self)@.current_index,
            old(self)@.state != PlaybackState::Paused ==> final(self)@ == old(self)@,
    {
        let now = unix_time_millis();
        self.resume_at(now);
    }

    /// The next event, stepping past it; none at the end or without a
    /// recording.
    pub fn step_forward(&mut self) -> (res: Option<BrowserEvent>)
        ensures
            match old(self)@.recording {
                Some(r) if old(self)@.current_index < r.events@.len() => res matches Some(e) && same_event(
                    e,
                    r.events@[old(self)@.current_index as int].event,
                ) && final(self)@ == stepped_forward(old(self)@),
                _ => res is None && final(self)@ == old(self)@,
            },
    {
        match &self.recording {
            Some(r) => {
                if self.current_index < r.events.len() {
                    let event = r.events[self.current_index].event.clone();
                    self.current_index = self.current_index + 1;
                    Some(event)
                } else {
                    None
                }
            },
            None => None,
        }
    }

    /// Steps back one event, unless at the first.
    pub fn step_backward(&mut self)
        ensures
            final(self)@ == stepped_back(old(self)@),
    {
        if self.current_index > 0 {
            self.current_index = self.current_index - 1;
        }
    }

    /// Moves to the first event at or after `timestamp_ms`, or past the last.
    pub fn seek(&mut self, timestamp_ms: u64)
        ensures
            final(self)@ == match old(self)@.recording {
                Some(r) => PlayerView { current_index: seek_index(r.events@, timestamp_ms) as usize, ..old(self)@ },
                None => old(self)@,
            },
    {
        let pos = match &self.recording {
            Some(r) => Some(seek_position(&r.events, timestamp_ms)),
            None => None,
        };
        match pos {
            Some(p) => {
                self.current_index = p;
            },
            None => {},
        }
    }

    /// Moves to event `index`, or past the last event.
    pub fn seek_to_index(&mut self, index: usize)
        ensures
            final(self)@ == match old(self)@.recording {
                Some(r) => PlayerView {
                    current_index: if index <= r.events@.len() {
                        index
                    } else {
                        r.events@.len() as usize
                    },
                    ..old(self)@
                },
                None => old(self)@,
            },
    {
        match &self.recording {
            Some(r) => {
                let n = r.events.len();
                self.current_index = if index <= n {
                    index
                } else {
                    n
                };
            },
            None => {},
        }
    }

    /// Sets the speed, by the bits of a single-precision number, clamped to
    /// between 0.1 and 10.
    pub fn set_speed(&mut self, speed: Real32)
        ensures
            final(self)@ == (PlayerView { speed: Real32 { bits: clamped_speed(speed.bits) }, ..old(self)@ }),
    {
        let b = speed.bits;
        let nan = (b & 0x7F80_0000) == 0x7F80_0000 && (b & 0x007F_FFFF) != 0;
        let bits = if nan || b >= 0x8000_0000 || b < SPEED_MIN_BITS {
            SPEED_MIN_BITS
        } else if b > SPEED_MAX_BITS {
            SPEED_MAX_BITS
        } else {
            b
        };
        self.speed = Real32 { bits };
    }

    /// Whether playback starts over at the end.
    pub fn set_loop(&mut self, enable: bool)
        ensures
            final(self)@ == (PlayerView { loop_playback: enable, ..old(self)@ }),
    {
        self.loop_playback = enable;
    }

    /// The recording time of the next event to play, while playing a started
    /// recording that has one left.
    pub fn next_timestamp(&self) -> (res: Option<u64>)
        ensures
            res == if self@.state == PlaybackState::Playing && self@.start_ms is Some && self@.recording is Some
                && self@.current_index < event_count(self@.recording) {
                Some(self@.recording->0.events@[self@.current_index as int].timestamp_ms)
            } else {
                None
            },
    {
        if self.state != PlaybackState::Playing || self.start_ms.is_none() {
            return None;
        }
        match &self.recording {
            Some(r) => {
                if self.current_index < r.events.len() {
                    Some(r.events[self.current_index].timestamp_ms)
                } else {
                    None
                }
            },
            None => None,
        }
    }

    /// The playing time at `now_ms`: the time since the start, less the time
    /// spent paused.
    pub fn elapsed_at(&self, now_ms: u64) -> (res: u64)
        ensures
            res == match self@.start_ms {
                Some(s) => sat_sub(elapsed(s, now_ms), self@.paused_ms),
                None => 0,
            },
    {
        match self.start_ms {
            Some(s) => elapsed_exec(s, now_ms).saturating_sub(self.paused_ms),
            None => 0,
        }
    }

    /// Plays on, given whether the next event is due: hands it out if it is;
    /// at the end of the recording starts over at `now_ms` when looping, or
    /// completes.
    pub fn next_event_when(&mut self, due: bool, now_ms: u64) -> (res: Option<BrowserEvent>)
        ensures
            old(self)@.state != PlaybackState::Playing || old(self)@.start_ms is None || old(self)@.recording is None
                ==> res is None && final(self)@ == old(self)@,
            old(self)@.state == PlaybackState::Playing && old(self)@.start_ms is Some && old(self)@.recording is Some
                ==> {
                let r = old(self)@.recording->0;
                let i = old(self)@.current_index;
                if i < r.events@.len() {
                    if due {
                        res matches Some(e) && same_event(e, r.events@[i as int].event) && final(self)@
                            == (PlayerView { current_index: (i + 1) as usize, ..old(self)@ })
                    } else {
                        res is None && final(self)@ == old(self)@
                    }
                } else {
                    res is None && final(self)@ == if old(self)@.loop_playback {
                        PlayerView {
                            start_ms: Some(now_ms),
                            current_index: 0,
                            paused_ms: 0,
                            state: PlaybackState::Playing,
                            ..old(self)@
                        }
                    } else {
                        PlayerView { state: PlaybackState::Completed, ..old(self)@ }
                    }
                }
            },
    {
        if self.state != PlaybackState::Playing || self.start_ms.is_none() {
            return None;
        }
        let at_end = match &self.recording {
            Some(r) => {
                if self.current_index < r.events.len() {
                    if due {
                        let event = r.events[self.current_index].event.clone();
                        self.current_index = self.current_index + 1;
                        return Some(event);
                    } else {
                        return None;
                    }
                }
                true
            },
            None => {
                return None;
            },
        };
        if at_end {
            if self.loop_playback {
                self.start_at(now_ms);
            } else {
                self.state = PlaybackState::Completed;
            }
        }
        None
    }

    /// Where playback stands.
    pub fn get_state(&self) -> (res: PlaybackState)
        ensures
            res == self@.state,
    {
        self.state
    }

    /// The stated duration of the recording, zero without one.
    pub fn get_duration(&self) -> (res: u64)
        ensures
            res == match self@.recording {
                Some(r) => r.metadata.duration_ms,
                None => 0,
            },
    {
        match &self.recording {
            Some(r) => r.metadata.duration_ms,
            None => 0,
        }
    }

    /// The index of the next event.
    pub fn get_current_index(&self) -> (res: usize)
        ensures
            res == self@.current_index,
    {
        self.current_index
    }

    /// The number of events of the recording.
    pub fn get_event_count(&self) -> (res: usize)
        ensures
            res == event_count(self@.recording),
    {
        match &self.recording {
            Some(r) => r.events.len(),
            None => 0,
        }
    }

    /// The speed, by its bits.
    pub fn get_speed(&self) -> (res: Real32)
        ensures
            res == self@.speed,
    {
        self.speed
    }

    /// The metadata of the recording.
    pub fn get_metadata(&self) -> (res: Option<&RecordingMetadata>)
        ensures
            match self@.recording {
                Some(r) => res == Some(&r.metadata),
                None => res is None,
            },
    {
        match &self.recording {
            Some(r) => Some(&r.metadata),
            None => None,
        }
    }

    /// The events recorded from `start_ms` to `end_ms`, both included, in
    /// order.
    pub fn get_events_in_range(&self, start_ms: u64, end_ms: u64) -> (res: Vec<&EventRecord>)
        ensures
            res@.map_values(|e: &EventRecord| *e) == match self@.recording {
                Some(r) => r.events@.filter(|e: EventRecord| start_ms <= e.timestamp_ms <= end_ms),
                None => Seq::empty(),
            },
    {
        let mut out: Vec<&EventRecord> = Vec::new();
        match &self.recording {
            Some(r) => {
                let n = r.events.len();
                let mut i: usize = 0;
                while i < n
                    invariant
                        n == r.events@.len(),
                        i <= n,
                        out@.map_values(|e: &EventRecord| *e) == r.events@.take(i as int).filter(
                            |e: EventRecord| start_ms <= e.timestamp_ms <= end_ms,
                        ),
                    decreases n - i,
                {
                    proof {
                        assert(r.events@.take(i + 1) =~= r.events@.take(i as int).push(r.events@[i as int]));
                        r.events@.take(i as int).lemma_filter_push(
                            r.events@[i as int],
                            |e: EventRecord| start_ms <= e.timestamp_ms <= end_ms,
                        );
                    }
                    let e = &r.events[i];
                    let ghost before = out@;
                    if start_ms <= e.timestamp_ms && e.timestamp_ms <= end_ms {
                        out.push(e);
                        assert(out@.map_values(|e: &EventRecord| *e) =~= before.map_values(|e: &EventRecord| *e).push(*e));
                    }
                    i = i + 1;
                }
                assert(r.events@.take(n as int) =~= r.events@);
            },
            None => {
                assert(out@.map_values(|e: &EventRecord| *e) =~= Seq::empty());
            },
        }
        out
    }

    /// Plays `event` by hand; the player itself is unchanged.
    pub fn play_event(&mut self, event: BrowserEvent)
        ensures
            final(self)@ == old(self)@,
    {
    }
}

impl Default for EventPlayer {
    fn default() -> (res: Self)
        ensures
            res@.recording is None,
            res@.state == PlaybackState::Stopped,
            res@.current_index == 0,
    {
        EventPlayer::new()
    }
}

/// `a + b`, or the largest `u64` where that overflows.
pub open spec fn sat_add(a: u64, b: u64) -> u64 {
    if a + b > u64::MAX {
        u64::MAX
    } else {
        (a + b) as u64
    }
}

/// `a - b`, or zero where that is negative.
pub open spec fn sat_sub(a: u64, b: u64) -> u64 {
    if a >= b {
        (a - b) as u64
    } else {
        0
    }
}

// ---------------------------------------------------------------------------
// Editor
// ---------------------------------------------------------------------------

/// Which records an edit keeps.
pub enum KeepRule {
    /// Those recorded from `start` to `end`, both included.
    Within { start: u64, end: u64 },
    /// Those recorded before `start` or after `end`.
    Outside { start: u64, end: u64 },
    /// Those whose kind is not among `excluded`.
    KindNotIn { excluded: Vec<String> },
}

/// Whether `rule` keeps `e`.
pub open spec fn keeps(rule: KeepRule, e: EventRecord) -> bool {
    match rule {
        KeepRule::Within { start, end } => start <= e.timestamp_ms <= end,
        KeepRule::Outside { start, end } => e.timestamp_ms < start || e.timestamp_ms > end,
        KeepRule::KindNotIn { excluded } => !excluded@.map_values(|f: String| f@).contains(event_kind(e.event)),
    }
}

fn rule_keeps(rule: &KeepRule, e: &EventRecord) -> (res: bool)
    ensures
        res == keeps(*rule, *e),
{
    match rule {
        KeepRule::Within { start, end } => *start <= e.timestamp_ms && e.timestamp_ms <= *end,
        KeepRule::Outside { start, end } => e.timestamp_ms < *start || e.timestamp_ms > *end,
        KeepRule::KindNotIn { excluded } => !contains_string(excluded, e.event.kind_name()),
    }
}

/// The records that `rule` keeps, in order.
fn retain_records(events: Vec<EventRecord>, rule: &KeepRule) -> (res: Vec<EventRecord>)
    ensures
        res@ == events@.filter(|e: EventRecord| keeps(*rule, e)),
{
    let ghost all = events@;
    let mut rest = events;
    let mut out: Vec<EventRecord> = Vec::new();
    let ghost mut k: int = 0;
    while rest.len() > 0
        invariant
            0 <= k <= all.len(),
            rest@ == all.skip(k),
            out@ == all.take(k).filter(|e: EventRecord| keeps(*rule, e)),
        decreases rest.len(),
    {
        let e = rest.remove(0);
        proof {
            assert(all.take(k + 1) =~= all.take(k).push(all[k]));
            all.take(k).lemma_filter_push(all[k], |e: EventRecord| keeps(*rule, e));
            assert(rest@ =~= all.skip(k + 1));
        }
        if rule_keeps(rule, &e) {
            out.push(e);
        }
        proof {
            k = k + 1;
        }
    }
    assert(all.take(k) =~= all);
    out
}

/// `events` with `delta` taken off every timestamp.
fn shift_back(events: Vec<EventRecord>, delta: u64) -> (res: Vec<EventRecord>)
    requires
        forall|i: int| 0 <= i < events@.len() ==> events@[i].timestamp_ms >= delta,
    ensures
        res@.len() == events@.len(),
        forall|i: int|
            0 <= i < events@.len() ==> (#[trigger] res@[i]).timestamp_ms == events@[i].timestamp_ms - delta
                && res@[i].event == events@[i].event && res@[i].metadata == events@[i].metadata,
{
    let ghost all = events@;
    let mut rest = events;
    let mut out: Vec<EventRecord> = Vec::new();
    let ghost mut k: int = 0;
    while rest.len() > 0
        invariant
            0 <= k <= all.len(),
            rest@ == all.skip(k),
            out@.len() == k,
            forall|i: int| 0 <= i < all.len() ==> all[i].timestamp_ms >= delta,
            forall|i: int|
                0 <= i < k ==> (#[trigger] out@[i]).timestamp_ms == all[i].timestamp_ms - delta
                    && out@[i].event == all[i].event && out@[i].metadata == all[i].metadata,
        decreases rest.len(),
    {
        let mut e = rest.remove(0);
        assert(e == all[k]);
        e.timestamp_ms = e.timestamp_ms - delta;
        out.push(e);
        proof {
            assert(rest@ =~= all.skip(k + 1));
            k = k + 1;
        }
    }
    out
}

/// The timestamp an edit moves a record at `t` to: later by `delta` when it is
/// after `after`.
pub open spec fn delayed(t: u64, after: u64, delta: u64) -> int {
    if t > after {
        t + delta
    } else {
        t as int
    }
}

/// `events` with `delta` added to every timestamp after `after`.
fn shift_after(events: Vec<EventRecord>, after: u64, delta: u64) -> (res: Vec<EventRecord>)
    requires
        forall|i: int| 0 <= i < events@.len() ==> delayed(#[trigger] events@[i].timestamp_ms, after, delta) <= u64::MAX,
    ensures
        res@.len() == events@.len(),
        forall|i: int|
            0 <= i < events@.len() ==> (#[trigger] res@[i]).timestamp_ms == delayed(
                events@[i].timestamp_ms,
                after,
                delta,
            ) && res@[i].event == events@[i].event && res@[i].metadata == events@[i].metadata,
{
    let ghost all = events@;
    let mut rest = events;
    let mut out: Vec<EventRecord> = Vec::new();
    let ghost mut k: int = 0;
    while rest.len() > 0
        invariant
            0 <= k <= all.len(),
            rest@ == all.skip(k),
            out@.len() == k,
            forall|i: int| 0 <= i < all.len() ==> delayed(#[trigger] all[i].timestamp_ms, after, delta) <= u64::MAX,
            forall|i: int|
                0 <= i < k ==> (#[trigger] out@[i]).timestamp_ms == delayed(all[i].timestamp_ms, after, delta)
                    && out@[i].event == all[i].event && out@[i].metadata == all[i].metadata,
        decreases rest.len(),
    {
        let mut e = rest.remove(0);
        assert(e == all[k]);
        assert(delayed(all[k].timestamp_ms, after, delta) <= u64::MAX);
        if e.timestamp_ms > after {
            e.timestamp_ms = e.timestamp_ms + delta;
        }
        out.push(e);
        proof {
            assert(rest@ =~= all.skip(k + 1));
            k = k + 1;
        }
    }
    out
}

/// The index of the first record after `at_ms`, or the number of records.
pub open spec fn insert_index(events: Seq<EventRecord>, at_ms: u64) -> int
    decreases events.len(),
{
    if events.len() == 0 {
        0
    } else if events[0].timestamp_ms > at_ms {
        0
    } else {
        1 + insert_index(events.drop_first(), at_ms)
    }
}

proof fn lemma_insert_index_bounds(events: Seq<EventRecord>, at_ms: u64)
    ensures
        0 <= insert_index(events, at_ms) <= events.len(),
    decreases events.len(),
{
    if events.len() > 0 && events[0].timestamp_ms <= at_ms {
        lemma_insert_index_bounds(events.drop_first(), at_ms);
    }
}

fn insert_position(events: &Vec<EventRecord>, at_ms: u64) -> (res: usize)
    ensures
        res == insert_index(events@, at_ms),
        res <= events@.len(),
{
    proof {
        lemma_insert_index_bounds(events@, at_ms);
    }
    let n = events.len();
    let mut i: usize = 0;
    assert(events@.skip(0) =~= events@);
    while i < n
        invariant
            n == events@.len(),
            i <= n,
            insert_index(events@, at_ms) == i + insert_index(events@.skip(i as int), at_ms),
        decreases n - i,
    {
        assert(events@.skip(i as int).drop_first() =~= events@.skip(i + 1));
        assert(events@.skip(i as int)[0] == events@[i as int]);
        if events[i].timestamp_ms > at_ms {
            return i;
        }
        i = i + 1;
    }
    assert(events@.skip(n as int).len() == 0);
    n
}

/// `events` with `extra`, each moved later by `at_ms`, put in before the first
/// record after `at_ms`.
fn insert_records(events: Vec<EventRecord>, extra: Vec<EventRecord>, at_ms: u64) -> (res: Vec<EventRecord>)
    requires
        forall|i: int| 0 <= i < extra@.len() ==> #[trigger] extra@[i].timestamp_ms + at_ms <= u64::MAX,
    ensures
        ({
            let p = insert_index(events@, at_ms);
            &&& res@.len() == events@.len() + extra@.len()
            &&& res@.take(p) == events@.take(p)
            &&& res@.skip(p + extra@.len()) == events@.skip(p)
            &&& forall|i: int|
                0 <= i < extra@.len() ==> (#[trigger] res@[p + i]).timestamp_ms == extra@[i].timestamp_ms + at_ms
                    && res@[p + i].event == extra@[i].event && res@[p + i].metadata == extra@[i].metadata
        }),
{
    let p = insert_position(&events, at_ms);
    let ghost before = events@;
    let ghost added = extra@;
    let mut head = events;
    let mut tail = head.split_off(p);
    let ghost tail_v = tail@;
    assert(head@ == before.take(p as int));
    assert(tail_v == before.skip(p as int));
    let mut rest = extra;
    let ghost mut k: int = 0;
    while rest.len() > 0
        invariant
            0 <= k <= added.len(),
            rest@ == added.skip(k),
            head@.len() == p + k,
            head@.take(p as int) == before.take(p as int),
            forall|i: int| 0 <= i < added.len() ==> #[trigger] added[i].timestamp_ms + at_ms <= u64::MAX,
            forall|i: int|
                0 <= i < k ==> (#[trigger] head@[p + i]).timestamp_ms == added[i].timestamp_ms + at_ms
                    && head@[p + i].event == added[i].event && head@[p + i].metadata == added[i].metadata,
        decreases rest.len(),
    {
        let mut e = rest.remove(0);
        assert(e == added[k]);
        e.timestamp_ms = e.timestamp_ms + at_ms;
        let ghost old_head = head@;
        head.push(e);
        proof {
            assert(head@.take(p as int) =~= old_head.take(p as int));
            assert(rest@ =~= added.skip(k + 1));
            k = k + 1;
        }
    }
    let ghost mid = head@;
    head.append(&mut tail);
    proof {
        assert(head@.take(p as int) =~= mid.take(p as int));
        assert(head@.skip(p + added.len()) =~= tail_v);
        assert forall|i: int| 0 <= i < added.len() implies (#[trigger] head@[p + i]).timestamp_ms
            == added[i].timestamp_ms + at_ms && head@[p + i].event == added[i].event && head@[p + i].metadata
            == added[i].metadata by {
            assert(head@[p + i] == mid[p + i]);
        }
    }
    head
}

/// Edits a recording: trims it, cuts ranges out, inserts and splices events,
/// adds delays and leaves kinds of events out.
pub struct RecordingEditor {
    recording: Recording,
}

impl View for RecordingEditor {
    type V = Recording;

    closed spec fn view(&self) -> Recording {
        self.recording
    }
}

impl RecordingEditor {
    /// An editor of `recording`.
    pub fn new(recording: Recording) -> (res: Self)
        ensures
            res@ == recording,
    {
        RecordingEditor { recording }
    }

    /// Keeps the events from `start_ms` to `end_ms` only, moved so that the
    /// first starts at zero; the duration becomes the length of the range.
    pub fn trim(&mut self, start_ms: u64, end_ms: u64)
        requires
            start_ms <= end_ms,
            ({
                let kept = old(self)@.events@.filter(|e: EventRecord| start_ms <= e.timestamp_ms <= end_ms);
                forall|i: int| 0 <= i < kept.len() ==> #[trigger] kept[i].timestamp_ms >= kept[0].timestamp_ms
            }),
        ensures
            ({
                let kept = old(self)@.events@.filter(|e: EventRecord| start_ms <= e.timestamp_ms <= end_ms);
                let offset = if kept.len() > 0 {
                    kept[0].timestamp_ms
                } else {
                    0
                };
                &&& final(self)@.events@.len() == kept.len()
                &&& forall|i: int|
                    0 <= i < kept.len() ==> (#[trigger] final(self)@.events@[i]).timestamp_ms == kept[i].timestamp_ms
                        - offset && final(self)@.events@[i].event == kept[i].event
                        && final(self)@.events@[i].metadata == kept[i].metadata
                &&& final(self)@.metadata.event_count == kept.len()
                &&& final(self)@.metadata.duration_ms == end_ms - start_ms
            }),
            final(self)@.snapshots == old(self)@.snapshots,
            final(self)@.version == old(self)@.version,
            final(self)@.metadata.name == old(self)@.metadata.name,
            final(self)@.metadata.id == old(self)@.metadata.id,
    {
        let rule = KeepRule::Within { start: start_ms, end: end_ms };
        let mut events: Vec<EventRecord> = Vec::new();
        std::mem::swap(&mut events, &mut self.recording.events);
        let kept = retain_records(events, &rule);
        assert((|e: EventRecord| keeps(rule, e)) =~= (|e: EventRecord| start_ms <= e.timestamp_ms <= end_ms));
        assert(kept@ == old(self)@.events@.filter(|e: EventRecord| start_ms <= e.timestamp_ms <= end_ms));
        let offset = if kept.len() > 0 {
            kept[0].timestamp_ms
        } else {
            0
        };
        let shifted = shift_back(kept, offset);
        self.recording.metadata.event_count = shifted.len();
        self.recording.metadata.duration_ms = end_ms - start_ms;
        self.recording.events = shifted;
    }

    /// Cuts the events from `start_ms` to `end_ms` out; later events move
    /// earlier by the length of the range, and so does the end.
    pub fn remove_range(&mut self, start_ms: u64, end_ms: u64)
        requires
            start_ms <= end_ms,
            old(self)@.metadata.duration_ms >= end_ms - start_ms,
        ensures
            ({
                let kept = old(self)@.events@.filter(|e: EventRecord| e.timestamp_ms < start_ms || e.timestamp_ms > end_ms);
                let removed = end_ms - start_ms;
                &&& final(self)@.events@.len() == kept.len()
                &&& forall|i: int|
                    0 <= i < kept.len() ==> (#[trigger] final(self)@.events@[i]).timestamp_ms == (if kept[i].timestamp_ms
                        > end_ms {
                        kept[i].timestamp_ms - removed
                    } else {
                        kept[i].timestamp_ms as int
                    }) && final(self)@.events@[i].event == kept[i].event && final(self)@.events@[i].metadata
                        == kept[i].metadata
                &&& final(self)@.metadata.event_count == kept.len()
                &&& final(self)@.metadata.duration_ms == old(self)@.metadata.duration_ms - removed
            }),
            final(self)@.snapshots == old(self)@.snapshots,
            final(self)@.metadata.name == old(self)@.metadata.name,
    {
        let removed = end_ms - start_ms;
        let rule = KeepRule::Outside { start: start_ms, end: end_ms };
        let mut events: Vec<EventRecord> = Vec::new();
        std::mem::swap(&mut events, &mut self.recording.events);
        let kept = retain_records(events, &rule);
        let ghost kv = kept@;
        assert((|e: EventRecord| keeps(rule, e)) =~= (|e: EventRecord| e.timestamp_ms < start_ms || e.timestamp_ms
            > end_ms));
        assert(kv == old(self)@.events@.filter(|e: EventRecord| e.timestamp_ms < start_ms || e.timestamp_ms > end_ms));
        let mut rest = kept;
        let mut out: Vec<EventRecord> = Vec::new();
        let ghost mut k: int = 0;
        while rest.len() > 0
            invariant
                0 <= k <= kv.len(),
                rest@ == kv.skip(k),
                out@.len() == k,
                removed == end_ms - start_ms,
                forall|i: int|
                    0 <= i < k ==> (#[trigger] out@[i]).timestamp_ms == (if kv[i].timestamp_ms > end_ms {
                        kv[i].timestamp_ms - removed
                    } else {
                        kv[i].timestamp_ms as int
                    }) && out@[i].event == kv[i].event && out@[i].metadata == kv[i].metadata,
            decreases rest.len(),
        {
            let mut e = rest.remove(0);
            assert(e == kv[k]);
            if e.timestamp_ms > end_ms {
                e.timestamp_ms = e.timestamp_ms - removed;
            }
            out.push(e);
            proof {
                assert(rest@ =~= kv.skip(k + 1));
                k = k + 1;
            }
        }
        self.recording.metadata.event_count = out.len();
        self.recording.metadata.duration_ms = self.recording.metadata.duration_ms - removed;
        self.recording.events = out;
    }

    /// Puts `events`, moved later by `at_ms`, in before the first event after
    /// `at_ms`.
    pub fn insert_events(&mut self, at_ms: u64, events: Vec<EventRecord>)
        requires
            forall|i: int| 0 <= i < events@.len() ==> #[trigger] events@[i].timestamp_ms + at_ms <= u64::MAX,
        ensures
            ({
                let p = insert_index(old(self)@.events@, at_ms);
                let r = final(self)@.events@;
                &&& r.len() == old(self)@.events@.len() + events@.len()
                &&& r.take(p) == old(self)@.events@.take(p)
                &&& r.skip(p + events@.len()) == old(self)@.events@.skip(p)
                &&& forall|i: int|
                    0 <= i < events@.len() ==> (#[trigger] r[p + i]).timestamp_ms == events@[i].timestamp_ms + at_ms
                        && r[p + i].event == events@[i].event && r[p + i].metadata == events@[i].metadata
            }),
            final(self)@.metadata.event_count == final(self)@.events@.len(),
            final(self)@.metadata.duration_ms == old(self)@.metadata.duration_ms,
            final(self)@.snapshots == old(self)@.snapshots,
    {
        let mut current: Vec<EventRecord> = Vec::new();
        std::mem::swap(&mut current, &mut self.recording.events);
        let merged = insert_records(current, events, at_ms);
        self.recording.metadata.event_count = merged.len();
        self.recording.events = merged;
    }

    /// Puts the events of `other`, moved later by `at_ms`, in before the first
    /// event after `at_ms`.
    pub fn splice(&mut self, other: Recording, at_ms: u64)
        requires
            forall|i: int| 0 <= i < other.events@.len() ==> #[trigger] other.events@[i].timestamp_ms + at_ms <= u64::MAX,
        ensures
            ({
                let p = insert_index(old(self)@.events@, at_ms);
                let r = final(self)@.events@;
                &&& r.len() == old(self)@.events@.len() + other.events@.len()
                &&& r.take(p) == old(self)@.events@.take(p)
                &&& r.skip(p + other.events@.len()) == old(self)@.events@.skip(p)
                &&& forall|i: int|
                    0 <= i < other.events@.len() ==> (#[trigger] r[p + i]).timestamp_ms == other.events@[i].timestamp_ms
                        + at_ms && r[p + i].event == other.events@[i].event && r[p + i].metadata
                        == other.events@[i].metadata
            }),
            final(self)@.metadata.event_count == final(self)@.events@.len(),
            final(self)@.metadata.duration_ms == old(self)@.metadata.duration_ms,
    {
        let mut current: Vec<EventRecord> = Vec::new();
        std::mem::swap(&mut current, &mut self.recording.events);
        let merged = insert_records(current, other.events, at_ms);
        self.recording.metadata.event_count = merged.len();
        self.recording.events = merged;
    }

    /// Moves every event after `after_ms` later by `delay_ms`, and the end too.
    pub fn add_delay(&mut self, after_ms: u64, delay_ms: u64)
        requires
            old(self)@.metadata.duration_ms + delay_ms <= u64::MAX,
            forall|i: int|
                0 <= i < old(self)@.events@.len() ==> delayed(
                    #[trigger] old(self)@.events@[i].timestamp_ms,
                    after_ms,
                    delay_ms,
                ) <= u64::MAX,
        ensures
            final(self)@.events@.len() == old(self)@.events@.len(),
            forall|i: int|
                0 <= i < old(self)@.events@.len() ==> (#[trigger] final(self)@.events@[i]).timestamp_ms == delayed(
                    old(self)@.events@[i].timestamp_ms,
                    after_ms,
                    delay_ms,
                ) && final(self)@.events@[i].event == old(self)@.events@[i].event,
            final(self)@.metadata.duration_ms == old(self)@.metadata.duration_ms + delay_ms,
            final(self)@.metadata.event_count == old(self)@.metadata.event_count,
    {
        let mut current: Vec<EventRecord> = Vec::new();
        std::mem::swap(&mut current, &mut self.recording.events);
        let shifted = shift_after(current, after_ms, delay_ms);
        self.recording.events = shifted;
        self.recording.metadata.duration_ms = self.recording.metadata.duration_ms + delay_ms;
    }

    /// Leaves out the events whose kind is among `event_types`.
    pub fn filter_events(&mut self, event_types: Vec<String>)
        ensures
            final(self)@.events@ == old(self)@.events@.filter(
                |e: EventRecord| !event_types@.map_values(|f: String| f@).contains(event_kind(e.event)),
            ),
            final(self)@.metadata.event_count == final(self)@.events@.len(),
            final(self)@.metadata.duration_ms == old(self)@.metadata.duration_ms,
    {
        let ghost types = event_types@;
        let rule = KeepRule::KindNotIn { excluded: event_types };
        let mut current: Vec<EventRecord> = Vec::new();
        std::mem::swap(&mut current, &mut self.recording.events);
        let kept = retain_records(current, &rule);
        assert((|e: EventRecord| keeps(rule, e)) =~= (|e: EventRecord|
            !types.map_values(|f: String| f@).contains(event_kind(e.event))));
        assert(kept@ == old(self)@.events@.filter(
            |e: EventRecord| !types.map_values(|f: String| f@).contains(event_kind(e.event)),
        ));
        self.recording.metadata.event_count = kept.len();
        self.recording.events = kept;
    }

    /// The edited recording.
    pub fn finish(self) -> (res: Recording)
        ensures
            res == self@,
    {
        self.recording
    }
}

} // verus!
