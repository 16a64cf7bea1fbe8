//! Performance metrics of the page: navigation timing, memory use, resource
//! timings, JavaScript profiles, markers and measures.

use vstd::prelude::*;
use crate::clock::unix_time_millis;
use crate::json::Real64;
use crate::text::{concat, decimal, decimal_string, equals};

verus! {

/// The Core Web Vitals of a page, in milliseconds (the layout shift has no
/// unit), each a floating-point number carried by its bits.
#[derive(Debug, Clone, Copy, PartialEq, Eq, Structural)]
pub struct CoreWebVitals {
    pub lcp: Option<Real64>,
    pub fid: Option<Real64>,
    pub cls: Option<Real64>,
    pub inp: Option<Real64>,
    pub ttfb: Option<Real64>,
    pub fcp: Option<Real64>,
}

impl CoreWebVitals {
    /// No vital measured yet.
    pub fn new() -> (res: Self)
        ensures
            res == (CoreWebVitals { lcp: None, fid: None, cls: None, inp: None, ttfb: None, fcp: None }),
    {
        CoreWebVitals { lcp: None, fid: None, cls: None, inp: None, ttfb: None, fcp: None }
    }
}

impl Default for CoreWebVitals {
    fn default() -> (res: Self)
        ensures
            res == (CoreWebVitals { lcp: None, fid: None, cls: None, inp: None, ttfb: None, fcp: None }),
    {
        CoreWebVitals::new()
    }
}

/// The moments of a page load, in milliseconds.
#[derive(Debug, Clone, Copy, PartialEq, Eq, Structural)]
pub struct NavigationTiming {
    pub navigation_start: u64,
    pub unload_event_start: Option<u64>,
    pub unload_event_end: Option<u64>,
    pub redirect_start: Option<u64>,
    pub redirect_end: Option<u64>,
    pub redirect_count: u32,
    pub fetch_start: u64,
    pub domain_lookup_start: u64,
    pub domain_lookup_end: u64,
    pub connect_start: u64,
    pub connect_end: u64,
    pub secure_connection_start: Option<u64>,
    pub request_start: u64,
    pub response_start: u64,
    pub response_end: u64,
    pub dom_interactive: u64,
    pub dom_content_loaded_event_start: u64,
    pub dom_content_loaded_event_end: u64,
    pub dom_complete: u64,
    pub load_event_start: u64,
    pub load_event_end: u64,
}

/// The time from `from` to `to`, zero where `to` is earlier.
pub open spec fn span(from: u64, to: u64) -> u64 {
    if to >= from {
        (to - from) as u64
    } else {
        0
    }
}

impl NavigationTiming {
    /// From the start of navigation to the end of the load event.
    pub fn total_load_time(&self) -> (res: u64)
        ensures
            res == span(self.navigation_start, self.load_event_end),
    {
        self.load_event_end.saturating_sub(self.navigation_start)
    }

    /// The DNS lookup.
    pub fn dns_time(&self) -> (res: u64)
        ensures
            res == span(self.domain_lookup_start, self.domain_lookup_end),
    {
        self.domain_lookup_end.saturating_sub(self.domain_lookup_start)
    }

    /// The TCP connection.
    pub fn tcp_time(&self) -> (res: u64)
        ensures
            res == span(self.connect_start, self.connect_end),
    {
        self.connect_end.saturating_sub(self.connect_start)
    }

    /// From the request to the first byte of the response.
    pub fn request_time(&self) -> (res: u64)
        ensures
            res == span(self.request_start, self.response_start),
    {
        self.response_start.saturating_sub(self.request_start)
    }

    /// The download of the response.
    pub fn response_time(&self) -> (res: u64)
        ensures
            res == span(self.response_start, self.response_end),
    {
        self.response_end.saturating_sub(self.response_start)
    }

    /// From an interactive DOM to a complete one.
    pub fn dom_processing_time(&self) -> (res: u64)
        ensures
            res == span(self.dom_interactive, self.dom_complete),
    {
        self.dom_complete.saturating_sub(self.dom_interactive)
    }
}

/// The timing of one resource, in milliseconds, each time a floating-point
/// number carried by its bits.
#[derive(Debug)]
pub struct ResourceTiming {
    pub name: String,
    pub initiator_type: String,
    pub start_time: Real64,
    pub duration: Real64,
    pub fetch_start: Real64,
    pub domain_lookup_start: Real64,
    pub domain_lookup_end: Real64,
    pub connect_start: Real64,
    pub connect_end: Real64,
    pub secure_connection_start: Option<Real64>,
    pub request_start: Real64,
    pub response_start: Real64,
    pub response_end: Real64,
    pub transfer_size: u64,
    pub encoded_body_size: u64,
    pub decoded_body_size: u64,
    pub from_cache: bool,
}

/// The profile of one function, its times carried by their bits.
#[derive(Debug)]
pub struct FunctionProfile {
    pub name: String,
    pub location: String,
    pub self_time: Real64,
    pub total_time: Real64,
    pub call_count: u32,
}

/// A JavaScript profile, with its times in milliseconds since the epoch.
#[derive(Debug)]
pub struct JavaScriptProfile {
    pub id: String,
    pub script_url: String,
    pub start_time: u64,
    pub end_time: u64,
    pub duration_ms: u64,
    pub functions: Vec<FunctionProfile>,
    pub call_count: u32,
}

impl JavaScriptProfile {
    /// A profile `id` of `script_url` started at `now_ms`.
    pub fn new_at(id: String, script_url: String, now_ms: u64) -> (res: Self)
        ensures
            res.id == id,
            res.script_url == script_url,
            res.start_time == now_ms,
            res.end_time == 0,
            res.duration_ms == 0,
            res.functions@.len() == 0,
            res.call_count == 0,
    {
        JavaScriptProfile {
            id,
            script_url,
            start_time: now_ms,
            end_time: 0,
            duration_ms: 0,
            functions: Vec::new(),
            call_count: 0,
        }
    }

    /// A profile `id` of `script_url` started now.
    pub fn new(id: String, script_url: String) -> (res: Self)
        ensures
            res.id == id,
            res.script_url == script_url,
            res.end_time == 0,
            res.duration_ms == 0,
            res.functions@.len() == 0,
    {
        let now = unix_time_millis();
        JavaScriptProfile::new_at(id, script_url, now)
    }

    /// Ends the profile at `now_ms`; its duration is the time since its start
    /// (zero if the clock went back).
    pub fn finish_at(&mut self, now_ms: u64)
        ensures
            final(self).end_time == now_ms,
            final(self).duration_ms == span(old(self).start_time, now_ms),
            final(self).id == old(self).id,
            final(self).script_url == old(self).script_url,
            final(self).start_time == old(self).start_time,
            final(self).functions == old(self).functions,
            final(self).call_count == old(self).call_count,
    {
        self.end_time = now_ms;
        self.duration_ms = now_ms.saturating_sub(self.start_time);
    }

    /// Ends the profile now.
    pub fn finish(&mut self)
        ensures
            final(self).duration_ms == span(old(self).start_time, final(self).end_time),
            final(self).id == old(self).id,
            final(self).start_time == old(self).start_time,
    {
        let now = unix_time_millis();
        self.finish_at(now);
    }
}

/// The page's memory use.
#[derive(Debug, Clone, Copy, PartialEq, Eq, Structural)]
pub struct MemoryMetrics {
    pub js_heap_size_limit: u64,
    pub total_js_heap_size: u64,
    pub used_js_heap_size: u64,
    pub dom_node_count: u32,
    pub event_listener_count: u32,
    pub detached_node_count: u32,
    pub timestamp: u64,
}

impl MemoryMetrics {
    /// Whether more than 80% of the heap limit is used (never without a
    /// limit).
    pub fn is_high_memory_usage(&self) -> (res: bool)
        ensures
            res == (self.js_heap_size_limit > 0 && 5 * self.used_js_heap_size > 4 * self.js_heap_size_limit),
    {
        if self.js_heap_size_limit == 0 {
            return false;
        }
        let used = self.used_js_heap_size as u128;
        let limit = self.js_heap_size_limit as u128;
        5 * used > 4 * limit
    }
}

/// A named moment, in milliseconds since the epoch.
#[derive(Debug)]
pub struct PerformanceMarker {
    pub name: String,
    pub timestamp_ms: u64,
    pub metadata: Option<Vec<(String, String)>>,
}

/// The time between two markers, in milliseconds (negative when the end
/// marker is the earlier one), taken at `timestamp_ms`.
#[derive(Debug)]
pub struct PerformanceMeasure {
    pub name: String,
    pub start_mark: String,
    pub end_mark: String,
    pub duration_ms: i128,
    pub timestamp_ms: u64,
}

/// What the monitor has collected, counted.
#[derive(Debug)]
pub struct PerformanceSummary {
    pub core_web_vitals: CoreWebVitals,
    pub navigation_timing: Option<NavigationTiming>,
    pub resource_count: usize,
    pub total_resource_size: u64,
    pub js_profile_count: usize,
    pub memory_snapshots: usize,
    pub latest_memory: Option<MemoryMetrics>,
    pub marker_count: usize,
    pub measure_count: usize,
}

/// What measuring from marker `start_mark` to `end_mark` at some time gives:
/// a missing marker is an error and changes nothing; otherwise one measure is
/// appended, with the two markers' names and the time between them, and
/// nothing else changes.
pub open spec fn measure_outcome(
    o: PerformanceView,
    n: PerformanceView,
    name: String,
    start_mark: String,
    end_mark: String,
    res: Result<(), String>,
) -> bool {
    match (marker_named(o.markers, start_mark@), marker_named(o.markers, end_mark@)) {
        (None, _) => (res matches Err(e) && e@ == "Start marker '"@ + start_mark@ + "' not found"@) && n == o,
        (Some(_), None) => (res matches Err(e) && e@ == "End marker '"@ + end_mark@ + "' not found"@) && n == o,
        (Some(s), Some(e)) => res is Ok && exists|t: u64|
            n == #[trigger] with_measure(o, name, start_mark, end_mark, (e.timestamp_ms - s.timestamp_ms) as i128, t),
    }
}

/// The monitor with one more measure, named `name`, taken at `t`.
pub open spec fn with_measure(
    o: PerformanceView,
    name: String,
    start_mark: String,
    end_mark: String,
    duration_ms: i128,
    t: u64,
) -> PerformanceView {
    PerformanceView {
        measures: o.measures.push(PerformanceMeasure { name, start_mark, end_mark, duration_ms, timestamp_ms: t }),
        ..o
    }
}

/// The first marker named `name`.
pub open spec fn marker_named(markers: Seq<PerformanceMarker>, name: Seq<char>) -> Option<PerformanceMarker>
    decreases markers.len(),
{
    if markers.len() == 0 {
        None
    } else if markers[0].name@ == name {
        Some(markers[0])
    } else {
        marker_named(markers.drop_first(), name)
    }
}

/// The bytes transferred for the resources.
pub open spec fn transferred(r: Seq<ResourceTiming>) -> int
    decreases r.len(),
{
    if r.len() == 0 {
        0
    } else {
        transferred(r.drop_last()) + r.last().transfer_size
    }
}

/// The bytes transferred add up over resources: nothing for none, a
/// resource's own transfer size for one, and the sum over two lists joined.
pub proof fn law_transferred_adds_transfer_sizes(a: Seq<ResourceTiming>, b: Seq<ResourceTiming>, r: ResourceTiming)
    ensures
        transferred(Seq::<ResourceTiming>::empty()) == 0,
        transferred(seq![r]) == r.transfer_size,
        transferred(a + b) == transferred(a) + transferred(b),
    decreases b.len(),
{
    assert(seq![r].drop_last() =~= Seq::<ResourceTiming>::empty());
    if b.len() == 0 {
        assert(a + b =~= a);
    } else {
        law_transferred_adds_transfer_sizes(a, b.drop_last(), r);
        assert((a + b).drop_last() =~= a + b.drop_last());
        assert((a + b).last() == b.last());
    }
}

/// Two profiles that hold the same values.
pub open spec fn same_profile(a: JavaScriptProfile, b: JavaScriptProfile) -> bool {
    &&& a.id@ == b.id@
    &&& a.script_url@ == b.script_url@
    &&& a.start_time == b.start_time
    &&& a.end_time == b.end_time
    &&& a.duration_ms == b.duration_ms
    &&& a.call_count == b.call_count
    &&& a.functions@.len() == b.functions@.len()
    &&& forall|i: int|
        0 <= i < a.functions@.len() ==> (#[trigger] a.functions@[i]).name@ == b.functions@[i].name@
            && a.functions@[i].location@ == b.functions@[i].location@ && a.functions@[i].self_time
            == b.functions@[i].self_time && a.functions@[i].total_time == b.functions@[i].total_time
            && a.functions@[i].call_count == b.functions@[i].call_count
}

impl Clone for JavaScriptProfile {
    fn clone(&self) -> (res: Self)
        ensures
            same_profile(res, *self),
    {
        let mut functions: Vec<FunctionProfile> = Vec::new();
        let mut i: usize = 0;
        while i < self.functions.len()
            invariant
                i <= self.functions@.len(),
                functions@.len() == i,
                forall|k: int|
                    0 <= k < i ==> (#[trigger] functions@[k]).name@ == self.functions@[k].name@
                        && functions@[k].location@ == self.functions@[k].location@ && functions@[k].self_time
                        == self.functions@[k].self_time && functions@[k].total_time == self.functions@[k].total_time
                        && functions@[k].call_count == self.functions@[k].call_count,
            decreases self.functions.len() - i,
        {
            let f = &self.functions[i];
            functions.push(
                FunctionProfile {
                    name: f.name.clone(),
                    location: f.location.clone(),
                    self_time: f.self_time,
                    total_time: f.total_time,
                    call_count: f.call_count,
                },
            );
            i = i + 1;
        }
        JavaScriptProfile {
            id: self.id.clone(),
            script_url: self.script_url.clone(),
            start_time: self.start_time,
            end_time: self.end_time,
            duration_ms: self.duration_ms,
            functions,
            call_count: self.call_count,
        }
    }
}

/// A performance monitor as a mathematical value.
pub struct PerformanceView {
    pub monitoring: bool,
    pub core_web_vitals: CoreWebVitals,
    pub navigation_timing: Option<NavigationTiming>,
    pub resource_timings: Seq<ResourceTiming>,
    pub js_profiles: Seq<JavaScriptProfile>,
    pub active_profile: Option<JavaScriptProfile>,
    pub memory_snapshots: Seq<MemoryMetrics>,
    pub markers: Seq<PerformanceMarker>,
    pub measures: Seq<PerformanceMeasure>,
    pub max_resource_entries: nat,
}

/// `v` with everything collected dropped.
pub open spec fn cleared(v: PerformanceView) -> PerformanceView {
    PerformanceView {
        core_web_vitals: CoreWebVitals { lcp: None, fid: None, cls: None, inp: None, ttfb: None, fcp: None },
        navigation_timing: None,
        resource_timings: Seq::empty(),
        js_profiles: Seq::empty(),
        active_profile: None,
        memory_snapshots: Seq::empty(),
        markers: Seq::empty(),
        measures: Seq::empty(),
        ..v
    }
}

/// Collects the page's performance metrics.
pub struct PerformanceMonitor {
    monitoring: bool,
    core_web_vitals: CoreWebVitals,
    navigation_timing: Option<NavigationTiming>,
    resource_timings: Vec<ResourceTiming>,
    js_profiles: Vec<JavaScriptProfile>,
    active_profile: Option<JavaScriptProfile>,
    memory_snapshots: Vec<MemoryMetrics>,
    markers: Vec<PerformanceMarker>,
    measures: Vec<PerformanceMeasure>,
    max_resource_entries: usize,
}

impl View for PerformanceMonitor {
    type V = PerformanceView;

    closed spec fn view(&self) -> PerformanceView {
        PerformanceView {
            monitoring: self.monitoring,
            core_web_vitals: self.core_web_vitals,
            navigation_timing: self.navigation_timing,
            resource_timings: self.resource_timings@,
            js_profiles: self.js_profiles@,
            active_profile: self.active_profile,
            memory_snapshots: self.memory_snapshots@,
            markers: self.markers@,
            measures: self.measures@,
            max_resource_entries: self.max_resource_entries as nat,
        }
    }
}

impl PerformanceMonitor {
    /// A monitor that is not monitoring and has collected nothing, keeping the
    /// last five hundred resource timings.
    pub fn new() -> (res: Self)
        ensures
            !res@.monitoring,
            res@ == cleared(res@),
            res@.max_resource_entries == 500,
    {
        let res = PerformanceMonitor {
            monitoring: false,
            core_web_vitals: CoreWebVitals::new(),
            navigation_timing: None,
            resource_timings: Vec::new(),
            js_profiles: Vec::new(),
            active_profile: None,
            memory_snapshots: Vec::new(),
            markers: Vec::new(),
            measures: Vec::new(),
            max_resource_entries: 500,
        };
        assert(res@ =~= cleared(res@));
        res
    }

    /// Starts monitoring afresh.
    pub fn start_monitoring(&mut self)
        ensures
            final(self)@ == cleared(PerformanceView { monitoring: true, ..old(self)@ }),
    {
        self.monitoring = true;
        self.reset();
    }

    /// Stops monitoring; what was collected stays.
    pub fn stop_monitoring(&mut self)
        ensures
            final(self)@ == (PerformanceView { monitoring: false, ..old(self)@ }),
    {
        self.monitoring = false;
    }

    /// Whether the monitor is monitoring.
    pub fn is_monitoring(&self) -> (res: bool)
        ensures
            res == self@.monitoring,
    {
        self.monitoring
    }

    /// Drops everything collected.
    pub fn reset(&mut self)
        ensures
            final(self)@ == cleared(old(self)@),
    {
        self.core_web_vitals = CoreWebVitals::new();
        self.navigation_timing = None;
        self.resource_timings.clear();
        self.js_profiles.clear();
        self.active_profile = None;
        self.memory_snapshots.clear();
        self.markers.clear();
        self.measures.clear();
        assert(self@ =~= cleared(old(self)@));
    }

    /// Sets the Core Web Vitals.
    pub fn update_core_web_vitals(&mut self, vitals: CoreWebVitals)
        ensures
            final(self)@ == (PerformanceView { core_web_vitals: vitals, ..old(self)@ }),
    {
        self.core_web_vitals = vitals;
    }

    /// Sets the navigation timing.
    pub fn set_navigation_timing(&mut self, timing: NavigationTiming)
        ensures
            final(self)@ == (PerformanceView { navigation_timing: Some(timing), ..old(self)@ }),
    {
        self.navigation_timing = Some(timing);
    }

    /// Adds a resource timing, dropping the oldest when the limit is reached.
    pub fn add_resource_timing(&mut self, timing: ResourceTiming)
        ensures
            final(self)@ == (PerformanceView {
                resource_timings: if old(self)@.resource_timings.len() >= old(self)@.max_resource_entries
                    && old(self)@.resource_timings.len() > 0 {
                    old(self)@.resource_timings.drop_first().push(timing)
                } else {
                    old(self)@.resource_timings.push(timing)
                },
                ..old(self)@
            }),
    {
        if self.resource_timings.len() >= self.max_resource_entries && self.resource_timings.len() > 0 {
            self.resource_timings.remove(0);
        }
        self.resource_timings.push(timing);
    }

    /// Starts profiling `script_url` at `now_ms`, in place of a profile in
    /// progress; the profile's id is handed back.
    pub fn start_js_profile_at(&mut self, script_url: String, now_ms: u64) -> (res: String)
        ensures
            res@ == "profile_"@ + decimal(now_ms as nat),
            final(self)@.active_profile matches Some(p) && p.id@ == res@ && p.script_url == script_url
                && p.start_time == now_ms && p.end_time == 0 && p.duration_ms == 0 && p.functions@.len() == 0
                && p.call_count == 0,
            final(self)@ == (PerformanceView { active_profile: final(self)@.active_profile, ..old(self)@ }),
    {
        let id = concat("profile_", decimal_string(now_ms).as_str());
        let profile = JavaScriptProfile::new_at(id.clone(), script_url, now_ms);
        self.active_profile = Some(profile);
        id
    }

    /// Starts profiling `script_url` now.
    pub fn start_js_profile(&mut self, script_url: String) -> (res: String)
        ensures
            final(self)@.active_profile matches Some(p) && p.id@ == res@ && p.script_url == script_url,
            final(self)@.js_profiles == old(self)@.js_profiles,
    {
        let now = unix_time_millis();
        self.start_js_profile_at(script_url, now)
    }

    /// Ends the profile in progress at `now_ms`, keeps it, and hands it back.
    pub fn stop_js_profile_at(&mut self, now_ms: u64) -> (res: Option<JavaScriptProfile>)
        ensures
            match old(self)@.active_profile {
                None => res is None && final(self)@ == old(self)@,
                Some(p) => res matches Some(q) && q.id == p.id && q.script_url == p.script_url && q.start_time
                    == p.start_time && q.end_time == now_ms && q.duration_ms == span(p.start_time, now_ms)
                    && final(self)@.js_profiles.len() == old(self)@.js_profiles.len() + 1
                    && final(self)@.js_profiles.drop_last() == old(self)@.js_profiles && same_profile(
                    final(self)@.js_profiles.last(),
                    q,
                ) && final(self)@ == (PerformanceView {
                    active_profile: None,
                    js_profiles: final(self)@.js_profiles,
                    ..old(self)@
                }),
            },
    {
        match self.active_profile.take() {
            Some(mut profile) => {
                profile.finish_at(now_ms);
                let kept = profile.clone();
                let ghost before = self.js_profiles@;
                self.js_profiles.push(kept);
                assert(self.js_profiles@.drop_last() =~= before);
                Some(profile)
            },
            None => None,
        }
    }

    /// Ends the profile in progress now, keeps it, and hands it back.
    pub fn stop_js_profile(&mut self) -> (res: Option<JavaScriptProfile>)
        ensures
            old(self)@.active_profile is None ==> res is None && final(self)@ == old(self)@,
            old(self)@.active_profile matches Some(p) ==> res matches Some(q) && q.id == p.id
                && final(self)@.active_profile is None && final(self)@.js_profiles.len()
                == old(self)@.js_profiles.len() + 1,
    {
        let now = unix_time_millis();
        self.stop_js_profile_at(now)
    }

    /// Keeps a memory snapshot.
    pub fn add_memory_snapshot(&mut self, metrics: MemoryMetrics)
        ensures
            final(self)@ == (PerformanceView {
                memory_snapshots: old(self)@.memory_snapshots.push(metrics),
                ..old(self)@
            }),
    {
        self.memory_snapshots.push(metrics);
    }

    /// Sets a marker named `name` at `now_ms`.
    pub fn add_marker_at(&mut self, name: String, metadata: Option<Vec<(String, String)>>, now_ms: u64)
        ensures
            final(self)@ == (PerformanceView {
                markers: old(self)@.markers.push(PerformanceMarker { name, timestamp_ms: now_ms, metadata }),
                ..old(self)@
            }),
    {
        self.markers.push(PerformanceMarker { name, timestamp_ms: now_ms, metadata });
    }

    /// Sets a marker named `name` now.
    pub fn add_marker(&mut self, name: String, metadata: Option<Vec<(String, String)>>)
        ensures
            final(self)@.markers.len() == old(self)@.markers.len() + 1,
            final(self)@.markers.drop_last() == old(self)@.markers,
            final(self)@.markers.last().name == name,
            final(self)@.markers.last().metadata == metadata,
            final(self)@ == (PerformanceView { markers: final(self)@.markers, ..old(self)@ }),
    {
        let now = unix_time_millis();
        let ghost before = self@.markers;
        self.add_marker_at(name, metadata, now);
        assert(self@.markers.drop_last() =~= before);
    }

    /// Measures, at `now_ms`, the time from the first marker named
    /// `start_mark` to the first named `end_mark`; a missing marker is an
    /// error.
    pub fn add_measure_at(&mut self, name: String, start_mark: String, end_mark: String, now_ms: u64) -> (res:
        Result<(), String>)
        ensures
            match (marker_named(old(self)@.markers, start_mark@), marker_named(old(self)@.markers, end_mark@)) {
                (None, _) => (res matches Err(e) && e@ == "Start marker '"@ + start_mark@ + "' not found"@)
                    && final(self)@ == old(self)@,
                (Some(_), None) => (res matches Err(e) && e@ == "End marker '"@ + end_mark@ + "' not found"@)
                    && final(self)@ == old(self)@,
                (Some(s), Some(e)) => res is Ok && final(self)@ == with_measure(
                    old(self)@,
                    name,
                    start_mark,
                    end_mark,
                    (e.timestamp_ms - s.timestamp_ms) as i128,
                    now_ms,
                ),
            },
    {
        let start = match find_marker(&self.markers, start_mark.as_str()) {
            Some(i) => self.markers[i].timestamp_ms,
            None => {
                let msg = concat(concat("Start marker '", start_mark.as_str()).as_str(), "' not found");
                return Err(msg);
            },
        };
        let end = match find_marker(&self.markers, end_mark.as_str()) {
            Some(i) => self.markers[i].timestamp_ms,
            None => {
                let msg = concat(concat("End marker '", end_mark.as_str()).as_str(), "' not found");
                return Err(msg);
            },
        };
        let duration_ms = (end as i128) - (start as i128);
        self.measures.push(PerformanceMeasure { name, start_mark, end_mark, duration_ms, timestamp_ms: now_ms });
        Ok(())
    }

    /// Measures, now, the time between two markers.
    pub fn add_measure(&mut self, name: String, start_mark: String, end_mark: String) -> (res: Result<(), String>)
        ensures
            measure_outcome(old(self)@, final(self)@, name, start_mark, end_mark, res),
    {
        let now = unix_time_millis();
        self.add_measure_at(name, start_mark, end_mark, now)
    }

    /// What has been collected, counted.
    pub fn get_summary(&self) -> (res: PerformanceSummary)
        requires
            transferred(self@.resource_timings) <= u64::MAX,
        ensures
            res.core_web_vitals == self@.core_web_vitals,
            res.navigation_timing == self@.navigation_timing,
            res.resource_count == self@.resource_timings.len(),
            res.total_resource_size == transferred(self@.resource_timings),
            res.js_profile_count == self@.js_profiles.len(),
            res.memory_snapshots == self@.memory_snapshots.len(),
            res.latest_memory == if self@.memory_snapshots.len() > 0 {
                Some(self@.memory_snapshots.last())
            } else {
                None
            },
            res.marker_count == self@.markers.len(),
            res.measure_count == self@.measures.len(),
    {
        let mut total: u64 = 0;
        let mut i: usize = 0;
        while i < self.resource_timings.len()
            invariant
                i <= self.resource_timings@.len(),
                transferred(self.resource_timings@) <= u64::MAX,
                total == transferred(self.resource_timings@.take(i as int)),
            decreases self.resource_timings.len() - i,
        {
            proof {
                assert(self.resource_timings@.take(i + 1).drop_last() =~= self.resource_timings@.take(i as int));
                lemma_transferred_prefix(self.resource_timings@, i + 1);
            }
            total = total + self.resource_timings[i].transfer_size;
            i = i + 1;
        }
        assert(self.resource_timings@.take(i as int) =~= self.resource_timings@);
        let n = self.memory_snapshots.len();
        let latest = if n > 0 {
            Some(self.memory_snapshots[n - 1])
        } else {
            None
        };
        PerformanceSummary {
            core_web_vitals: self.core_web_vitals,
            navigation_timing: self.navigation_timing,
            resource_count: self.resource_timings.len(),
            total_resource_size: total,
            js_profile_count: self.js_profiles.len(),
            memory_snapshots: n,
            latest_memory: latest,
            marker_count: self.markers.len(),
            measure_count: self.measures.len(),
        }
    }

    /// The Core Web Vitals.
    pub fn get_core_web_vitals(&self) -> (res: &CoreWebVitals)
        ensures
            *res == self@.core_web_vitals,
    {
        &self.core_web_vitals
    }

    /// The navigation timing.
    pub fn get_navigation_timing(&self) -> (res: Option<&NavigationTiming>)
        ensures
            match self@.navigation_timing {
                Some(t) => res == Some(&t),
                None => res is None,
            },
    {
        match &self.navigation_timing {
            Some(t) => Some(t),
            None => None,
        }
    }

    /// The resource timings, oldest first.
    pub fn get_resource_timings(&self) -> (res: &[ResourceTiming])
        ensures
            res@ == self@.resource_timings,
    {
        self.resource_timings.as_slice()
    }

    /// The resource timings of resources started by `resource_type`.
    pub fn get_resource_timings_by_type(&self, resource_type: &str) -> (res: Vec<&ResourceTiming>)
        ensures
            res@.map_values(|r: &ResourceTiming| *r) == self@.resource_timings.filter(
                |r: ResourceTiming| r.initiator_type@ == resource_type@,
            ),
    {
        let ghost all = self@.resource_timings;
        let mut out: Vec<&ResourceTiming> = Vec::new();
        let n = self.resource_timings.len();
        let mut i: usize = 0;
        while i < n
            invariant
                n == self.resource_timings@.len(),
                all == self.resource_timings@,
                i <= n,
                out@.map_values(|r: &ResourceTiming| *r) == all.take(i as int).filter(
                    |r: ResourceTiming| r.initiator_type@ == resource_type@,
                ),
            decreases n - i,
        {
            proof {
                assert(all.take(i + 1) =~= all.take(i as int).push(all[i as int]));
                all.take(i as int).lemma_filter_push(all[i as int], |r: ResourceTiming| r.initiator_type@ == resource_type@);
            }
            let r = &self.resource_timings[i];
            let ghost before = out@;
            if equals(r.initiator_type.as_str(), resource_type) {
                out.push(r);
                assert(out@.map_values(|r: &ResourceTiming| *r) =~= before.map_values(|r: &ResourceTiming| *r).push(*r));
            }
            i = i + 1;
        }
        assert(all.take(n as int) =~= all);
        out
    }

    /// The finished profiles, oldest first.
    pub fn get_js_profiles(&self) -> (res: &[JavaScriptProfile])
        ensures
            res@ == self@.js_profiles,
    {
        self.js_profiles.as_slice()
    }

    /// The profile in progress.
    pub fn get_active_profile(&self) -> (res: Option<&JavaScriptProfile>)
        ensures
            match self@.active_profile {
                Some(p) => res == Some(&p),
                None => res is None,
            },
    {
        match &self.active_profile {
            Some(p) => Some(p),
            None => None,
        }
    }

    /// The latest memory snapshot.
    pub fn get_latest_memory(&self) -> (res: Option<&MemoryMetrics>)
        ensures
            self@.memory_snapshots.len() > 0 ==> res == Some(&self@.memory_snapshots.last()),
            self@.memory_snapshots.len() == 0 ==> res is None,
    {
        let n = self.memory_snapshots.len();
        if n > 0 {
            Some(&self.memory_snapshots[n - 1])
        } else {
            None
        }
    }

    /// The memory snapshots, oldest first.
    pub fn get_memory_snapshots(&self) -> (res: &[MemoryMetrics])
        ensures
            res@ == self@.memory_snapshots,
    {
        self.memory_snapshots.as_slice()
    }

    /// The markers, oldest first.
    pub fn get_markers(&self) -> (res: &[PerformanceMarker])
        ensures
            res@ == self@.markers,
    {
        self.markers.as_slice()
    }

    /// The measures, oldest first.
    pub fn get_measures(&self) -> (res: &[PerformanceMeasure])
        ensures
            res@ == self@.measures,
    {
        self.measures.as_slice()
    }
}

impl Default for PerformanceMonitor {
    fn default() -> (res: Self)
        ensures
            !res@.monitoring,
            res@ == cleared(res@),
    {
        PerformanceMonitor::new()
    }
}

proof fn lemma_transferred_prefix(r: Seq<ResourceTiming>, k: int)
    requires
        0 <= k <= r.len(),
    ensures
        transferred(r.take(k)) <= transferred(r),
    decreases r.len() - k,
{
    if k < r.len() {
        lemma_transferred_prefix(r, k + 1);
        assert(r.take(k + 1).drop_last() =~= r.take(k));
    } else {
        assert(r.take(k) =~= r);
    }
}

/// The index of the first marker named `name`.
fn find_marker(markers: &Vec<PerformanceMarker>, name: &str) -> (res: Option<usize>)
    ensures
        match res {
            Some(i) => i < markers@.len() && marker_named(markers@, name@) == Some(markers@[i as int]),
            None => marker_named(markers@, name@) is None,
        },
{
    let mut i: usize = 0;
    assert(markers@.skip(0) =~= markers@);
    while i < markers.len()
        invariant
            i <= markers@.len(),
            marker_named(markers@, name@) == marker_named(markers@.skip(i as int), name@),
        decreases markers.len() - i,
    {
        assert(markers@.skip(i as int).drop_first() =~= markers@.skip(i + 1));
        assert(markers@.skip(i as int)[0] == markers@[i as int]);
        if equals(markers[i].name.as_str(), name) {
            return Some(i);
        }
        i = i + 1;
    }
    assert(markers@.skip(i as int).len() == 0);
    None
}

} // verus!
