//! Monitoring the page's network traffic: requests, responses and failures,
//! the filters that choose what is kept, and statistics.

use vstd::prelude::*;
use crate::browser::navigation::{parse_web_url, url_host, url_parse_failure};
use crate::json::Real64;
use crate::text::{contains, contains_seq, equals, to_string};

verus! {

/// A request the page made.
#[derive(Debug)]
pub struct NetworkRequest {
    pub id: String,
    pub method: String,
    pub url: String,
    pub headers: Vec<(String, String)>,
    pub body: Option<String>,
    pub timestamp: u64,
    pub initiator: String,
    pub resource_type: String,
    pub blocked: bool,
}

/// A response to a request.
#[derive(Debug)]
pub struct NetworkResponse {
    pub request_id: String,
    pub status_code: u16,
    pub status_text: String,
    pub headers: Vec<(String, String)>,
    pub body: Option<String>,
    pub timestamp: u64,
    pub size: u64,
    pub from_cache: bool,
    pub mime_type: String,
}

/// What happened to a request.
#[derive(Debug, Clone, Copy, PartialEq, Eq, Structural)]
pub enum NetworkEventType {
    RequestStarted,
    RequestBlocked,
    ResponseReceived,
    ResponseFinished,
    RequestFailed,
    LoadingFinished,
}

/// How long a request took, in milliseconds; the phases are not known.
#[derive(Debug, Clone, Copy, PartialEq, Eq, Structural)]
pub struct NetworkTiming {
    pub total_ms: u64,
}

/// One entry of the traffic log.
#[derive(Debug)]
pub struct NetworkEvent {
    pub event_type: NetworkEventType,
    pub request: Option<NetworkRequest>,
    pub response: Option<NetworkResponse>,
    pub timing: Option<NetworkTiming>,
    pub error: Option<String>,
}

/// Which requests are kept: a request matches when it has every part that is
/// given.
#[derive(Debug)]
pub struct NetworkFilter {
    pub url_pattern: Option<String>,
    pub method: Option<String>,
    pub resource_type: Option<String>,
    pub status_code_min: Option<u16>,
    pub status_code_max: Option<u16>,
    pub failed_only: bool,
}

/// Traffic statistics. Response times are whole milliseconds; the average is
/// a floating-point number, carried by its bits.
#[derive(Debug)]
pub struct NetworkStats {
    pub total_requests: u32,
    pub failed_requests: u32,
    pub total_bytes: u64,
    pub avg_response_time: Real64,
    pub fastest_response: u64,
    pub slowest_response: u64,
    pub by_resource_type: Vec<(String, u32)>,
    pub by_status_code: Vec<(u16, u32)>,
    pub top_domains: Vec<(String, u32)>,
}

/// The JavaScript that reports the page's requests to the browser.
pub const NETWORK_MONITOR_SCRIPT: &'static str = r#"
// Network monitoring injection
(function() {
    const originalFetch = window.fetch;
    const originalXHR = window.XMLHttpRequest;
    
    // Monitor fetch requests
    window.fetch = function(...args) {
        const request = {
            id: 'fetch_' + Date.now() + '_' + Math.random(),
            method: args[1]?.method || 'GET',
            url: args[0].toString(),
            headers: Object.fromEntries((args[1]?.headers || new Headers())),
            body: args[1]?.body || null,
            timestamp: Date.now(),
            initiator: 'fetch',
            resource_type: 'fetch'
        };
        
        window.parent.postMessage({
            type: 'network_request',
            data: request
        }, '*');
        
        return originalFetch.apply(this, args).then(response => {
            const responseData = {
                request_id: request.id,
                status_code: response.status,
                status_text: response.statusText,
                headers: Object.fromEntries(response.headers),
                timestamp: Date.now(),
                from_cache: false,
                mime_type: response.headers.get('content-type') || 'unknown'
            };
            
            window.parent.postMessage({
                type: 'network_response',
                data: responseData
            }, '*');
            
            return response;
        }).catch(error => {
            window.parent.postMessage({
                type: 'network_error',
                data: {
                    request_id: request.id,
                    error: error.message
                }
            }, '*');
            throw error;
        });
    };
    
    // Monitor XMLHttpRequest
    const xhrProto = XMLHttpRequest.prototype;
    const originalOpen = xhrProto.open;
    const originalSend = xhrProto.send;
    
    xhrProto.open = function(method, url, ...args) {
        this._tinkerRequest = {
            id: 'xhr_' + Date.now() + '_' + Math.random(),
            method: method,
            url: url,
            headers: {},
            timestamp: Date.now(),
            initiator: 'xhr',
            resource_type: 'xhr'
        };
        return originalOpen.apply(this, [method, url, ...args]);
    };
    
    xhrProto.send = function(body) {
        if (this._tinkerRequest) {
            this._tinkerRequest.body = body;
            
            window.parent.postMessage({
                type: 'network_request',
                data: this._tinkerRequest
            }, '*');
            
            this.addEventListener('load', () => {
                const responseData = {
                    request_id: this._tinkerRequest.id,
                    status_code: this.status,
                    status_text: this.statusText,
                    headers: this.getAllResponseHeaders().split('\r\n')
                        .filter(line => line)
                        .reduce((headers, line) => {
                            const [key, value] = line.split(': ');
                            headers[key] = value;
                            return headers;
                        }, {}),
                    body: this.responseText,
                    timestamp: Date.now(),
                    size: this.responseText.length,
                    from_cache: false,
                    mime_type: this.getResponseHeader('content-type') || 'unknown'
                };
                
                window.parent.postMessage({
                    type: 'network_response',
                    data: responseData
                }, '*');
            });
            
            this.addEventListener('error', () => {
                window.parent.postMessage({
                    type: 'network_error',
                    data: {
                        request_id: this._tinkerRequest.id,
                        error: 'XMLHttpRequest failed'
                    }
                }, '*');
            });
        }
        
        return originalSend.apply(this, [body]);
    };
    
    console.log('Tinker network monitoring injected successfully');
})();
        "#;

/// The characters of an optional string.
pub open spec fn opt_chars(s: Option<String>) -> Option<Seq<char>> {
    match s {
        Some(t) => Some(t@),
        None => None,
    }
}

/// The count of `k` in a tally, zero if it is not there.
pub open spec fn tally_count<K>(t: Seq<(K, u32)>, k: K) -> nat
    decreases t.len(),
{
    if t.len() == 0 {
        0
    } else if t.last().0 == k {
        t.last().1 as nat
    } else {
        tally_count(t.drop_last(), k)
    }
}

/// A tally counts each value once.
pub open spec fn tally_wf<K>(t: Seq<(K, u32)>) -> bool {
    forall|i: int, j: int| 0 <= i < j < t.len() ==> t[i].0 != t[j].0
}

/// `t` with one more `k`: its count raised by one, or `k` counted once at the
/// end.
pub open spec fn tally_bump<K>(t: Seq<(K, u32)>, k: K) -> Seq<(K, u32)> {
    if exists|i: int| 0 <= i < t.len() && t[i].0 == k {
        let i = choose|i: int| 0 <= i < t.len() && t[i].0 == k;
        t.update(i, (k, (t[i].1 + 1) as u32))
    } else {
        t.push((k, 1u32))
    }
}

/// A tally of strings as a tally of their characters.
pub open spec fn str_tally(t: Seq<(String, u32)>) -> Seq<(Seq<char>, u32)> {
    t.map_values(|e: (String, u32)| (e.0@, e.1))
}

/// Counts are in order, highest first.
pub open spec fn ranked(t: Seq<(Seq<char>, u32)>) -> bool {
    forall|i: int, j: int| 0 <= i < j < t.len() ==> t[i].1 >= t[j].1
}

/// The first position in a ranking whose count is below `c`.
pub open spec fn rank_position(t: Seq<(Seq<char>, u32)>, c: u32) -> int
    decreases t.len(),
{
    if t.len() == 0 {
        0
    } else if t[0].1 < c {
        0
    } else {
        1 + rank_position(t.drop_first(), c)
    }
}

/// `t` with `e` put in before the first entry whose count is below its own.
pub open spec fn rank_insert(t: Seq<(Seq<char>, u32)>, e: (Seq<char>, u32)) -> Seq<(Seq<char>, u32)> {
    let p = rank_position(t, e.1);
    t.take(p) + seq![e] + t.skip(p)
}

/// The domain ranking after one more request to `domain`: the domain counted
/// once more and moved up past the domains it now outnumbers, or added with
/// one request; only the first ten are kept.
pub open spec fn ranking_after(t: Seq<(Seq<char>, u32)>, domain: Seq<char>) -> Seq<(Seq<char>, u32)> {
    let bumped = if exists|i: int| 0 <= i < t.len() && t[i].0 == domain {
        let i = choose|i: int| 0 <= i < t.len() && t[i].0 == domain;
        rank_insert(t.remove(i), (domain, (t[i].1 + 1) as u32))
    } else {
        rank_insert(t, (domain, 1u32))
    };
    if bumped.len() > 10 {
        bumped.take(10)
    } else {
        bumped
    }
}

/// A list of string pairs as character pairs.
pub open spec fn pairs_view(h: Seq<(String, String)>) -> Seq<(Seq<char>, Seq<char>)> {
    h.map_values(|e: (String, String)| (e.0@, e.1@))
}

/// A request as a mathematical value.
pub struct RequestView {
    pub id: Seq<char>,
    pub method: Seq<char>,
    pub url: Seq<char>,
    pub headers: Seq<(Seq<char>, Seq<char>)>,
    pub body: Option<Seq<char>>,
    pub timestamp: u64,
    pub initiator: Seq<char>,
    pub resource_type: Seq<char>,
    pub blocked: bool,
}

impl View for NetworkRequest {
    type V = RequestView;

    open spec fn view(&self) -> RequestView {
        RequestView {
            id: self.id@,
            method: self.method@,
            url: self.url@,
            headers: pairs_view(self.headers@),
            body: opt_chars(self.body),
            timestamp: self.timestamp,
            initiator: self.initiator@,
            resource_type: self.resource_type@,
            blocked: self.blocked,
        }
    }
}

/// A response as a mathematical value.
pub struct ResponseView {
    pub request_id: Seq<char>,
    pub status_code: u16,
    pub status_text: Seq<char>,
    pub headers: Seq<(Seq<char>, Seq<char>)>,
    pub body: Option<Seq<char>>,
    pub timestamp: u64,
    pub size: u64,
    pub from_cache: bool,
    pub mime_type: Seq<char>,
}

impl View for NetworkResponse {
    type V = ResponseView;

    open spec fn view(&self) -> ResponseView {
        ResponseView {
            request_id: self.request_id@,
            status_code: self.status_code,
            status_text: self.status_text@,
            headers: pairs_view(self.headers@),
            body: opt_chars(self.body),
            timestamp: self.timestamp,
            size: self.size,
            from_cache: self.from_cache,
            mime_type: self.mime_type@,
        }
    }
}

fn clone_opt(s: &Option<String>) -> (res: Option<String>)
    ensures
        opt_chars(res) == opt_chars(*s),
{
    match s {
        Some(t) => Some(t.clone()),
        None => None,
    }
}

fn clone_pairs(h: &Vec<(String, String)>) -> (res: Vec<(String, String)>)
    ensures
        pairs_view(res@) == pairs_view(h@),
{
    let mut out: Vec<(String, String)> = Vec::new();
    let mut i: usize = 0;
    while i < h.len()
        invariant
            i <= h.len(),
            pairs_view(out@) == pairs_view(h@.take(i as int)),
        decreases h.len() - i,
    {
        let ghost before = out@;
        out.push((h[i].0.clone(), h[i].1.clone()));
        assert(pairs_view(out@) =~= pairs_view(before).push((h@[i as int].0@, h@[i as int].1@)));
        assert(h@.take(i + 1) =~= h@.take(i as int).push(h@[i as int]));
        assert(pairs_view(h@.take(i + 1)) =~= pairs_view(h@.take(i as int)).push((h@[i as int].0@, h@[i as int].1@)));
        i = i + 1;
    }
    assert(h@.take(h@.len() as int) =~= h@);
    out
}

impl Clone for NetworkRequest {
    fn clone(&self) -> (res: Self)
        ensures
            res@ == self@,
    {
        NetworkRequest {
            id: self.id.clone(),
            method: self.method.clone(),
            url: self.url.clone(),
            headers: clone_pairs(&self.headers),
            body: clone_opt(&self.body),
            timestamp: self.timestamp,
            initiator: self.initiator.clone(),
            resource_type: self.resource_type.clone(),
            blocked: self.blocked,
        }
    }
}

impl Clone for NetworkResponse {
    fn clone(&self) -> (res: Self)
        ensures
            res@ == self@,
    {
        NetworkResponse {
            request_id: self.request_id.clone(),
            status_code: self.status_code,
            status_text: self.status_text.clone(),
            headers: clone_pairs(&self.headers),
            body: clone_opt(&self.body),
            timestamp: self.timestamp,
            size: self.size,
            from_cache: self.from_cache,
            mime_type: self.mime_type.clone(),
        }
    }
}

/// An optional request as a mathematical value.
pub open spec fn opt_request(r: Option<NetworkRequest>) -> Option<RequestView> {
    match r {
        Some(x) => Some(x@),
        None => None,
    }
}

/// An optional response as a mathematical value.
pub open spec fn opt_response(r: Option<NetworkResponse>) -> Option<ResponseView> {
    match r {
        Some(x) => Some(x@),
        None => None,
    }
}

/// An entry of the traffic log as a mathematical value.
pub struct NetworkEventView {
    pub event_type: NetworkEventType,
    pub request: Option<RequestView>,
    pub response: Option<ResponseView>,
    pub timing: Option<NetworkTiming>,
    pub error: Option<Seq<char>>,
}

impl View for NetworkEvent {
    type V = NetworkEventView;

    open spec fn view(&self) -> NetworkEventView {
        NetworkEventView {
            event_type: self.event_type,
            request: opt_request(self.request),
            response: opt_response(self.response),
            timing: self.timing,
            error: opt_chars(self.error),
        }
    }
}

/// A filter as a mathematical value.
pub struct FilterView {
    pub url_pattern: Option<Seq<char>>,
    pub method: Option<Seq<char>>,
    pub resource_type: Option<Seq<char>>,
    pub status_code_min: Option<u16>,
    pub status_code_max: Option<u16>,
    pub failed_only: bool,
}

impl View for NetworkFilter {
    type V = FilterView;

    open spec fn view(&self) -> FilterView {
        FilterView {
            url_pattern: opt_chars(self.url_pattern),
            method: opt_chars(self.method),
            resource_type: opt_chars(self.resource_type),
            status_code_min: self.status_code_min,
            status_code_max: self.status_code_max,
            failed_only: self.failed_only,
        }
    }
}

/// Whether filter `f` lets a request through.
pub open spec fn filter_lets(f: FilterView, r: RequestView) -> bool {
    &&& (f.url_pattern matches Some(p) ==> contains_seq(r.url, p))
    &&& (f.method matches Some(m) ==> r.method == m)
    &&& (f.resource_type matches Some(t) ==> r.resource_type == t)
}

/// Whether a request is recorded under `filters`: always without filters, else
/// when some filter lets it through.
pub open spec fn recorded_under(filters: Seq<FilterView>, r: RequestView) -> bool {
    filters.len() == 0 || exists|i: int| 0 <= i < filters.len() && filter_lets(#[trigger] filters[i], r)
}

/// Statistics as a mathematical value.
pub struct StatsView {
    pub total_requests: u32,
    pub failed_requests: u32,
    pub total_bytes: u64,
    pub avg_response_time: Real64,
    pub fastest_response: u64,
    pub slowest_response: u64,
    pub by_resource_type: Seq<(Seq<char>, u32)>,
    pub by_status_code: Seq<(u16, u32)>,
    pub top_domains: Seq<(Seq<char>, u32)>,
}

impl View for NetworkStats {
    type V = StatsView;

    open spec fn view(&self) -> StatsView {
        StatsView {
            total_requests: self.total_requests,
            failed_requests: self.failed_requests,
            total_bytes: self.total_bytes,
            avg_response_time: self.avg_response_time,
            fastest_response: self.fastest_response,
            slowest_response: self.slowest_response,
            by_resource_type: str_tally(self.by_resource_type@),
            by_status_code: self.by_status_code@,
            top_domains: str_tally(self.top_domains@),
        }
    }
}

/// Statistics with nothing counted.
pub open spec fn empty_stats() -> StatsView {
    StatsView {
        total_requests: 0,
        failed_requests: 0,
        total_bytes: 0,
        avg_response_time: Real64 { bits: 0 },
        fastest_response: 0,
        slowest_response: 0,
        by_resource_type: Seq::empty(),
        by_status_code: Seq::empty(),
        top_domains: Seq::empty(),
    }
}

impl NetworkStats {
    /// Statistics with nothing counted.
    pub fn new() -> (res: Self)
        ensures
            res@ == empty_stats(),
    {
        let res = NetworkStats {
            total_requests: 0,
            failed_requests: 0,
            total_bytes: 0,
            avg_response_time: Real64 { bits: 0 },
            fastest_response: 0,
            slowest_response: 0,
            by_resource_type: Vec::new(),
            by_status_code: Vec::new(),
            top_domains: Vec::new(),
        };
        assert(res@.by_resource_type =~= Seq::<(Seq<char>, u32)>::empty());
        assert(res@.top_domains =~= Seq::<(Seq<char>, u32)>::empty());
        res
    }
}

impl Default for NetworkStats {
    fn default() -> (res: Self)
        ensures
            res@ == empty_stats(),
    {
        NetworkStats::new()
    }
}

// ---------------------------------------------------------------------------
// Monitor
// ---------------------------------------------------------------------------

/// The request with id `id` among `reqs`: the first one.
pub open spec fn request_with_id(reqs: Seq<RequestView>, id: Seq<char>) -> Option<RequestView>
    decreases reqs.len(),
{
    if reqs.len() == 0 {
        None
    } else if reqs[0].id == id {
        Some(reqs[0])
    } else {
        request_with_id(reqs.drop_first(), id)
    }
}

/// `reqs` with `r` stored: in place of the request with its id, or added.
pub open spec fn store_request(reqs: Seq<RequestView>, r: RequestView) -> Seq<RequestView> {
    if exists|i: int| 0 <= i < reqs.len() && reqs[i].id == r.id {
        reqs.update(choose|i: int| 0 <= i < reqs.len() && reqs[i].id == r.id, r)
    } else {
        reqs.push(r)
    }
}

/// Requests have distinct ids.
pub open spec fn ids_distinct(reqs: Seq<RequestView>) -> bool {
    forall|i: int, j: int| 0 <= i < j < reqs.len() ==> reqs[i].id != reqs[j].id
}

/// `s` with `x` added at the end, dropping the oldest to keep at most `max`.
pub open spec fn push_bounded<T>(s: Seq<T>, x: T, max: nat) -> Seq<T> {
    if s.len() + 1 > max {
        s.push(x).drop_first()
    } else {
        s.push(x)
    }
}

/// A monitor as a mathematical value.
pub struct MonitorView {
    pub requests: Seq<RequestView>,
    pub completed: Seq<NetworkEventView>,
    pub stats: StatsView,
    pub filters: Seq<FilterView>,
    pub enabled: bool,
    pub max_history: nat,
}

impl MonitorView {
    /// What the monitor keeps true: one stored request per id, a bounded
    /// history, tallies that count each value once, and domains ranked by
    /// their number of requests, at most ten of them.
    pub open spec fn wf(self) -> bool {
        &&& ids_distinct(self.requests)
        &&& self.max_history > 0
        &&& self.completed.len() <= self.max_history
        &&& tally_wf(self.stats.by_resource_type)
        &&& tally_wf(self.stats.by_status_code)
        &&& tally_wf(self.stats.top_domains)
        &&& ranked(self.stats.top_domains)
        &&& self.stats.top_domains.len() <= 10
    }
}

/// Watches the page's network traffic.
pub struct NetworkMonitor {
    requests: Vec<NetworkRequest>,
    completed: Vec<NetworkEvent>,
    stats: NetworkStats,
    filters: Vec<NetworkFilter>,
    enabled: bool,
    max_history: usize,
}

impl View for NetworkMonitor {
    type V = MonitorView;

    closed spec fn view(&self) -> MonitorView {
        MonitorView {
            requests: self.requests@.map_values(|r: NetworkRequest| r@),
            completed: self.completed@.map_values(|e: NetworkEvent| e@),
            stats: self.stats@,
            filters: self.filters@.map_values(|f: NetworkFilter| f@),
            enabled: self.enabled,
            max_history: self.max_history as nat,
        }
    }
}

/// Whether `f` lets `r` through.
fn filter_lets_exec(f: &NetworkFilter, r: &NetworkRequest) -> (res: bool)
    ensures
        res == filter_lets(f@, r@),
{
    let url_ok = match &f.url_pattern {
        Some(p) => contains(r.url.as_str(), p.as_str()),
        None => true,
    };
    let method_ok = match &f.method {
        Some(m) => equals(r.method.as_str(), m.as_str()),
        None => true,
    };
    let type_ok = match &f.resource_type {
        Some(t) => equals(r.resource_type.as_str(), t.as_str()),
        None => true,
    };
    url_ok && method_ok && type_ok
}

/// The index of the first request with id `id`.
fn find_request(reqs: &Vec<NetworkRequest>, id: &str) -> (res: Option<usize>)
    ensures
        match res {
            Some(i) => i < reqs@.len() && reqs@[i as int]@.id == id@ && request_with_id(
                reqs@.map_values(|r: NetworkRequest| r@),
                id@,
            ) == Some(reqs@[i as int]@) && forall|k: int| 0 <= k < i ==> reqs@[k]@.id != id@,
            None => request_with_id(reqs@.map_values(|r: NetworkRequest| r@), id@) is None && forall|k: int|
                0 <= k < reqs@.len() ==> reqs@[k]@.id != id@,
        },
{
    let ghost all = reqs@.map_values(|r: NetworkRequest| r@);
    let mut i: usize = 0;
    assert(all.skip(0) =~= all);
    while i < reqs.len()
        invariant
            i <= reqs@.len(),
            all == reqs@.map_values(|r: NetworkRequest| r@),
            request_with_id(all, id@) == request_with_id(all.skip(i as int), id@),
            forall|k: int| 0 <= k < i ==> reqs@[k]@.id != id@,
        decreases reqs.len() - i,
    {
        assert(all.skip(i as int).drop_first() =~= all.skip(i + 1));
        assert(all.skip(i as int)[0] == reqs@[i as int]@);
        if equals(reqs[i].id.as_str(), id) {
            return Some(i);
        }
        i = i + 1;
    }
    assert(all.skip(i as int).len() == 0);
    None
}

/// The index of `k` in a tally of strings.
fn find_str(t: &Vec<(String, u32)>, k: &str) -> (res: Option<usize>)
    ensures
        match res {
            Some(i) => i < t@.len() && t@[i as int].0@ == k@,
            None => forall|j: int| 0 <= j < t@.len() ==> t@[j].0@ != k@,
        },
{
    let mut i: usize = 0;
    while i < t.len()
        invariant
            i <= t@.len(),
            forall|j: int| 0 <= j < i ==> t@[j].0@ != k@,
        decreases t.len() - i,
    {
        if equals(t[i].0.as_str(), k) {
            return Some(i);
        }
        i = i + 1;
    }
    None
}

/// Counts `k` once more in a tally of strings.
fn bump_str(t: &mut Vec<(String, u32)>, k: &str)
    requires
        tally_wf(str_tally(old(t)@)),
        tally_count(str_tally(old(t)@), k@) < u32::MAX,
    ensures
        str_tally(final(t)@) == tally_bump(str_tally(old(t)@), k@),
        tally_wf(str_tally(final(t)@)),
{
    let ghost before = str_tally(t@);
    match find_str(t, k) {
        Some(i) => {
            proof {
                lemma_tally_count_at(before, i as int);
            }
            let c = t[i].1;
            let key = t[i].0.clone();
            t.set(i, (key, c + 1));
            proof {
                assert(before[i as int].0 == k@);
                let j = choose|j: int| 0 <= j < before.len() && before[j].0 == k@;
                assert(j == i);
                assert(str_tally(t@) =~= before.update(i as int, (k@, (before[i as int].1 + 1) as u32)));
            }
        },
        None => {
            t.push((to_string(k), 1));
            proof {
                assert(str_tally(t@) =~= before.push((k@, 1u32)));
            }
        },
    }
}

/// Counts `k` once more in a tally of status codes.
fn bump_code(t: &mut Vec<(u16, u32)>, k: u16)
    requires
        tally_wf(old(t)@),
        tally_count(old(t)@, k) < u32::MAX,
    ensures
        final(t)@ == tally_bump(old(t)@, k),
        tally_wf(final(t)@),
{
    let ghost before = t@;
    let mut i: usize = 0;
    while i < t.len()
        invariant
            t@ == before,
            old(t)@ == before,
            tally_wf(before),
            tally_count(before, k) < u32::MAX,
            i <= t@.len(),
            forall|j: int| 0 <= j < i ==> t@[j].0 != k,
        decreases t.len() - i,
    {
        if t[i].0 == k {
            proof {
                lemma_tally_count_at(before, i as int);
            }
            let c = t[i].1;
            t.set(i, (k, c + 1));
            proof {
                assert(before[i as int].0 == k);
                assert(exists|j: int| 0 <= j < before.len() && before[j].0 == k);
                let j = choose|j: int| 0 <= j < before.len() && before[j].0 == k;
                assert(j == i);
                assert(t@ =~= before.update(i as int, (k, (before[i as int].1 + 1) as u32)));
                assert(t@ == tally_bump(before, k));
            }
            return;
        }
        i = i + 1;
    }
    t.push((k, 1));
}

/// The count of a value in a tally is the count stored with it.
proof fn lemma_tally_count_at<K>(t: Seq<(K, u32)>, i: int)
    requires
        tally_wf(t),
        0 <= i < t.len(),
    ensures
        tally_count(t, t[i].0) == t[i].1,
    decreases t.len(),
{
    if i != t.len() - 1 {
        assert(t.last().0 != t[i].0);
        lemma_tally_count_at(t.drop_last(), i);
    }
}

proof fn lemma_rank_position(t: Seq<(Seq<char>, u32)>, c: u32)
    ensures
        0 <= rank_position(t, c) <= t.len(),
        forall|j: int| 0 <= j < rank_position(t, c) ==> t[j].1 >= c,
        rank_position(t, c) < t.len() ==> t[rank_position(t, c)].1 < c,
    decreases t.len(),
{
    if t.len() > 0 && t[0].1 >= c {
        lemma_rank_position(t.drop_first(), c);
        assert forall|j: int| 0 <= j < rank_position(t, c) implies t[j].1 >= c by {
            if j > 0 {
                assert(t[j] == t.drop_first()[j - 1]);
            }
        }
        if rank_position(t, c) < t.len() {
            assert(t[rank_position(t, c)] == t.drop_first()[rank_position(t, c) - 1]);
        }
    }
}

proof fn lemma_rank_insert(t: Seq<(Seq<char>, u32)>, e: (Seq<char>, u32))
    requires
        ranked(t),
        tally_wf(t),
        forall|j: int| 0 <= j < t.len() ==> t[j].0 != e.0,
    ensures
        ranked(rank_insert(t, e)),
        tally_wf(rank_insert(t, e)),
        rank_insert(t, e).len() == t.len() + 1,
{
    lemma_rank_position(t, e.1);
    let p = rank_position(t, e.1);
    let r = rank_insert(t, e);
    assert(r.len() == t.len() + 1);
    assert forall|j: int| 0 <= j < r.len() implies #[trigger] r[j] == if j < p {
        t[j]
    } else if j == p {
        e
    } else {
        t[j - 1]
    } by {}
    assert forall|i: int, j: int| 0 <= i < j < r.len() implies r[i].1 >= r[j].1 by {
        if i < p && j == p {
        } else if i == p && j > p {
            assert(t[p].1 >= t[j - 1].1 || j - 1 == p);
        }
    }
}

/// Counts one more request to `domain` in the ranking of domains.
fn rank_domain(t: &mut Vec<(String, u32)>, domain: &str)
    requires
        ranked(str_tally(old(t)@)),
        tally_wf(str_tally(old(t)@)),
        str_tally(old(t)@).len() <= 10,
        tally_count(str_tally(old(t)@), domain@) < u32::MAX,
    ensures
        str_tally(final(t)@) == ranking_after(str_tally(old(t)@), domain@),
        ranked(str_tally(final(t)@)),
        tally_wf(str_tally(final(t)@)),
        str_tally(final(t)@).len() <= 10,
{
    let ghost before = str_tally(t@);
    match find_str(t, domain) {
        Some(i) => {
            proof {
                lemma_tally_count_at(before, i as int);
            }
            let (key, c) = t.remove(i);
            let ghost removed = str_tally(t@);
            proof {
                assert(removed =~= before.remove(i as int));
                assert(before[i as int].0 == domain@);
                assert(exists|j: int| 0 <= j < before.len() && before[j].0 == domain@);
                let j = choose|j: int| 0 <= j < before.len() && before[j].0 == domain@;
                assert(j == i);
                assert forall|a: int, b: int| 0 <= a < b < removed.len() implies removed[a].1 >= removed[b].1 by {
                    let a2 = if a < i { a } else { a + 1 };
                    let b2 = if b < i { b } else { b + 1 };
                    assert(removed[a] == before[a2]);
                    assert(removed[b] == before[b2]);
                }
                assert forall|a: int, b: int| 0 <= a < b < removed.len() implies removed[a].0 != removed[b].0 by {
                    let a2 = if a < i { a } else { a + 1 };
                    let b2 = if b < i { b } else { b + 1 };
                    assert(removed[a] == before[a2]);
                    assert(removed[b] == before[b2]);
                }
                assert forall|a: int| 0 <= a < removed.len() implies removed[a].0 != domain@ by {
                    let a2 = if a < i { a } else { a + 1 };
                    assert(removed[a] == before[a2]);
                }
                lemma_rank_insert(removed, (domain@, (c + 1) as u32));
                lemma_rank_position(removed, (c + 1) as u32);
            }
            let p = rank_pos(t, c + 1);
            t.insert(p, (key, c + 1));
            proof {
                assert(str_tally(t@) =~= rank_insert(removed, (domain@, (c + 1) as u32)));
            }
        },
        None => {
            proof {
                assert(!(exists|j: int| 0 <= j < before.len() && before[j].0 == domain@));
                lemma_rank_insert(before, (domain@, 1u32));
                lemma_rank_position(before, 1u32);
            }
            let p = rank_pos(t, 1);
            t.insert(p, (to_string(domain), 1));
            proof {
                assert(str_tally(t@) =~= rank_insert(before, (domain@, 1u32)));
            }
        },
    }
    if t.len() > 10 {
        t.truncate(10);
        proof {
            let full = if exists|j: int| 0 <= j < before.len() && before[j].0 == domain@ {
                let j = choose|j: int| 0 <= j < before.len() && before[j].0 == domain@;
                rank_insert(before.remove(j), (domain@, (before[j].1 + 1) as u32))
            } else {
                rank_insert(before, (domain@, 1u32))
            };
            assert(str_tally(t@) =~= full.take(10));
        }
    }
}

/// The first position whose count is below `c`.
fn rank_pos(t: &Vec<(String, u32)>, c: u32) -> (res: usize)
    ensures
        res == rank_position(str_tally(t@), c),
{
    let ghost v = str_tally(t@);
    proof {
        lemma_rank_position(v, c);
    }
    let mut i: usize = 0;
    assert(v.skip(0) =~= v);
    while i < t.len()
        invariant
            i <= t@.len(),
            v == str_tally(t@),
            rank_position(v, c) == i + rank_position(v.skip(i as int), c),
        decreases t.len() - i,
    {
        assert(v.skip(i as int).drop_first() =~= v.skip(i + 1));
        assert(v.skip(i as int)[0] == v[i as int]);
        if t[i].1 < c {
            return i;
        }
        i = i + 1;
    }
    assert(v.skip(i as int).len() == 0);
    i
}

/// The host of `url`, where it parses as a URL that has one.
pub open spec fn url_domain(url: Seq<char>) -> Option<Seq<char>> {
    if url_parse_failure(url) is None {
        url_host(url)
    } else {
        None
    }
}

/// What recording a response to `req` needs so that no count overflows and
/// the response comes no earlier than its request.
pub open spec fn response_fits(v: MonitorView, req: RequestView, resp: ResponseView) -> bool {
    &&& req.timestamp <= resp.timestamp
    &&& v.stats.total_bytes + resp.size <= u64::MAX
    &&& tally_count(v.stats.by_resource_type, req.resource_type) < u32::MAX
    &&& tally_count(v.stats.by_status_code, resp.status_code) < u32::MAX
    &&& (url_domain(req.url) matches Some(h) ==> tally_count(v.stats.top_domains, h) < u32::MAX)
}

/// The log entry for a response to `req`.
pub open spec fn response_event(req: RequestView, resp: ResponseView) -> NetworkEventView {
    NetworkEventView {
        event_type: NetworkEventType::ResponseReceived,
        request: Some(req),
        response: Some(resp),
        timing: Some(NetworkTiming { total_ms: (resp.timestamp - req.timestamp) as u64 }),
        error: None,
    }
}

/// The statistics after a response to `req` that took `t` milliseconds.
pub open spec fn stats_after_response(s: StatsView, req: RequestView, resp: ResponseView, t: u64) -> StatsView {
    StatsView {
        total_bytes: (s.total_bytes + resp.size) as u64,
        fastest_response: if s.total_requests == 1 || t < s.fastest_response {
            t
        } else {
            s.fastest_response
        },
        slowest_response: if s.total_requests == 1 || t > s.slowest_response {
            t
        } else {
            s.slowest_response
        },
        by_resource_type: tally_bump(s.by_resource_type, req.resource_type),
        by_status_code: tally_bump(s.by_status_code, resp.status_code),
        top_domains: match url_domain(req.url) {
            Some(h) => ranking_after(s.top_domains, h),
            None => s.top_domains,
        },
        ..s
    }
}

/// A response that took `t` milliseconds moves the extremes of the response
/// times: the fastest becomes the smaller of `t` and the fastest so far, the
/// slowest the larger of `t` and the slowest so far; the first response (with
/// one request counted) sets both to `t`.
pub proof fn law_response_extremes(s: StatsView, req: RequestView, resp: ResponseView, t: u64)
    ensures
        stats_after_response(s, req, resp, t).fastest_response <= t,
        stats_after_response(s, req, resp, t).slowest_response >= t,
        s.total_requests == 1 ==> stats_after_response(s, req, resp, t).fastest_response == t
            && stats_after_response(s, req, resp, t).slowest_response == t,
        s.total_requests != 1 ==> {
            let n = stats_after_response(s, req, resp, t);
            &&& n.fastest_response <= s.fastest_response
            &&& (n.fastest_response == t || n.fastest_response == s.fastest_response)
            &&& n.slowest_response >= s.slowest_response
            &&& (n.slowest_response == t || n.slowest_response == s.slowest_response)
        },
        s.fastest_response <= s.slowest_response ==> stats_after_response(s, req, resp, t).fastest_response
            <= stats_after_response(s, req, resp, t).slowest_response,
{
}

impl NetworkMonitor {
    /// An enabled monitor with nothing recorded, keeping the last thousand
    /// log entries.
    pub fn new() -> (res: Self)
        ensures
            res@.wf(),
            res@.enabled,
            res@.requests.len() == 0,
            res@.completed.len() == 0,
            res@.filters.len() == 0,
            res@.stats == empty_stats(),
            res@.max_history == 1000,
    {
        let res = NetworkMonitor {
            requests: Vec::new(),
            completed: Vec::new(),
            stats: NetworkStats::new(),
            filters: Vec::new(),
            enabled: true,
            max_history: 1000,
        };
        assert(res@.requests =~= Seq::<RequestView>::empty());
        assert(res@.completed =~= Seq::<NetworkEventView>::empty());
        assert(res@.filters =~= Seq::<FilterView>::empty());
        res
    }

    /// Starts monitoring afresh: what was recorded and counted is dropped; the
    /// filters stay.
    pub fn start_monitoring(&mut self)
        requires
            old(self)@.wf(),
        ensures
            final(self)@ == (MonitorView {
                enabled: true,
                requests: Seq::empty(),
                completed: Seq::empty(),
                stats: empty_stats(),
                ..old(self)@
            }),
            final(self)@.wf(),
    {
        self.enabled = true;
        self.requests.clear();
        self.completed.clear();
        self.stats = NetworkStats::new();
        assert(self@.requests =~= Seq::<RequestView>::empty());
        assert(self@.completed =~= Seq::<NetworkEventView>::empty());
    }

    /// Stops monitoring; what was recorded stays.
    pub fn stop_monitoring(&mut self)
        ensures
            final(self)@ == (MonitorView { enabled: false, ..old(self)@ }),
    {
        self.enabled = false;
    }

    fn add_event(&mut self, event: NetworkEvent)
        requires
            old(self)@.wf(),
        ensures
            final(self)@ == (MonitorView {
                completed: push_bounded(old(self)@.completed, event@, old(self)@.max_history),
                ..old(self)@
            }),
            final(self)@.wf(),
    {
        let ghost before = self@.completed;
        let ghost ev = event@;
        self.completed.push(event);
        assert(self@.completed =~= before.push(ev));
        if self.completed.len() > self.max_history {
            self.completed.remove(0);
            assert(self@.completed =~= before.push(ev).drop_first());
        }
    }

    /// Records a request the page made: it is counted, and, if the filters let
    /// it through, stored under its id and logged.
    pub fn record_request(&mut self, request: NetworkRequest) -> (res: Result<(), String>)
        requires
            old(self)@.wf(),
            old(self)@.stats.total_requests < u32::MAX,
        ensures
            res is Ok,
            final(self)@.wf(),
            !old(self)@.enabled ==> final(self)@ == old(self)@,
            old(self)@.enabled ==> {
                let counted = StatsView { total_requests: (old(self)@.stats.total_requests + 1) as u32, ..old(self)@.stats };
                if recorded_under(old(self)@.filters, request@) {
                    final(self)@ == (MonitorView {
                        stats: counted,
                        requests: store_request(old(self)@.requests, request@),
                        completed: push_bounded(
                            old(self)@.completed,
                            NetworkEventView {
                                event_type: NetworkEventType::RequestStarted,
                                request: Some(request@),
                                response: None,
                                timing: None,
                                error: None,
                            },
                            old(self)@.max_history,
                        ),
                        ..old(self)@
                    })
                } else {
                    final(self)@ == (MonitorView { stats: counted, ..old(self)@ })
                }
            },
    {
        if !self.enabled {
            return Ok(());
        }
        self.stats.total_requests = self.stats.total_requests + 1;
        if self.should_record(&request) {
            let event = NetworkEvent {
                event_type: NetworkEventType::RequestStarted,
                request: Some(request.clone()),
                response: None,
                timing: None,
                error: None,
            };
            let ghost rv = request@;
            let ghost before = self@.requests;
            match find_request(&self.requests, request.id.as_str()) {
                Some(i) => {
                    self.requests.set(i, request);
                    proof {
                        assert(before[i as int].id == rv.id);
                        assert(exists|j: int| 0 <= j < before.len() && before[j].id == rv.id);
                        let j = choose|j: int| 0 <= j < before.len() && before[j].id == rv.id;
                        assert(j == i);
                        assert(self@.requests =~= before.update(i as int, rv));
                    }
                },
                None => {
                    self.requests.push(request);
                    proof {
                        assert(self@.requests =~= before.push(rv));
                    }
                },
            }
            self.add_event(event);
        }
        Ok(())
    }

    /// Whether the filters let `request` through.
    fn should_record(&self, request: &NetworkRequest) -> (res: bool)
        ensures
            res == recorded_under(self@.filters, request@),
    {
        if self.filters.len() == 0 {
            return true;
        }
        let ghost fv = self@.filters;
        let mut i: usize = 0;
        while i < self.filters.len()
            invariant
                i <= self.filters@.len(),
                fv == self.filters@.map_values(|f: NetworkFilter| f@),
                forall|k: int| 0 <= k < i ==> !filter_lets(fv[k], request@),
            decreases self.filters.len() - i,
        {
            if filter_lets_exec(&self.filters[i], request) {
                assert(filter_lets(fv[i as int], request@));
                return true;
            }
            i = i + 1;
        }
        false
    }

    /// Records a response: when its request is stored, it is logged with the
    /// time it took and counted; the time is handed back. The average response
    /// time is left as it is.
    pub fn record_response(&mut self, response: NetworkResponse) -> (res: Result<Option<u64>, String>)
        requires
            old(self)@.wf(),
            request_with_id(old(self)@.requests, response@.request_id) matches Some(req) ==> response_fits(
                old(self)@,
                req,
                response@,
            ),
        ensures
            final(self)@.wf(),
            !old(self)@.enabled ==> final(self)@ == old(self)@ && res == Ok::<Option<u64>, String>(None),
            old(self)@.enabled ==> match request_with_id(old(self)@.requests, response@.request_id) {
                None => final(self)@ == old(self)@ && res == Ok::<Option<u64>, String>(None),
                Some(req) => {
                    let t = (response@.timestamp - req.timestamp) as u64;
                    &&& res == Ok::<Option<u64>, String>(Some(t))
                    &&& final(self)@ == (MonitorView {
                        completed: push_bounded(old(self)@.completed, response_event(req, response@), old(self)@.max_history),
                        stats: stats_after_response(old(self)@.stats, req, response@, t),
                        ..old(self)@
                    })
                },
            },
    {
        if !self.enabled {
            return Ok(None);
        }
        let i = match find_request(&self.requests, response.request_id.as_str()) {
            Some(i) => i,
            None => {
                return Ok(None);
            },
        };
        let request = self.requests[i].clone();
        let total = response.timestamp - request.timestamp;
        let ghost s0 = self@.stats;
        let ghost rq = request@;
        let ghost rs = response@;
        self.stats.total_bytes = self.stats.total_bytes + response.size;
        if self.stats.total_requests == 1 {
            self.stats.fastest_response = total;
            self.stats.slowest_response = total;
        } else {
            if total < self.stats.fastest_response {
                self.stats.fastest_response = total;
            }
            if total > self.stats.slowest_response {
                self.stats.slowest_response = total;
            }
        }
        bump_str(&mut self.stats.by_resource_type, request.resource_type.as_str());
        bump_code(&mut self.stats.by_status_code, response.status_code);
        match parse_web_url(request.url.as_str()) {
            Ok(u) => match u.host_str() {
                Some(h) => {
                    rank_domain(&mut self.stats.top_domains, h);
                },
                None => {},
            },
            Err(_) => {},
        }
        assert(self@.stats == stats_after_response(s0, rq, rs, total));
        let event = NetworkEvent {
            event_type: NetworkEventType::ResponseReceived,
            request: Some(request),
            response: Some(response),
            timing: Some(NetworkTiming { total_ms: total }),
            error: None,
        };
        assert(event@ == response_event(rq, rs));
        self.add_event(event);
        Ok(Some(total))
    }

    /// Records that a stored request failed with `error`: it is logged and
    /// counted as failed.
    pub fn record_failure(&mut self, request_id: &str, error: &str) -> (res: Result<(), String>)
        requires
            old(self)@.wf(),
            request_with_id(old(self)@.requests, request_id@) is Some ==> old(self)@.stats.failed_requests < u32::MAX,
        ensures
            res is Ok,
            final(self)@.wf(),
            !old(self)@.enabled ==> final(self)@ == old(self)@,
            old(self)@.enabled ==> match request_with_id(old(self)@.requests, request_id@) {
                None => final(self)@ == old(self)@,
                Some(req) => final(self)@ == (MonitorView {
                    completed: push_bounded(
                        old(self)@.completed,
                        NetworkEventView {
                            event_type: NetworkEventType::RequestFailed,
                            request: Some(req),
                            response: None,
                            timing: None,
                            error: Some(error@),
                        },
                        old(self)@.max_history,
                    ),
                    stats: StatsView {
                        failed_requests: (old(self)@.stats.failed_requests + 1) as u32,
                        ..old(self)@.stats
                    },
                    ..old(self)@
                }),
            },
    {
        if !self.enabled {
            return Ok(());
        }
        match find_request(&self.requests, request_id) {
            Some(i) => {
                let request = self.requests[i].clone();
                let event = NetworkEvent {
                    event_type: NetworkEventType::RequestFailed,
                    request: Some(request),
                    response: None,
                    timing: None,
                    error: Some(to_string(error)),
                };
                self.stats.failed_requests = self.stats.failed_requests + 1;
                self.add_event(event);
            },
            None => {},
        }
        Ok(())
    }

    /// Adds a filter.
    pub fn add_filter(&mut self, filter: NetworkFilter)
        ensures
            final(self)@ == (MonitorView { filters: old(self)@.filters.push(filter@), ..old(self)@ }),
    {
        let ghost before = self@.filters;
        let ghost fv = filter@;
        self.filters.push(filter);
        assert(self@.filters =~= before.push(fv));
    }

    /// Drops every filter.
    pub fn clear_filters(&mut self)
        ensures
            final(self)@ == (MonitorView { filters: Seq::empty(), ..old(self)@ }),
    {
        self.filters.clear();
        assert(self@.filters =~= Seq::<FilterView>::empty());
    }

    /// Whether requests are being recorded.
    pub fn is_enabled(&self) -> (res: bool)
        ensures
            res == self@.enabled,
    {
        self.enabled
    }

    /// How many requests are stored, awaiting or past their response.
    pub fn request_count(&self) -> (res: usize)
        ensures
            res == self@.requests.len(),
    {
        self.requests.len()
    }

    /// The statistics.
    pub fn get_stats(&self) -> (res: &NetworkStats)
        ensures
            res@ == self@.stats,
    {
        &self.stats
    }

    /// Sets the average response time, worked out by the caller.
    pub fn set_average_response_time(&mut self, average: Real64)
        ensures
            final(self)@ == (MonitorView {
                stats: StatsView { avg_response_time: average, ..old(self)@.stats },
                ..old(self)@
            }),
    {
        self.stats.avg_response_time = average;
    }

    /// The whole log, oldest first.
    pub fn get_events(&self) -> (res: &Vec<NetworkEvent>)
        ensures
            res@.map_values(|e: NetworkEvent| e@) == self@.completed,
    {
        &self.completed
    }

    /// The newest `limit` log entries (fifty by default), newest first.
    pub fn get_recent_events(&self, limit: Option<usize>) -> (res: Vec<&NetworkEvent>)
        ensures
            ({
                let n = match limit {
                    Some(l) => l as int,
                    None => 50,
                };
                let c = self@.completed;
                let k = if n < c.len() {
                    n
                } else {
                    c.len() as int
                };
                &&& res@.len() == k
                &&& forall|i: int| 0 <= i < k ==> (#[trigger] res@[i])@ == c[c.len() - 1 - i]
            }),
    {
        let n = match limit {
            Some(l) => l,
            None => 50,
        };
        let ghost c = self@.completed;
        let total = self.completed.len();
        let mut out: Vec<&NetworkEvent> = Vec::new();
        let mut i: usize = 0;
        while i < n && i < total
            invariant
                total == self.completed@.len(),
                c == self.completed@.map_values(|e: NetworkEvent| e@),
                i <= n,
                i <= total,
                out@.len() == i,
                forall|j: int| 0 <= j < i ==> (#[trigger] out@[j])@ == c[total - 1 - j],
            decreases total - i,
        {
            out.push(&self.completed[total - 1 - i]);
            i = i + 1;
        }
        out
    }

    /// The log entries whose request the monitor's own filters let through,
    /// and those without a request, oldest first; the filter given is not
    /// looked at.
    pub fn get_filtered_events(&self, filter: &NetworkFilter) -> (res: Vec<&NetworkEvent>)
        ensures
            res@.map_values(|e: &NetworkEvent| e@) == self@.completed.filter(
                |e: NetworkEventView| match e.request {
                    Some(r) => recorded_under(self@.filters, r),
                    None => true,
                },
            ),
    {
        let ghost c = self@.completed;
        let ghost pred = |e: NetworkEventView| match e.request {
            Some(r) => recorded_under(self@.filters, r),
            None => true,
        };
        let mut out: Vec<&NetworkEvent> = Vec::new();
        let n = self.completed.len();
        let mut i: usize = 0;
        while i < n
            invariant
                n == self.completed@.len(),
                c == self.completed@.map_values(|e: NetworkEvent| e@),
                pred == (|e: NetworkEventView| match e.request {
                    Some(r) => recorded_under(self@.filters, r),
                    None => true,
                }),
                i <= n,
                out@.map_values(|e: &NetworkEvent| e@) == c.take(i as int).filter(pred),
            decreases n - i,
        {
            proof {
                assert(c.take(i + 1) =~= c.take(i as int).push(c[i as int]));
                c.take(i as int).lemma_filter_push(c[i as int], pred);
            }
            let e = &self.completed[i];
            let keep = match &e.request {
                Some(r) => self.should_record(r),
                None => true,
            };
            let ghost before = out@;
            if keep {
                out.push(e);
                assert(out@.map_values(|e: &NetworkEvent| e@) =~= before.map_values(|e: &NetworkEvent| e@).push(c[i as int]));
            }
            i = i + 1;
        }
        assert(c.take(n as int) =~= c);
        out
    }

    /// The JavaScript that reports the page's requests.
    pub fn get_monitoring_script(&self) -> (res: String)
        ensures
            res@ == NETWORK_MONITOR_SCRIPT@,
    {
        to_string(NETWORK_MONITOR_SCRIPT)
    }
}

impl Default for NetworkMonitor {
    fn default() -> (res: Self)
        ensures
            res@.wf(),
            res@.enabled,
            res@.stats == empty_stats(),
    {
        NetworkMonitor::new()
    }
}

} // verus!
