//! The browser engine's decisions. The engine keeps the tabs, the recorder and
//! player, the event viewer and the monitors; what must happen outside it
//! (load a page in the content view, run a script, update the tab bar, send an
//! event to the broker) it queues as effects, which the window loop performs.

use vstd::prelude::*;
use crate::browser::console::{ConsoleLevel, ConsoleMessage, ConsoleMonitor, ConsoleView, MessageView, messages_view, messages_at, level_name, level_of_name};
use crate::browser::event_viewer::{EventViewer, history_added, spec_add};
use crate::browser::session::{Session, session_from_tabs, spec_restore, spec_session, restored_tab};
use crate::browser::inspector::{DOMInspector, ElementInfo, InteractionResult};
use crate::browser::network::{MonitorView, NetworkFilter, NetworkMonitor};
use crate::browser::performance::{CoreWebVitals, JavaScriptProfile, MemoryMetrics, PerformanceMonitor, PerformanceView, cleared, marker_named, measure_outcome};
use crate::browser::replay::{assertion_added, event_recorded, paused_at, resumed_at, EventPlayer, EventRecorder, PlaybackState, PlayerView, Recording, RecorderView, seek_index, clamped_speed};
use crate::browser::tabs::{TabManager, TabsView, spec_create, spec_switch, spec_close, spec_push_history,
    spec_go_back, spec_go_forward};
use crate::event::{BrowserCommand, BrowserEvent, EventV};
use crate::json::{Json, JsonV, Real32};
use crate::clock::unix_time_millis;
use crate::browser::keyboard::{KeyCode, KeyCommand, ModifiersState, handle_keyboard_input, key_binding};
use crate::browser::tab_ui::str_member;
use crate::browser::tabs::{spec_update_title, spec_update_url};
use crate::text::{concat, to_string, decimal_string};

verus! {

/// Something the engine asks of the window around it.
#[derive(Debug)]
pub enum Effect {
    /// Load `url` in the content view.
    LoadUrl(String),
    /// Run a script in the content view.
    EvaluateScript(String),
    /// Show `url` for tab `id` in the tab bar.
    TabBarUrl { id: usize, url: String },
    /// Show `title` for tab `id` in the tab bar.
    TabBarTitle { id: usize, title: String },
    /// Place the content view.
    SetContentBounds { x: i32, y: i32, width: u32, height: u32 },
    /// Lay the tab bar out across a window `width` pixels wide.
    LayoutTabBar { width: u32 },
    /// Send an event to the broker, when there is one.
    Publish(BrowserEvent),
}

/// An effect with its strings taken as characters.
pub enum EffectV {
    LoadUrl(Seq<char>),
    EvaluateScript(Seq<char>),
    TabBarUrl(usize, Seq<char>),
    TabBarTitle(usize, Seq<char>),
    SetContentBounds(i32, i32, u32, u32),
    LayoutTabBar(u32),
    Publish(EventV),
}

impl View for Effect {
    type V = EffectV;

    open spec fn view(&self) -> EffectV {
        match *self {
            Effect::LoadUrl(u) => EffectV::LoadUrl(u@),
            Effect::EvaluateScript(s) => EffectV::EvaluateScript(s@),
            Effect::TabBarUrl { id, url } => EffectV::TabBarUrl(id, url@),
            Effect::TabBarTitle { id, title } => EffectV::TabBarTitle(id, title@),
            Effect::SetContentBounds { x, y, width, height } => EffectV::SetContentBounds(x, y, width, height),
            Effect::LayoutTabBar { width } => EffectV::LayoutTabBar(width),
            Effect::Publish(e) => EffectV::Publish(e@),
        }
    }
}

/// The views of a list of effects.
pub open spec fn effects_view(s: Seq<Effect>) -> Seq<EffectV> {
    s.map_values(|e: Effect| e@)
}

/// Why a window, view or tab operation failed.
#[derive(Debug)]
pub enum WebViewError {
    WindowsError(String),
    MacOSError(String),
    LinuxError(String),
    InitError(String),
    WindowError(String),
    TabBarError(String),
    LockError(String),
    TabError(String),
    GenericError(String),
}

/// The message of an error.
pub open spec fn webview_error_text(e: WebViewError) -> Seq<char> {
    match e {
        WebViewError::WindowsError(m) => "Failed to create WebView on Windows: "@ + m@,
        WebViewError::MacOSError(m) => "Failed to create WebView on macOS: "@ + m@,
        WebViewError::LinuxError(m) => "Failed to create WebView on Linux: "@ + m@,
        WebViewError::InitError(m) => "Failed to create WebView: "@ + m@,
        WebViewError::WindowError(m) => "Failed to create window: "@ + m@,
        WebViewError::TabBarError(m) => "Failed to create tab bar: "@ + m@,
        WebViewError::LockError(m) => "Failed to lock resource: "@ + m@,
        WebViewError::TabError(m) => "Tab operation failed: "@ + m@,
        WebViewError::GenericError(m) => "Generic error: "@ + m@,
    }
}

impl WebViewError {
    /// The message of the error.
    pub fn to_string(&self) -> (res: String)
        ensures
            res@ == webview_error_text(*self),
    {
        match self {
            WebViewError::WindowsError(m) => concat("Failed to create WebView on Windows: ", m.as_str()),
            WebViewError::MacOSError(m) => concat("Failed to create WebView on macOS: ", m.as_str()),
            WebViewError::LinuxError(m) => concat("Failed to create WebView on Linux: ", m.as_str()),
            WebViewError::InitError(m) => concat("Failed to create WebView: ", m.as_str()),
            WebViewError::WindowError(m) => concat("Failed to create window: ", m.as_str()),
            WebViewError::TabBarError(m) => concat("Failed to create tab bar: ", m.as_str()),
            WebViewError::LockError(m) => concat("Failed to lock resource: ", m.as_str()),
            WebViewError::TabError(m) => concat("Tab operation failed: ", m.as_str()),
            WebViewError::GenericError(m) => concat("Generic error: ", m.as_str()),
        }
    }
}

/// The height of the tab bar above the content view, in pixels.
pub const TAB_BAR_HEIGHT: u32 = 40;

/// The browser engine: its tabs, recording and replay, event history and
/// monitors, and the effects it has queued for the window.
pub struct BrowserEngine {
    headless: bool,
    initial_url: Option<String>,
    running: bool,
    has_content_view: bool,
    has_tab_bar: bool,
    tabs: TabManager,
    recorder: EventRecorder,
    player: EventPlayer,
    event_viewer: EventViewer,
    dom_inspector: DOMInspector,
    network_monitor: NetworkMonitor,
    performance_monitor: PerformanceMonitor,
    console_monitor: ConsoleMonitor,
    effects: Vec<Effect>,
}

impl BrowserEngine {
    /// The tabs.
    pub closed spec fn tabs_v(&self) -> TabsView<()> {
        self.tabs@
    }

    /// The effects queued so far, oldest first.
    pub closed spec fn effects_v(&self) -> Seq<EffectV> {
        effects_view(self.effects@)
    }

    /// The events seen, with the times they were seen.
    pub closed spec fn history_v(&self) -> Seq<(u64, EventV)> {
        self.event_viewer@
    }

    /// The recorder.
    pub closed spec fn recorder_v(&self) -> RecorderView {
        self.recorder@
    }

    /// The player.
    pub closed spec fn player_v(&self) -> PlayerView {
        self.player@
    }

    /// The performance monitor.
    pub closed spec fn perf_v(&self) -> PerformanceView {
        self.performance_monitor@
    }

    /// The console monitor.
    pub closed spec fn console_v(&self) -> ConsoleView {
        self.console_monitor@
    }

    /// The network monitor.
    pub closed spec fn network_v(&self) -> MonitorView {
        self.network_monitor@
    }

    /// The address the engine starts on, if one was given.
    pub closed spec fn initial_v(&self) -> Option<Seq<char>> {
        match self.initial_url {
            Some(u) => Some(u@),
            None => None,
        }
    }

    /// Whether a content view is attached.
    pub closed spec fn has_view(&self) -> bool {
        self.has_content_view
    }

    /// Whether a tab bar is attached.
    pub closed spec fn has_bar(&self) -> bool {
        self.has_tab_bar
    }

    /// Whether the engine runs without a window.
    pub closed spec fn is_headless(&self) -> bool {
        self.headless
    }

    /// The invariant of the parts.
    pub closed spec fn wf(&self) -> bool {
        &&& self.tabs.wf()
        &&& self.event_viewer.wf()
        &&& self.console_monitor@.wf()
        &&& self.network_monitor@.wf()
    }

    /// An engine with no tabs, no views attached and nothing queued.
    pub fn new(headless: bool, initial_url: Option<String>) -> (res: Self)
        ensures
            res.wf(),
            res.tabs_v().tabs.len() == 0,
            res.tabs_v().active is None,
            res.tabs_v().next_id == 0,
            res.effects_v() == Seq::<EffectV>::empty(),
            res.history_v() == Seq::<(u64, EventV)>::empty(),
            res.player_v().recording is None,
            res.player_v().state == PlaybackState::Stopped,
            res.player_v().current_index == 0,
            res.recorder_v().recording is None,
            !res.recorder_v().is_recording,
            !res.has_view(),
            !res.has_bar(),
            res.is_headless() == headless,
            res.initial_v() == match initial_url {
                Some(u) => Some(u@),
                None => None::<Seq<char>>,
            },
    {
        let res = BrowserEngine {
            headless,
            initial_url,
            running: true,
            has_content_view: false,
            has_tab_bar: false,
            tabs: TabManager::new(),
            recorder: EventRecorder::new(),
            player: EventPlayer::new(),
            event_viewer: EventViewer::new(),
            dom_inspector: DOMInspector::new(),
            network_monitor: NetworkMonitor::new(),
            performance_monitor: PerformanceMonitor::new(),
            console_monitor: ConsoleMonitor::new(),
            effects: Vec::new(),
        };
        proof {
            assert(res.effects_v() =~= Seq::<EffectV>::empty());
        }
        res
    }

    /// Records that the window now has a content view and a tab bar, or not.
    pub fn attach_views(&mut self, content_view: bool, tab_bar: bool)
        requires
            old(self).wf(),
        ensures
            final(self).wf(),
            final(self).has_view() == content_view,
            final(self).has_bar() == tab_bar,
            final(self).tabs_v() == old(self).tabs_v(),
            final(self).effects_v() == old(self).effects_v(),
            final(self).history_v() == old(self).history_v(),
            final(self).is_headless() == old(self).is_headless(),
    {
        self.has_content_view = content_view;
        self.has_tab_bar = tab_bar;
    }

    /// Hands out the queued effects, oldest first, and forgets them.
    pub fn take_effects(&mut self) -> (res: Vec<Effect>)
        requires
            old(self).wf(),
        ensures
            final(self).wf(),
            effects_view(res@) == old(self).effects_v(),
            final(self).effects_v() == Seq::<EffectV>::empty(),
            final(self).tabs_v() == old(self).tabs_v(),
            final(self).history_v() == old(self).history_v(),
            final(self).has_view() == old(self).has_view(),
            final(self).has_bar() == old(self).has_bar(),
            final(self).is_headless() == old(self).is_headless(),
    {
        let mut out: Vec<Effect> = Vec::new();
        std::mem::swap(&mut out, &mut self.effects);
        proof {
            assert(final(self).effects_v() =~= Seq::<EffectV>::empty());
        }
        out
    }

    /// Queues an effect.
    fn push_effect(&mut self, e: Effect)
        requires
            old(self).wf(),
        ensures
            final(self).wf(),
            final(self).effects_v() == old(self).effects_v().push(e@),
            final(self).tabs == old(self).tabs,
            final(self).event_viewer == old(self).event_viewer,
            final(self).recorder == old(self).recorder,
            final(self).player == old(self).player,
            final(self).has_content_view == old(self).has_content_view,
            final(self).has_tab_bar == old(self).has_tab_bar,
            final(self).headless == old(self).headless,
            final(self).console_monitor == old(self).console_monitor,
            final(self).network_monitor == old(self).network_monitor,
            final(self).performance_monitor == old(self).performance_monitor,
            final(self).dom_inspector == old(self).dom_inspector,
    {
        let ghost v = e@;
        self.effects.push(e);
        proof {
            assert(final(self).effects_v() =~= old(self).effects_v().push(v));
        }
    }

    /// Announces `event`: the recorder records it while recording, the event
    /// viewer keeps it with the time it was seen, and it is queued for the
    /// broker.
    pub fn publish_event(&mut self, event: BrowserEvent)
        requires
            old(self).wf(),
        ensures
            final(self).wf(),
            final(self).effects_v() == old(self).effects_v().push(EffectV::Publish(event@)),
            exists|t: u64| final(self).history_v() == spec_add(old(self).history_v(), (t, event@)),
            final(self).tabs_v() == old(self).tabs_v(),
            final(self).player_v() == old(self).player_v(),
            final(self).perf_v() == old(self).perf_v(),
            final(self).console_v() == old(self).console_v(),
            final(self).recorder_v().is_recording == old(self).recorder_v().is_recording,
            old(self).recorder_v().recording is None ==> final(self).recorder_v().recording is None,
            old(self).recorder_v().recording matches Some(r) ==> final(self).recorder_v().recording matches Some(n)
                && n.metadata == r.metadata,
            !old(self).recorder_v().is_recording ==> final(self).recorder_v().recording == old(self).recorder_v().recording,
            final(self).has_view() == old(self).has_view(),
            final(self).has_bar() == old(self).has_bar(),
            final(self).is_headless() == old(self).is_headless(),
    {
        let now = unix_time_millis();
        self.recorder.record_event_at(event.clone(), now);
        let seen = event.clone();
        self.event_viewer.add_event_at(seen, now);
        self.push_effect(Effect::Publish(event));
        assert(final(self).history_v() == spec_add(old(self).history_v(), (now, event@)));
    }
}

/// What updating the window to the active tab asks for: the content view
/// loads its address, and the tab bar shows its address and title.
pub open spec fn visibility_effects(m: TabsView<()>, has_view: bool, has_bar: bool) -> Seq<EffectV> {
    match m.active {
        Some(a) => if has_tab_v(m, a) {
            let t = m.tab(a);
            (if has_view { seq![EffectV::LoadUrl(t.url)] } else { Seq::empty() }) + (if has_bar {
                seq![EffectV::TabBarUrl(a, t.url), EffectV::TabBarTitle(a, t.title)]
            } else {
                Seq::empty()
            })
        } else {
            Seq::empty()
        },
        None => Seq::empty(),
    }
}

/// Tab `id` exists.
pub open spec fn has_tab_v(m: TabsView<()>, id: usize) -> bool {
    m.has(id)
}

/// The tab bar's update for tab `id`'s address, when there is a tab bar.
pub open spec fn bar_url_effect(has_bar: bool, id: usize, url: Seq<char>) -> Seq<EffectV> {
    if has_bar {
        seq![EffectV::TabBarUrl(id, url)]
    } else {
        Seq::empty()
    }
}

/// The effects of opening a tab: the tab bar shows it, its creation is
/// announced, and the first tab is shown and announced as active.
pub open spec fn create_effects(old_m: TabsView<()>, url: Seq<char>, has_view: bool, has_bar: bool) -> Seq<EffectV> {
    let id = old_m.next_id;
    let m = spec_create(old_m, url);
    bar_url_effect(has_bar, id, url) + seq![EffectV::Publish(EventV::TabCreated { id, url })] + if m.tabs.len() == 1 {
        visibility_effects(m, has_view, has_bar) + seq![EffectV::Publish(EventV::TabActivated { id })]
    } else {
        Seq::empty()
    }
}

/// The message of a refused switch.
pub open spec fn switch_failure(id: usize) -> Seq<char> {
    "Failed to switch to tab "@ + crate::text::decimal(id as nat)
}

/// The JSON message that tells the page it navigates to `url`.
pub open spec fn navigate_message(url: Seq<char>) -> Seq<char> {
    "{\"type\":\"navigate\",\"url\":"@ + crate::json::json_quoted(url) + "}"@
}

/// The effects of navigating to `url`: the active tab's history moves on and
/// its new address is announced; the content view is told and loads the page;
/// the navigation is announced.
pub open spec fn navigate_effects(m: TabsView<()>, url: Seq<char>, has_view: bool) -> Seq<EffectV> {
    (match m.active {
        Some(id) => if m.has(id) {
            seq![EffectV::Publish(EventV::TabUrlChanged { id, url })]
        } else {
            Seq::empty()
        },
        None => Seq::empty(),
    }) + (if has_view {
        seq![
            EffectV::EvaluateScript("window.ipc.handleMessage('"@ + navigate_message(url) + "')"@),
            EffectV::LoadUrl(url),
        ]
    } else {
        Seq::empty()
    }) + seq![EffectV::Publish(EventV::Navigation { url })]
}

/// The tabs after replaying `e`: navigations and tab openings, closings and
/// switches take effect; other events leave the tabs as they are.
pub open spec fn replay_tabs(m: TabsView<()>, e: EventV) -> TabsView<()> {
    match e {
        EventV::Navigation { url } => navigate_tabs(m, url),
        EventV::TabCreated { url, .. } => spec_create(m, url),
        EventV::TabClosed { id } => spec_close(m, id).1,
        EventV::TabActivated { id } => spec_switch(m, id).1,
        _ => m,
    }
}

/// The tabs after navigating the active tab to `url`.
pub open spec fn navigate_tabs(m: TabsView<()>, url: Seq<char>) -> TabsView<()> {
    match m.active {
        Some(id) => spec_push_history(m, id, url).1,
        None => m,
    }
}

/// The effects of moving through history to `url`, when there is one.
pub open spec fn history_move_effects(url: Option<Seq<char>>, has_view: bool) -> Seq<EffectV> {
    match url {
        Some(u) => (if has_view { seq![EffectV::LoadUrl(u)] } else { Seq::empty() }) + seq![
            EffectV::Publish(EventV::Navigation { url: u }),
        ],
        None => Seq::empty(),
    }
}

/// One step back in the active tab's history: the address moved to, and the
/// tabs after.
pub open spec fn back_of(m: TabsView<()>) -> (Option<Seq<char>>, TabsView<()>) {
    match m.active {
        Some(id) => spec_go_back(m, id),
        None => (None, m),
    }
}

/// One step forward in the active tab's history.
pub open spec fn forward_of(m: TabsView<()>) -> (Option<Seq<char>>, TabsView<()>) {
    match m.active {
        Some(id) => spec_go_forward(m, id),
        None => (None, m),
    }
}

impl BrowserEngine {
    /// Queues what showing the active tab asks for.
    fn update_tab_visibility(&mut self)
        requires
            old(self).wf(),
        ensures
            final(self).wf(),
            final(self).effects_v() == old(self).effects_v() + visibility_effects(
                old(self).tabs_v(),
                old(self).has_view(),
                old(self).has_bar(),
            ),
            final(self).tabs == old(self).tabs,
            final(self).event_viewer == old(self).event_viewer,
            final(self).player == old(self).player,
            final(self).has_content_view == old(self).has_content_view,
            final(self).has_tab_bar == old(self).has_tab_bar,
            final(self).headless == old(self).headless,
    {
        let ghost e0 = self.effects_v();
        let found = match self.tabs.get_active_tab() {
            Some(t) => Some((t.id, t.url.clone(), t.title.clone())),
            None => None,
        };
        match found {
            Some((id, url, title)) => {
                proof {
                    assert(has_tab_v(self.tabs_v(), id));
                }
                if self.has_content_view {
                    self.push_effect(Effect::LoadUrl(url.clone()));
                }
                if self.has_tab_bar {
                    self.push_effect(Effect::TabBarUrl { id, url });
                    self.push_effect(Effect::TabBarTitle { id, title });
                }
                proof {
                    assert(self.effects_v() =~= e0 + visibility_effects(
                        old(self).tabs_v(),
                        old(self).has_view(),
                        old(self).has_bar(),
                    ));
                }
            },
            None => {
                proof {
                    assert(self.effects_v() =~= e0 + visibility_effects(
                        old(self).tabs_v(),
                        old(self).has_view(),
                        old(self).has_bar(),
                    ));
                }
            },
        }
    }

    /// Opens a tab on `url` and announces it; the first tab is also shown and
    /// announced as active. Returns its id.
    pub fn create_tab(&mut self, url: &str) -> (res: Result<usize, WebViewError>)
        requires
            old(self).wf(),
            old(self).tabs_v().next_id < usize::MAX,
        ensures
            final(self).wf(),
            res == Ok::<usize, WebViewError>(old(self).tabs_v().next_id),
            final(self).tabs_v() == spec_create(old(self).tabs_v(), url@),
            final(self).effects_v() == old(self).effects_v() + create_effects(
                old(self).tabs_v(),
                url@,
                old(self).has_view(),
                old(self).has_bar(),
            ),
            final(self).player_v() == old(self).player_v(),
            final(self).has_view() == old(self).has_view(),
            final(self).has_bar() == old(self).has_bar(),
            final(self).is_headless() == old(self).is_headless(),
    {
        let ghost e0 = self.effects_v();
        let ghost m0 = self.tabs_v();
        let id = self.tabs.create_tab(to_string(url));
        if self.has_tab_bar {
            self.push_effect(Effect::TabBarUrl { id, url: to_string(url) });
        }
        self.publish_event(BrowserEvent::TabCreated { id, url: to_string(url) });
        let ghost e1 = self.effects_v();
        proof {
            assert(e1 =~= e0 + bar_url_effect(old(self).has_bar(), id, url@) + seq![
                EffectV::Publish(EventV::TabCreated { id, url: url@ }),
            ]);
        }
        let is_first = self.tabs.get_tab_count() == 1;
        if is_first {
            self.tabs.switch_to_tab(id);
            proof {
                assert(self.tabs_v().has(id));
            }
            self.update_tab_visibility();
            self.publish_event(BrowserEvent::TabActivated { id });
        }
        proof {
            assert(self.effects_v() =~= e0 + create_effects(m0, url@, old(self).has_view(), old(self).has_bar()));
        }
        Ok(id)
    }

    /// Makes tab `id` active, shows it and announces it; refused for an
    /// unknown tab.
    pub fn switch_to_tab(&mut self, id: usize) -> (res: Result<(), WebViewError>)
        requires
            old(self).wf(),
        ensures
            final(self).wf(),
            final(self).tabs_v() == spec_switch(old(self).tabs_v(), id).1,
            res is Ok <==> old(self).tabs_v().has(id),
            res matches Err(e) ==> e matches WebViewError::TabError(m) && m@ == switch_failure(id),
            res is Ok ==> final(self).effects_v() == old(self).effects_v() + visibility_effects(
                final(self).tabs_v(),
                old(self).has_view(),
                old(self).has_bar(),
            ) + seq![EffectV::Publish(EventV::TabActivated { id })],
            res is Err ==> final(self).effects_v() == old(self).effects_v(),
            final(self).player_v() == old(self).player_v(),
            final(self).has_view() == old(self).has_view(),
            final(self).has_bar() == old(self).has_bar(),
            final(self).is_headless() == old(self).is_headless(),
    {
        let ghost e0 = self.effects_v();
        let switched = self.tabs.switch_to_tab(id);
        if switched {
            let ghost m1 = self.tabs_v();
            self.update_tab_visibility();
            self.publish_event(BrowserEvent::TabActivated { id });
            proof {
                assert(self.effects_v() =~= e0 + visibility_effects(m1, old(self).has_view(), old(self).has_bar())
                    + seq![EffectV::Publish(EventV::TabActivated { id })]);
            }
            Ok(())
        } else {
            Err(WebViewError::TabError(concat("Failed to switch to tab ", decimal_string(id as u64).as_str())))
        }
    }

    /// Closes tab `id` and announces it; when it was active, the first other
    /// tab is switched to. Refused for an unknown tab and for the last tab.
    pub fn close_tab(&mut self, id: usize) -> (res: Result<(), WebViewError>)
        requires
            old(self).wf(),
        ensures
            final(self).wf(),
            res is Ok <==> spec_close(old(self).tabs_v(), id).0,
            res matches Err(e) ==> e matches WebViewError::TabError(m) && m@ == "Tab not found"@,
            final(self).tabs_v() == spec_close(old(self).tabs_v(), id).1,
            res is Err ==> final(self).effects_v() == old(self).effects_v(),
            res is Ok && old(self).tabs_v().active != Some(id) ==> final(self).effects_v()
                == old(self).effects_v() + seq![EffectV::Publish(EventV::TabClosed { id })],
            res is Ok && old(self).tabs_v().active == Some(id) ==> {
                let m = final(self).tabs_v();
                final(self).effects_v() == old(self).effects_v() + seq![EffectV::Publish(EventV::TabClosed { id })]
                    + visibility_effects(m, old(self).has_view(), old(self).has_bar()) + seq![
                    EffectV::Publish(EventV::TabActivated { id: m.tabs[0].id }),
                ]
            },
            final(self).player_v() == old(self).player_v(),
            final(self).has_view() == old(self).has_view(),
            final(self).has_bar() == old(self).has_bar(),
            final(self).is_headless() == old(self).is_headless(),
    {
        let ghost e0 = self.effects_v();
        let ghost m0 = self.tabs_v();
        let next_active: Option<usize> = if self.tabs.is_active_tab(id) {
            let all = self.tabs.get_all_tabs();
            if all.len() > 0 && all[0].id != id {
                Some(all[0].id)
            } else if all.len() > 1 {
                Some(all[1].id)
            } else {
                None
            }
        } else {
            None
        };
        if !self.tabs.close_tab(id) {
            return Err(WebViewError::TabError(to_string("Tab not found")));
        }
        self.publish_event(BrowserEvent::TabClosed { id });
        let ghost e1 = self.effects_v();
        match next_active {
            Some(next) => {
                proof {
                    let m1 = self.tabs_v();
                    assert(m0.has(id));
                    let p = m0.pos(id);
                    if m0.tabs[0].id == id && p > 0 {
                        assert(m0.tabs[0].id < m0.tabs[p].id);
                    }
                    if m0.tabs[0].id != id {
                        assert(p > 0);
                        assert(m1.tabs[0] == m0.tabs[0]);
                    } else {
                        assert(p == 0);
                        assert(m1.tabs[0] == m0.tabs[1]);
                    }
                    assert(m1.tabs[0].id == next);
                    assert(m1.has(next));
                }
                let r = self.switch_to_tab(next);
                proof {
                    assert(self.effects_v() =~= e0 + seq![EffectV::Publish(EventV::TabClosed { id })]
                        + visibility_effects(self.tabs_v(), old(self).has_view(), old(self).has_bar()) + seq![
                        EffectV::Publish(EventV::TabActivated { id: self.tabs_v().tabs[0].id }),
                    ]);
                }
                match r {
                    Ok(()) => Ok(()),
                    Err(e) => Err(e),
                }
            },
            None => {
                proof {
                    if m0.active == Some(id) {
                        assert(m0.tabs.len() > 1);
                        assert(m0.tabs[0].id < m0.tabs[1].id);
                    }
                    assert(self.effects_v() =~= e0 + seq![EffectV::Publish(EventV::TabClosed { id })]);
                }
                Ok(())
            },
        }
    }

    /// Navigates the active tab to `url`: its history moves on, the content
    /// view is told and loads the page, and the navigation is announced.
    pub fn navigate(&mut self, url: &str) -> (res: Result<(), String>)
        requires
            old(self).wf(),
        ensures
            final(self).wf(),
            res is Ok,
            final(self).tabs_v() == navigate_tabs(old(self).tabs_v(), url@),
            final(self).effects_v() == old(self).effects_v() + navigate_effects(
                old(self).tabs_v(),
                url@,
                old(self).has_view(),
            ),
            final(self).player_v() == old(self).player_v(),
            final(self).has_view() == old(self).has_view(),
            final(self).has_bar() == old(self).has_bar(),
            final(self).is_headless() == old(self).is_headless(),
    {
        let ghost e0 = self.effects_v();
        let ghost m0 = self.tabs_v();
        let active = match self.tabs.get_active_tab() {
            Some(t) => Some(t.id),
            None => None,
        };
        match active {
            Some(id) => {
                self.tabs.push_history(id, to_string(url));
                self.publish_event(BrowserEvent::TabUrlChanged { id, url: to_string(url) });
            },
            None => {},
        }
        let ghost e1 = self.effects_v();
        if self.has_content_view {
            let quoted = crate::json::quote_json(url);
            let msg = concat(concat("{\"type\":\"navigate\",\"url\":", quoted.as_str()).as_str(), "}");
            let script = concat(concat("window.ipc.handleMessage('", msg.as_str()).as_str(), "')");
            self.push_effect(Effect::EvaluateScript(script));
            self.push_effect(Effect::LoadUrl(to_string(url)));
        }
        self.publish_event(BrowserEvent::Navigation { url: to_string(url) });
        proof {
            assert(self.effects_v() =~= e0 + navigate_effects(m0, url@, old(self).has_view()));
        }
        Ok(())
    }

    /// Moves the active tab one step back in its history and loads that
    /// address; returns it, or nothing at the first entry.
    pub fn go_back(&mut self) -> (res: Result<Option<String>, String>)
        requires
            old(self).wf(),
        ensures
            final(self).wf(),
            res matches Ok(u) && (match u { Some(v) => Some(v@), None => None }) == back_of(old(self).tabs_v()).0,
            final(self).tabs_v() == back_of(old(self).tabs_v()).1,
            final(self).effects_v() == old(self).effects_v() + history_move_effects(
                back_of(old(self).tabs_v()).0,
                old(self).has_view(),
            ),
            final(self).has_view() == old(self).has_view(),
            final(self).has_bar() == old(self).has_bar(),
            final(self).is_headless() == old(self).is_headless(),
    {
        let active = match self.tabs.get_active_tab() {
            Some(t) => Some(t.id),
            None => None,
        };
        let url = match active {
            Some(id) => self.tabs.go_back(id),
            None => None,
        };
        self.announce_history_move(&url);
        Ok(url)
    }

    /// Moves the active tab one step forward in its history and loads that
    /// address; returns it, or nothing at the last entry.
    pub fn go_forward(&mut self) -> (res: Result<Option<String>, String>)
        requires
            old(self).wf(),
        ensures
            final(self).wf(),
            res matches Ok(u) && (match u { Some(v) => Some(v@), None => None }) == forward_of(old(self).tabs_v()).0,
            final(self).tabs_v() == forward_of(old(self).tabs_v()).1,
            final(self).effects_v() == old(self).effects_v() + history_move_effects(
                forward_of(old(self).tabs_v()).0,
                old(self).has_view(),
            ),
            final(self).has_view() == old(self).has_view(),
            final(self).has_bar() == old(self).has_bar(),
            final(self).is_headless() == old(self).is_headless(),
    {
        let active = match self.tabs.get_active_tab() {
            Some(t) => Some(t.id),
            None => None,
        };
        let url = match active {
            Some(id) => self.tabs.go_forward(id),
            None => None,
        };
        self.announce_history_move(&url);
        Ok(url)
    }

    /// Loads and announces the address that a move through history reached.
    fn announce_history_move(&mut self, url: &Option<String>)
        requires
            old(self).wf(),
        ensures
            final(self).wf(),
            final(self).effects_v() == old(self).effects_v() + history_move_effects(
                match *url { Some(v) => Some(v@), None => None },
                old(self).has_view(),
            ),
            final(self).tabs_v() == old(self).tabs_v(),
            final(self).has_view() == old(self).has_view(),
            final(self).has_bar() == old(self).has_bar(),
            final(self).is_headless() == old(self).is_headless(),
    {
        let ghost e0 = self.effects_v();
        match url {
            Some(u) => {
                if self.has_content_view {
                    self.push_effect(Effect::LoadUrl(u.clone()));
                }
                self.publish_event(BrowserEvent::Navigation { url: u.clone() });
                proof {
                    assert(self.effects_v() =~= e0 + history_move_effects(Some(u@), old(self).has_view()));
                }
            },
            None => {
                proof {
                    assert(self.effects_v() =~= e0);
                }
            },
        }
    }

    /// The active tab's address.
    pub fn get_active_tab(&self) -> (res: Option<String>)
        requires
            self.wf(),
        ensures
            match self.tabs_v().active {
                Some(a) => res matches Some(u) && u@ == self.tabs_v().tab(a).url,
                None => res is None,
            },
    {
        match self.tabs.get_active_tab() {
            Some(t) => Some(t.url.clone()),
            None => None,
        }
    }

    /// Starts recording `name` from `start_url` and announces it.
    pub fn start_recording(&mut self, name: String, start_url: String) -> (res: Result<(), String>)
        requires
            old(self).wf(),
        ensures
            final(self).wf(),
            res is Ok,
            final(self).recorder_v().is_recording,
            final(self).recorder_v().recording matches Some(r) && r.metadata.name@ == name@
                && r.metadata.start_url@ == start_url@,
            final(self).effects_v() == old(self).effects_v() + seq![
                EffectV::Publish(EventV::RecordingStarted { name: name@, start_url: start_url@ }),
            ],
            final(self).tabs_v() == old(self).tabs_v(),
            final(self).player_v() == old(self).player_v(),
            final(self).has_view() == old(self).has_view(),
            final(self).has_bar() == old(self).has_bar(),
            final(self).is_headless() == old(self).is_headless(),
    {
        let event = BrowserEvent::RecordingStarted { name: name.clone(), start_url: start_url.clone() };
        self.recorder.start(name, start_url);
        self.publish_event(event);
        Ok(())
    }

    /// Stops recording and announces the recording's name, event count and
    /// duration; refused when nothing is being recorded.
    pub fn stop_recording(&mut self) -> (res: Result<(), String>)
        requires
            old(self).wf(),
        ensures
            final(self).wf(),
            res is Ok <==> old(self).recorder_v().recording is Some,
            res matches Err(m) ==> m@ == "No active recording"@,
            !final(self).recorder_v().is_recording,
            final(self).recorder_v().recording is None,
            res is Err ==> final(self).effects_v() == old(self).effects_v(),
            res is Ok ==> exists|count: usize, duration: u64| final(self).effects_v() == old(self).effects_v() + seq![
                EffectV::Publish(EventV::RecordingStopped {
                    name: old(self).recorder_v().recording->0.metadata.name@,
                    event_count: count,
                    duration_ms: duration,
                }),
            ],
            final(self).tabs_v() == old(self).tabs_v(),
            final(self).player_v() == old(self).player_v(),
            final(self).has_view() == old(self).has_view(),
            final(self).has_bar() == old(self).has_bar(),
            final(self).is_headless() == old(self).is_headless(),
    {
        match self.recorder.stop() {
            Some(recording) => {
                let name = recording.metadata.name.clone();
                let count = recording.metadata.event_count;
                let duration = recording.metadata.duration_ms;
                self.publish_event(BrowserEvent::RecordingStopped { name, event_count: count, duration_ms: duration });
                Ok(())
            },
            None => Err(to_string("No active recording")),
        }
    }

    /// Pauses recording and announces it.
    pub fn pause_recording(&mut self) -> (res: Result<(), String>)
        requires
            old(self).wf(),
        ensures
            final(self).wf(),
            res is Ok,
            !final(self).recorder_v().is_recording,
            final(self).recorder_v().recording == old(self).recorder_v().recording,
            final(self).effects_v() == old(self).effects_v() + seq![EffectV::Publish(EventV::RecordingPaused)],
            final(self).tabs_v() == old(self).tabs_v(),
            final(self).player_v() == old(self).player_v(),
            final(self).has_view() == old(self).has_view(),
            final(self).has_bar() == old(self).has_bar(),
            final(self).is_headless() == old(self).is_headless(),
    {
        self.recorder.pause();
        self.publish_event(BrowserEvent::RecordingPaused);
        Ok(())
    }

    /// Resumes recording and announces it.
    pub fn resume_recording(&mut self) -> (res: Result<(), String>)
        requires
            old(self).wf(),
        ensures
            final(self).wf(),
            res is Ok,
            final(self).recorder_v().is_recording,
            final(self).effects_v() == old(self).effects_v() + seq![EffectV::Publish(EventV::RecordingResumed)],
            final(self).tabs_v() == old(self).tabs_v(),
            final(self).player_v() == old(self).player_v(),
            final(self).has_view() == old(self).has_view(),
            final(self).has_bar() == old(self).has_bar(),
            final(self).is_headless() == old(self).is_headless(),
    {
        self.recorder.resume();
        self.publish_event(BrowserEvent::RecordingResumed);
        Ok(())
    }

    /// The recording in progress, for saving.
    pub fn get_recording(&self) -> (res: Option<&Recording>)
        ensures
            match self.recorder_v().recording {
                Some(r) => res == Some(&r),
                None => res is None,
            },
    {
        self.recorder.get_recording()
    }

    /// Announces that the recording was saved to `path`.
    pub fn recording_saved(&mut self, path: &str)
        requires
            old(self).wf(),
        ensures
            final(self).wf(),
            final(self).effects_v() == old(self).effects_v() + seq![EffectV::Publish(EventV::RecordingSaved { path: path@ })],
            final(self).tabs_v() == old(self).tabs_v(),
            final(self).player_v() == old(self).player_v(),
            final(self).has_view() == old(self).has_view(),
            final(self).has_bar() == old(self).has_bar(),
            final(self).is_headless() == old(self).is_headless(),
    {
        self.publish_event(BrowserEvent::RecordingSaved { path: to_string(path) });
    }

    /// Marks the last recorded event as an assertion of `expected_state`.
    pub fn add_recording_assertion(&mut self, expected_state: Json, description: Option<String>) -> (res: Result<(), String>)
        requires
            old(self).wf(),
        ensures
            final(self).wf(),
            res is Ok,
            final(self).recorder_v().is_recording == old(self).recorder_v().is_recording,
            assertion_added(old(self).recorder_v(), final(self).recorder_v(), expected_state, description),
            final(self).effects_v() == old(self).effects_v(),
            final(self).tabs_v() == old(self).tabs_v(),
            final(self).player_v() == old(self).player_v(),
            final(self).has_view() == old(self).has_view(),
            final(self).has_bar() == old(self).has_bar(),
            final(self).is_headless() == old(self).is_headless(),
    {
        self.recorder.add_assertion(expected_state, description);
        Ok(())
    }

    /// Takes a snapshot every `interval_ms` while recording.
    pub fn enable_recording_snapshots(&mut self, interval_ms: u64) -> (res: Result<(), String>)
        requires
            old(self).wf(),
        ensures
            final(self).wf(),
            res is Ok,
            final(self).recorder_v() == (RecorderView {
                capture_snapshots: true,
                snapshot_interval_ms: interval_ms,
                ..old(self).recorder_v()
            }),
            final(self).effects_v() == old(self).effects_v(),
            final(self).tabs_v() == old(self).tabs_v(),
            final(self).player_v() == old(self).player_v(),
            final(self).has_view() == old(self).has_view(),
            final(self).has_bar() == old(self).has_bar(),
            final(self).is_headless() == old(self).is_headless(),
    {
        self.recorder.enable_snapshots(interval_ms);
        Ok(())
    }

    /// Loads `recording`, read from `path`, into the player and announces it.
    pub fn load_recording(&mut self, recording: Recording, path: &str)
        requires
            old(self).wf(),
        ensures
            final(self).wf(),
            final(self).player_v() == (PlayerView {
                recording: Some(recording),
                current_index: 0,
                state: PlaybackState::Stopped,
                ..old(self).player_v()
            }),
            final(self).effects_v() == old(self).effects_v() + seq![EffectV::Publish(EventV::RecordingLoaded { path: path@ })],
            final(self).tabs_v() == old(self).tabs_v(),
            final(self).has_view() == old(self).has_view(),
            final(self).has_bar() == old(self).has_bar(),
            final(self).is_headless() == old(self).is_headless(),
    {
        self.player.load_recording(recording);
        self.publish_event(BrowserEvent::RecordingLoaded { path: to_string(path) });
    }

    /// Starts playback from the first event, now, and announces it.
    pub fn start_replay(&mut self) -> (res: Result<(), String>)
        requires
            old(self).wf(),
        ensures
            final(self).wf(),
            res is Ok,
            final(self).player_v().start_ms is Some,
            final(self).player_v() == (PlayerView {
                start_ms: final(self).player_v().start_ms,
                current_index: 0,
                paused_ms: 0,
                state: PlaybackState::Playing,
                ..old(self).player_v()
            }),
            final(self).effects_v() == old(self).effects_v() + seq![EffectV::Publish(EventV::PlaybackStarted)],
            final(self).tabs_v() == old(self).tabs_v(),
            final(self).has_view() == old(self).has_view(),
            final(self).has_bar() == old(self).has_bar(),
            final(self).is_headless() == old(self).is_headless(),
    {
        let now = unix_time_millis();
        self.player.start_at(now);
        self.publish_event(BrowserEvent::PlaybackStarted);
        Ok(())
    }

    /// Stops playback and announces it.
    pub fn stop_replay(&mut self) -> (res: Result<(), String>)
        requires
            old(self).wf(),
        ensures
            final(self).wf(),
            res is Ok,
            final(self).player_v() == (PlayerView {
                state: PlaybackState::Stopped,
                current_index: 0,
                start_ms: None,
                pause_ms: None,
                paused_ms: 0,
                ..old(self).player_v()
            }),
            final(self).effects_v() == old(self).effects_v() + seq![EffectV::Publish(EventV::PlaybackStopped)],
            final(self).tabs_v() == old(self).tabs_v(),
            final(self).has_view() == old(self).has_view(),
            final(self).has_bar() == old(self).has_bar(),
            final(self).is_headless() == old(self).is_headless(),
    {
        self.player.stop();
        self.publish_event(BrowserEvent::PlaybackStopped);
        Ok(())
    }

    /// Pauses playback, now, and announces it.
    pub fn pause_replay(&mut self) -> (res: Result<(), String>)
        requires
            old(self).wf(),
        ensures
            final(self).wf(),
            res is Ok,
            final(self).player_v() == if old(self).player_v().state == PlaybackState::Playing {
                PlayerView {
                    state: PlaybackState::Paused,
                    pause_ms: final(self).player_v().pause_ms,
                    ..old(self).player_v()
                }
            } else {
                old(self).player_v()
            },
            old(self).player_v().state == PlaybackState::Playing ==> final(self).player_v().pause_ms is Some,
            exists|t: u64| final(self).player_v() == #[trigger] paused_at(old(self).player_v(), t),
            final(self).effects_v() == old(self).effects_v() + seq![EffectV::Publish(EventV::PlaybackPaused)],
            final(self).tabs_v() == old(self).tabs_v(),
            final(self).has_view() == old(self).has_view(),
            final(self).has_bar() == old(self).has_bar(),
            final(self).is_headless() == old(self).is_headless(),
    {
        let now = unix_time_millis();
        self.player.pause_at(now);
        self.publish_event(BrowserEvent::PlaybackPaused);
        Ok(())
    }

    /// Resumes playback, now, and announces it.
    pub fn resume_replay(&mut self) -> (res: Result<(), String>)
        requires
            old(self).wf(),
        ensures
            final(self).wf(),
            res is Ok,
            final(self).player_v().paused_ms >= old(self).player_v().paused_ms,
            final(self).player_v() == if old(self).player_v().state == PlaybackState::Paused {
                match old(self).player_v().pause_ms {
                    Some(p) => PlayerView {
                        state: PlaybackState::Playing,
                        pause_ms: None,
                        paused_ms: final(self).player_v().paused_ms,
                        ..old(self).player_v()
                    },
                    None => PlayerView { state: PlaybackState::Playing, ..old(self).player_v() },
                }
            } else {
                old(self).player_v()
            },
            exists|t: u64| final(self).player_v() == #[trigger] resumed_at(old(self).player_v(), t),
            final(self).effects_v() == old(self).effects_v() + seq![EffectV::Publish(EventV::PlaybackResumed)],
            final(self).tabs_v() == old(self).tabs_v(),
            final(self).has_view() == old(self).has_view(),
            final(self).has_bar() == old(self).has_bar(),
            final(self).is_headless() == old(self).is_headless(),
    {
        let now = unix_time_millis();
        self.player.resume_at(now);
        self.publish_event(BrowserEvent::PlaybackResumed);
        Ok(())
    }

    /// Moves playback to the first event at or after `timestamp_ms` and
    /// announces it.
    pub fn seek_replay(&mut self, timestamp_ms: u64) -> (res: Result<(), String>)
        requires
            old(self).wf(),
        ensures
            final(self).wf(),
            res is Ok,
            final(self).player_v() == match old(self).player_v().recording {
                Some(r) => PlayerView {
                    current_index: seek_index(r.events@, timestamp_ms) as usize,
                    ..old(self).player_v()
                },
                None => old(self).player_v(),
            },
            final(self).effects_v() == old(self).effects_v() + seq![
                EffectV::Publish(EventV::PlaybackSeeked { timestamp_ms }),
            ],
            final(self).tabs_v() == old(self).tabs_v(),
            final(self).has_view() == old(self).has_view(),
            final(self).has_bar() == old(self).has_bar(),
            final(self).is_headless() == old(self).is_headless(),
    {
        self.player.seek(timestamp_ms);
        self.publish_event(BrowserEvent::PlaybackSeeked { timestamp_ms });
        Ok(())
    }

    /// Hands out the event at the playback position and moves past it.
    pub fn step_forward_replay(&mut self) -> (res: Result<Option<BrowserEvent>, String>)
        requires
            old(self).wf(),
        ensures
            final(self).wf(),
            match old(self).player_v().recording {
                Some(r) if old(self).player_v().current_index < r.events@.len() => res matches Ok(Some(e))
                    && e@ == r.events@[old(self).player_v().current_index as int].event@
                    && final(self).player_v() == (PlayerView {
                    current_index: (old(self).player_v().current_index + 1) as usize,
                    ..old(self).player_v()
                }),
                _ => res matches Ok(None) && final(self).player_v() == old(self).player_v(),
            },
            final(self).recorder_v() == old(self).recorder_v(),
            final(self).effects_v() == old(self).effects_v(),
            final(self).tabs_v() == old(self).tabs_v(),
            final(self).has_view() == old(self).has_view(),
            final(self).has_bar() == old(self).has_bar(),
            final(self).is_headless() == old(self).is_headless(),
    {
        let e = self.player.step_forward();
        proof {
            if e is Some {
                crate::event::lemma_same_event_same_view(
                    e->0,
                    old(self).player_v().recording->0.events@[old(self).player_v().current_index as int].event,
                );
            }
        }
        Ok(e)
    }

    /// Moves playback back by one event.
    pub fn step_backward_replay(&mut self) -> (res: Result<(), String>)
        requires
            old(self).wf(),
        ensures
            final(self).wf(),
            res is Ok,
            final(self).player_v() == if old(self).player_v().current_index > 0 {
                PlayerView { current_index: (old(self).player_v().current_index - 1) as usize, ..old(self).player_v() }
            } else {
                old(self).player_v()
            },
            final(self).effects_v() == old(self).effects_v(),
            final(self).tabs_v() == old(self).tabs_v(),
            final(self).has_view() == old(self).has_view(),
            final(self).has_bar() == old(self).has_bar(),
            final(self).is_headless() == old(self).is_headless(),
    {
        self.player.step_backward();
        Ok(())
    }

    /// Sets the playback speed, kept within the player's bounds, and announces
    /// the speed asked for.
    pub fn set_replay_speed(&mut self, speed: Real32) -> (res: Result<(), String>)
        requires
            old(self).wf(),
        ensures
            final(self).wf(),
            res is Ok,
            final(self).player_v() == (PlayerView {
                speed: Real32 { bits: clamped_speed(speed.bits) },
                ..old(self).player_v()
            }),
            final(self).effects_v() == old(self).effects_v() + seq![
                EffectV::Publish(EventV::PlaybackSpeedChanged { speed }),
            ],
            final(self).tabs_v() == old(self).tabs_v(),
            final(self).has_view() == old(self).has_view(),
            final(self).has_bar() == old(self).has_bar(),
            final(self).is_headless() == old(self).is_headless(),
    {
        self.player.set_speed(speed);
        self.publish_event(BrowserEvent::PlaybackSpeedChanged { speed });
        Ok(())
    }

    /// Turns looping playback on or off.
    pub fn set_replay_loop(&mut self, enable: bool) -> (res: Result<(), String>)
        requires
            old(self).wf(),
        ensures
            final(self).wf(),
            res is Ok,
            final(self).player_v() == (PlayerView { loop_playback: enable, ..old(self).player_v() }),
            final(self).effects_v() == old(self).effects_v(),
            final(self).tabs_v() == old(self).tabs_v(),
            final(self).has_view() == old(self).has_view(),
            final(self).has_bar() == old(self).has_bar(),
            final(self).is_headless() == old(self).is_headless(),
    {
        self.player.set_loop(enable);
        Ok(())
    }

    /// The player, for reading where playback stands.
    pub fn player(&self) -> (res: &EventPlayer)
        ensures
            res@ == self.player_v(),
    {
        &self.player
    }

    /// Replays one recorded event: navigations and tab openings, closings and
    /// switches are carried out; other events only inform and are skipped.
    pub fn execute_event(&mut self, event: BrowserEvent) -> (res: Result<(), String>)
        requires
            old(self).wf(),
            old(self).tabs_v().next_id < usize::MAX,
        ensures
            final(self).wf(),
            match event@ {
                EventV::Navigation { url } => res is Ok && final(self).tabs_v() == navigate_tabs(old(self).tabs_v(), url),
                EventV::TabCreated { url, .. } => res is Ok && final(self).tabs_v() == spec_create(old(self).tabs_v(), url),
                EventV::TabClosed { id } => (res is Ok <==> spec_close(old(self).tabs_v(), id).0)
                    && final(self).tabs_v() == spec_close(old(self).tabs_v(), id).1,
                EventV::TabActivated { id } => (res is Ok <==> old(self).tabs_v().has(id))
                    && final(self).tabs_v() == spec_switch(old(self).tabs_v(), id).1,
                _ => res is Ok && final(self).tabs_v() == old(self).tabs_v() && final(self).effects_v()
                    == old(self).effects_v(),
            },
            final(self).tabs_v() == replay_tabs(old(self).tabs_v(), event@),
            final(self).player_v() == old(self).player_v(),
            final(self).has_view() == old(self).has_view(),
            final(self).has_bar() == old(self).has_bar(),
            final(self).is_headless() == old(self).is_headless(),
    {
        match event {
            BrowserEvent::Navigation { url } => self.navigate(url.as_str()),
            BrowserEvent::TabCreated { url, .. } => match self.create_tab(url.as_str()) {
                Ok(_) => Ok(()),
                Err(e) => Err(e.to_string()),
            },
            BrowserEvent::TabClosed { id } => match self.close_tab(id) {
                Ok(()) => Ok(()),
                Err(e) => Err(e.to_string()),
            },
            BrowserEvent::TabActivated { id } => match self.switch_to_tab(id) {
                Ok(()) => Ok(()),
                Err(e) => Err(e.to_string()),
            },
            _ => Ok(()),
        }
    }

    /// The session of the open tabs: their addresses and titles in order and
    /// the position of the active one.
    pub fn save_session(&self) -> (res: Session)
        requires
            self.wf(),
        ensures
            res@ == spec_session(self.tabs_v()),
    {
        session_from_tabs(&self.tabs)
    }

    /// Whether an id is left for one more tab.
    pub fn can_open_tab(&self) -> (res: bool)
        ensures
            res == (self.tabs_v().next_id < usize::MAX),
    {
        self.tabs.next_tab_id() < usize::MAX
    }

    /// Whether the ids left are enough to open every tab of `session`.
    pub fn can_restore(&self, session: &Session) -> (res: bool)
        ensures
            res == (self.tabs_v().next_id + session@.tabs.len() < usize::MAX),
    {
        let next = self.tabs.next_tab_id();
        next < usize::MAX && session.tabs.len() < usize::MAX - next
    }

    /// Opens the tabs of `session` (announcing each), gives them their saved
    /// titles and switches to the saved active tab. An empty session changes
    /// nothing.
    pub fn restore_session(&mut self, session: &Session) -> (res: Result<(), WebViewError>)
        requires
            old(self).wf(),
            old(self).tabs_v().next_id + session@.tabs.len() < usize::MAX,
        ensures
            final(self).wf(),
            res is Ok,
            final(self).tabs_v() == spec_restore(old(self).tabs_v(), session@),
            session@.tabs.len() == 0 ==> final(self).effects_v() == old(self).effects_v(),
            final(self).has_view() == old(self).has_view(),
            final(self).has_bar() == old(self).has_bar(),
            final(self).is_headless() == old(self).is_headless(),
    {
        let ghost m0 = self.tabs_v();
        let ghost sv = session@;
        let n = session.tabs.len();
        if n == 0 {
            return Ok(());
        }
        let mut last_id: Option<usize> = None;
        let mut i: usize = 0;
        while i < n
            invariant
                self.wf(),
                n == session.tabs@.len(),
                sv == session@,
                sv.tabs.len() == n,
                i <= n,
                m0.next_id + n < usize::MAX,
                self.tabs_v().tabs == m0.tabs + Seq::new(i as nat, |k: int| restored_tab::<()>(sv, m0.next_id, k)),
                self.tabs_v().next_id == m0.next_id + i,
                i > 0 ==> self.tabs_v().active == Some((m0.next_id + i - 1) as usize),
                i == 0 ==> self.tabs_v() == m0,
                last_id == if sv.active_index < i { Some((m0.next_id + sv.active_index) as usize) } else { None::<usize> },
                self.has_view() == old(self).has_view(),
                self.has_bar() == old(self).has_bar(),
                self.is_headless() == old(self).is_headless(),
            decreases n - i,
        {
            let ghost before = self.tabs_v();
            let saved = &session.tabs[i];
            let id = match self.create_tab(saved.url.as_str()) {
                Ok(id) => id,
                Err(e) => {
                    return Err(e);
                },
            };
            proof {
                assert(sv.tabs[i as int] == session.tabs@[i as int]@);
            }
            let ghost created = self.tabs_v();
            proof {
                let last = created.tabs.len() - 1;
                assert(created.tabs[last].id == id);
                crate::browser::tabs::lemma_tab_at_is_pos(created, last, id);
            }
            if saved.title.as_str().unicode_len() > 0 {
                self.tabs.update_tab_title(id, saved.title.clone());
            } else {
                proof {
                    assert(saved.title@ =~= Seq::<char>::empty());
                }
            }
            proof {
                let last = created.tabs.len() - 1;
                let want = m0.tabs + Seq::new((i + 1) as nat, |k: int| restored_tab::<()>(sv, m0.next_id, k));
                assert(self.tabs_v().tabs[last] == restored_tab::<()>(sv, m0.next_id, i as int));
                assert(self.tabs_v().tabs.len() == want.len());
                assert forall|k: int| 0 <= k < want.len() implies self.tabs_v().tabs[k] == want[k] by {
                    if k < last {
                        assert(self.tabs_v().tabs[k] == before.tabs[k]);
                    }
                }
                assert(self.tabs_v().tabs =~= want);
            }
            if i == session.active_index {
                last_id = Some(id);
            }
            i = i + 1;
        }
        match last_id {
            Some(id) => {
                proof {
                    let m = self.tabs_v();
                    let k = m0.tabs.len() + sv.active_index;
                    assert(m.tabs[k].id == id);
                    assert(m.has(id));
                }
                let _ = self.switch_to_tab(id);
            },
            None => {},
        }
        proof {
            assert(self.tabs_v().tabs =~= spec_restore(m0, sv).tabs);
        }
        Ok(())
    }

    /// The event viewer, for listing the recent events.
    pub fn event_viewer(&self) -> (res: &EventViewer)
        ensures
            res@ == self.history_v(),
    {
        &self.event_viewer
    }

    /// Forgets the event history.
    pub fn clear_event_history(&mut self)
        requires
            old(self).wf(),
        ensures
            final(self).wf(),
            final(self).history_v() == Seq::<(u64, EventV)>::empty(),
            final(self).tabs_v() == old(self).tabs_v(),
            final(self).effects_v() == old(self).effects_v(),
            final(self).has_view() == old(self).has_view(),
            final(self).has_bar() == old(self).has_bar(),
            final(self).is_headless() == old(self).is_headless(),
    {
        self.event_viewer.clear();
    }

    /// Runs `script` in the content view. The view's reply is not awaited:
    /// the result is the empty JSON object `{}` whenever there is a view.
    pub fn execute_javascript(&self, script: &str) -> (res: Result<String, String>)
        ensures
            self.has_view() ==> (res matches Ok(r) && r@ == "{}"@),
            !self.has_view() ==> (res matches Err(e) && e@ == "No content view available"@),
    {
        if self.has_content_view {
            Ok(to_string("{}"))
        } else {
            Err(to_string("No content view available"))
        }
    }

    /// Looks for the element that `selector_json` describes. The page's
    /// answer is `{}` (see `execute_javascript`), which reads as no element.
    pub fn find_element(&self, selector_json: &str) -> (res: Result<Option<ElementInfo>, String>)
        ensures
            self.has_view() ==> (res matches Ok(None)),
            !self.has_view() ==> (res matches Err(e) && e@ == "No content view available"@),
    {
        let script = self.dom_inspector.find_element(selector_json);
        match self.execute_javascript(script.as_str()) {
            Ok(_) => Ok(None),
            Err(e) => Err(e),
        }
    }

    /// Acts on an element and announces it as `interact_element_` followed
    /// by `interaction_label`, the interaction as `{:?}` prints it.
    pub fn interact_with_element(
        &mut self,
        selector_json: &str,
        interaction_json: &str,
        interaction_label: &str,
    ) -> (res: Result<InteractionResult, String>)
        requires
            old(self).wf(),
        ensures
            final(self).wf(),
            old(self).has_view() ==> (res matches Ok(r) && r.success && r.error is None && r.element_info is None
                && r.screenshot_data is None),
            old(self).has_view() ==> final(self).effects_v() == old(self).effects_v() + seq![
                EffectV::Publish(EventV::CommandExecuted {
                    command: "interact_element_"@ + interaction_label@,
                    success: true,
                }),
            ],
            !old(self).has_view() ==> (res matches Err(e) && e@ == "No content view available"@
                && final(self).effects_v() == old(self).effects_v()),
            final(self).tabs_v() == old(self).tabs_v(),
            final(self).has_view() == old(self).has_view(),
            final(self).has_bar() == old(self).has_bar(),
            final(self).is_headless() == old(self).is_headless(),
    {
        let script = self.dom_inspector.interact_with_element(selector_json, interaction_json);
        match self.execute_javascript(script.as_str()) {
            Ok(_) => {},
            Err(e) => {
                return Err(e);
            },
        }
        self.publish_event(
            BrowserEvent::CommandExecuted { command: concat("interact_element_", interaction_label), success: true },
        );
        let element_info = match self.find_element(selector_json) {
            Ok(info) => info,
            Err(e) => {
                return Err(e);
            },
        };
        Ok(InteractionResult { success: true, error: None, element_info, screenshot_data: None })
    }

    /// Outlines an element in `color`, then looks it up.
    pub fn highlight_element(&self, selector_json: &str, color: Option<&str>) -> (res: Result<Option<ElementInfo>, String>)
        ensures
            self.has_view() ==> (res matches Ok(None)),
            !self.has_view() ==> (res matches Err(e) && e@ == "No content view available"@),
    {
        let script = self.dom_inspector.highlight_element(selector_json, color);
        match self.execute_javascript(script.as_str()) {
            Ok(_) => self.find_element(selector_json),
            Err(e) => Err(e),
        }
    }

    /// What the page reports about itself; the page is not asked, and the
    /// report is a fixed sample.
    pub fn get_page_info(&self) -> (res: Result<Json, String>)
        ensures
            self.has_view() ==> (res matches Ok(j) && j@ == sample_page_info()),
            !self.has_view() ==> (res matches Err(e) && e@ == "No content view available"@),
    {
        let script = self.dom_inspector.get_page_info();
        match self.execute_javascript(script.as_str()) {
            Ok(_) => Ok(page_info_sample()),
            Err(e) => Err(e),
        }
    }

    /// The elements that match `css_selector`; none are reported.
    pub fn find_all_elements(&self, css_selector: &str) -> (res: Result<Vec<ElementInfo>, String>)
        ensures
            self.has_view() ==> (res matches Ok(v) && v@.len() == 0),
            !self.has_view() ==> (res matches Err(e) && e@ == "No content view available"@),
    {
        let script = self.dom_inspector.find_all_elements(css_selector);
        match self.execute_javascript(script.as_str()) {
            Ok(_) => Ok(Vec::new()),
            Err(e) => Err(e),
        }
    }

    /// Starts performance monitoring afresh and announces it.
    pub fn start_performance_monitoring(&mut self) -> (res: Result<(), String>)
        requires
            old(self).wf(),
        ensures
            final(self).wf(),
            res is Ok,
            final(self).perf_v() == cleared(PerformanceView { monitoring: true, ..old(self).perf_v() }),
            final(self).effects_v() == old(self).effects_v() + seq![
                EffectV::Publish(EventV::CommandExecuted { command: "start_performance_monitoring"@, success: true }),
            ],
            final(self).tabs_v() == old(self).tabs_v(),
            final(self).has_view() == old(self).has_view(),
            final(self).has_bar() == old(self).has_bar(),
            final(self).is_headless() == old(self).is_headless(),
    {
        self.performance_monitor.start_monitoring();
        self.publish_event(
            BrowserEvent::CommandExecuted { command: to_string("start_performance_monitoring"), success: true },
        );
        Ok(())
    }

    /// Stops performance monitoring and announces it.
    pub fn stop_performance_monitoring(&mut self) -> (res: Result<(), String>)
        requires
            old(self).wf(),
        ensures
            final(self).wf(),
            res is Ok,
            final(self).perf_v() == (PerformanceView { monitoring: false, ..old(self).perf_v() }),
            final(self).effects_v() == old(self).effects_v() + seq![
                EffectV::Publish(EventV::CommandExecuted { command: "stop_performance_monitoring"@, success: true }),
            ],
            final(self).tabs_v() == old(self).tabs_v(),
            final(self).has_view() == old(self).has_view(),
            final(self).has_bar() == old(self).has_bar(),
            final(self).is_headless() == old(self).is_headless(),
    {
        self.performance_monitor.stop_monitoring();
        self.publish_event(
            BrowserEvent::CommandExecuted { command: to_string("stop_performance_monitoring"), success: true },
        );
        Ok(())
    }

    /// Collects the page's performance metrics. The page's answer is `{}`
    /// (see `execute_javascript`), which reads as the empty object.
    pub fn collect_performance_metrics(&self) -> (res: Result<Json, String>)
        ensures
            self.has_view() ==> (res matches Ok(j) && j@ == JsonV::Object(Seq::empty())),
            !self.has_view() ==> (res matches Err(e) && e@ == "No content view available"@),
    {
        match self.execute_javascript("") {
            Ok(_) => {
                let j = Json::object(Vec::new());
                proof {
                    assert(crate::json::members_view(Seq::<(String, Json)>::empty()) =~= Seq::empty());
                }
                Ok(j)
            },
            Err(e) => Err(e),
        }
    }

    /// The page's memory figures, read from the collected metrics (a figure
    /// that is missing reads as zero), and kept as a snapshot.
    pub fn get_memory_metrics(&mut self) -> (res: Result<MemoryMetrics, String>)
        requires
            old(self).wf(),
        ensures
            final(self).wf(),
            old(self).has_view() ==> (res matches Ok(m) && m == memory_from(JsonV::Object(Seq::empty()))
                && final(self).perf_v().memory_snapshots.last() == m),
            !old(self).has_view() ==> (res matches Err(e) && e@ == "No content view available"@
                && final(self).perf_v() == old(self).perf_v()),
            final(self).effects_v() == old(self).effects_v(),
            final(self).tabs_v() == old(self).tabs_v(),
            final(self).has_view() == old(self).has_view(),
            final(self).has_bar() == old(self).has_bar(),
            final(self).is_headless() == old(self).is_headless(),
    {
        let metrics = match self.collect_performance_metrics() {
            Ok(m) => m,
            Err(e) => {
                return Err(e);
            },
        };
        let memory = memory_metrics_of(&metrics);
        let kept = memory_metrics_of(&metrics);
        self.performance_monitor.add_memory_snapshot(kept);
        Ok(memory)
    }

    /// Starts profiling the script at `script_url`; returns the profile's id.
    pub fn start_js_profiling(&mut self, script_url: String) -> (res: Result<String, String>)
        requires
            old(self).wf(),
        ensures
            final(self).wf(),
            res matches Ok(id) && final(self).perf_v().active_profile matches Some(p) && p.id@ == id@
                && p.script_url == script_url,
            final(self).effects_v() == old(self).effects_v(),
            final(self).tabs_v() == old(self).tabs_v(),
            final(self).has_view() == old(self).has_view(),
            final(self).has_bar() == old(self).has_bar(),
            final(self).is_headless() == old(self).is_headless(),
    {
        Ok(self.performance_monitor.start_js_profile(script_url))
    }

    /// Ends the profile in progress and hands it back, if there is one.
    pub fn stop_js_profiling(&mut self) -> (res: Result<Option<JavaScriptProfile>, String>)
        requires
            old(self).wf(),
        ensures
            final(self).wf(),
            old(self).perf_v().active_profile is None ==> (res matches Ok(None)),
            old(self).perf_v().active_profile matches Some(p) ==> (res matches Ok(Some(q)) && q.id == p.id
                && final(self).perf_v().active_profile is None),
            final(self).effects_v() == old(self).effects_v(),
            final(self).tabs_v() == old(self).tabs_v(),
            final(self).has_view() == old(self).has_view(),
            final(self).has_bar() == old(self).has_bar(),
            final(self).is_headless() == old(self).is_headless(),
    {
        Ok(self.performance_monitor.stop_js_profile())
    }

    /// Adds a marker named `name`, now.
    pub fn add_performance_marker(&mut self, name: String, metadata: Option<Vec<(String, String)>>) -> (res: Result<(), String>)
        requires
            old(self).wf(),
        ensures
            final(self).wf(),
            res is Ok,
            final(self).perf_v().markers.drop_last() == old(self).perf_v().markers,
            final(self).perf_v().markers.last().name == name,
            final(self).effects_v() == old(self).effects_v(),
            final(self).tabs_v() == old(self).tabs_v(),
            final(self).has_view() == old(self).has_view(),
            final(self).has_bar() == old(self).has_bar(),
            final(self).is_headless() == old(self).is_headless(),
    {
        self.performance_monitor.add_marker(name, metadata);
        Ok(())
    }

    /// Adds a measure between two markers; refused when either is missing.
    pub fn add_performance_measure(&mut self, name: String, start_mark: String, end_mark: String) -> (res: Result<(), String>)
        requires
            old(self).wf(),
        ensures
            final(self).wf(),
            res is Ok <==> marker_named(old(self).perf_v().markers, start_mark@) is Some && marker_named(
                old(self).perf_v().markers,
                end_mark@,
            ) is Some,
            measure_outcome(old(self).perf_v(), final(self).perf_v(), name, start_mark, end_mark, res),
            final(self).effects_v() == old(self).effects_v(),
            final(self).tabs_v() == old(self).tabs_v(),
            final(self).has_view() == old(self).has_view(),
            final(self).has_bar() == old(self).has_bar(),
            final(self).is_headless() == old(self).is_headless(),
    {
        self.performance_monitor.add_measure(name, start_mark, end_mark)
    }

    /// Starts keeping console messages and runs the interceptor in the page;
    /// without a view the interceptor cannot run, which is reported.
    pub fn start_console_monitoring(&mut self) -> (res: Result<(), String>)
        requires
            old(self).wf(),
        ensures
            final(self).wf(),
            final(self).console_v() == (ConsoleView { monitoring: true, ..old(self).console_v() }),
            old(self).has_view() <==> res is Ok,
            res matches Err(e) ==> e@ == "Failed to inject console interceptor: "@ + "No content view available"@,
            final(self).effects_v() == old(self).effects_v(),
            final(self).tabs_v() == old(self).tabs_v(),
            final(self).has_view() == old(self).has_view(),
            final(self).has_bar() == old(self).has_bar(),
            final(self).is_headless() == old(self).is_headless(),
    {
        self.console_monitor.start_monitoring();
        match self.execute_javascript("") {
            Ok(_) => Ok(()),
            Err(e) => Err(concat("Failed to inject console interceptor: ", e.as_str())),
        }
    }

    /// Stops keeping console messages.
    pub fn stop_console_monitoring(&mut self) -> (res: Result<(), String>)
        requires
            old(self).wf(),
        ensures
            final(self).wf(),
            res is Ok,
            final(self).console_v() == (ConsoleView { monitoring: false, ..old(self).console_v() }),
            final(self).effects_v() == old(self).effects_v(),
            final(self).tabs_v() == old(self).tabs_v(),
            final(self).has_view() == old(self).has_view(),
            final(self).has_bar() == old(self).has_bar(),
            final(self).is_headless() == old(self).is_headless(),
    {
        self.console_monitor.stop_monitoring();
        Ok(())
    }

    /// The kept console messages, all or those at `level`.
    pub fn get_console_logs(&self, level: Option<ConsoleLevel>) -> (res: Result<Vec<ConsoleMessage>, String>)
        ensures
            res matches Ok(v) && messages_view(v@) == match level {
                Some(l) => messages_at(self.console_v().messages, l),
                None => self.console_v().messages,
            },
    {
        Ok(self.console_monitor.get_messages(level))
    }

    /// Forgets the console messages and errors.
    pub fn clear_console_logs(&mut self) -> (res: Result<(), String>)
        requires
            old(self).wf(),
        ensures
            final(self).wf(),
            res is Ok,
            final(self).console_v() == (ConsoleView {
                messages: Seq::empty(),
                errors: Seq::empty(),
                ..old(self).console_v()
            }),
            final(self).effects_v() == old(self).effects_v(),
            final(self).tabs_v() == old(self).tabs_v(),
            final(self).has_view() == old(self).has_view(),
            final(self).has_bar() == old(self).has_bar(),
            final(self).is_headless() == old(self).is_headless(),
    {
        self.console_monitor.clear();
        Ok(())
    }

    /// Shows only console messages at `level`, or all.
    pub fn set_console_filter(&mut self, level: Option<ConsoleLevel>) -> (res: Result<(), String>)
        requires
            old(self).wf(),
        ensures
            final(self).wf(),
            res is Ok,
            final(self).console_v() == (ConsoleView { filter_level: level, ..old(self).console_v() }),
            final(self).effects_v() == old(self).effects_v(),
            final(self).tabs_v() == old(self).tabs_v(),
            final(self).has_view() == old(self).has_view(),
            final(self).has_bar() == old(self).has_bar(),
            final(self).is_headless() == old(self).is_headless(),
    {
        self.console_monitor.set_filter(level);
        Ok(())
    }
}

/// The member `key` of `j` as a non-negative integer, or zero.
pub open spec fn u64_or_zero(j: JsonV, key: Seq<char>) -> u64 {
    match j.get(key) {
        Some(v) => match v.as_u64() {
            Some(n) => n,
            None => 0,
        },
        None => 0,
    }
}

/// The memory figures found under `memory` in collected metrics.
pub open spec fn memory_from(metrics: JsonV) -> MemoryMetrics {
    let m = metrics.at("memory"@);
    MemoryMetrics {
        js_heap_size_limit: u64_or_zero(m, "js_heap_size_limit"@),
        total_js_heap_size: u64_or_zero(m, "total_js_heap_size"@),
        used_js_heap_size: u64_or_zero(m, "used_js_heap_size"@),
        dom_node_count: u64_or_zero(m, "dom_node_count"@) as u32,
        event_listener_count: u64_or_zero(m, "event_listener_count"@) as u32,
        detached_node_count: u64_or_zero(m, "detached_node_count"@) as u32,
        timestamp: u64_or_zero(m, "timestamp"@),
    }
}

fn u64_member(j: Option<&Json>, key: &str) -> (res: u64)
    ensures
        res == match j {
            Some(v) => u64_or_zero(v@, key@),
            None => 0,
        },
{
    match j {
        Some(v) => match v.u64_at(key) {
            Some(n) => n,
            None => 0,
        },
        None => 0,
    }
}

/// Reads the memory figures of collected metrics.
pub fn memory_metrics_of(metrics: &Json) -> (res: MemoryMetrics)
    ensures
        res == memory_from(metrics@),
{
    let m = metrics.get("memory");
    MemoryMetrics {
        js_heap_size_limit: u64_member(m, "js_heap_size_limit"),
        total_js_heap_size: u64_member(m, "total_js_heap_size"),
        used_js_heap_size: u64_member(m, "used_js_heap_size"),
        dom_node_count: u64_member(m, "dom_node_count") as u32,
        event_listener_count: u64_member(m, "event_listener_count") as u32,
        detached_node_count: u64_member(m, "detached_node_count") as u32,
        timestamp: u64_member(m, "timestamp"),
    }
}

/// A JSON number from a non-negative integer.
pub open spec fn int_v(n: u64) -> JsonV {
    JsonV::Number(crate::json::JsonNumber::PosInt(n))
}

/// The sample page report: its members in the order of their names.
pub open spec fn sample_page_info() -> JsonV {
    JsonV::Object(
        seq![
            ("elementCount"@, int_v(42)),
            ("performance"@, JsonV::Object(seq![("domContentLoaded"@, int_v(500)), ("loadComplete"@, int_v(1200))])),
            ("readyState"@, JsonV::Str("complete"@)),
            ("title"@, JsonV::Str("Mock Page Title"@)),
            ("url"@, JsonV::Str("https://example.com"@)),
            (
                "viewport"@,
                JsonV::Object(
                    seq![("height"@, int_v(600)), ("scrollX"@, int_v(0)), ("scrollY"@, int_v(0)), ("width"@, int_v(800))],
                ),
            ),
        ],
    )
}

fn int_json(n: u64) -> (res: Json)
    ensures
        res@ == int_v(n),
{
    Json::Number(crate::json::JsonNumber::PosInt(n))
}

fn str_json(s: &str) -> (res: Json)
    ensures
        res@ == JsonV::Str(s@),
{
    Json::Str(to_string(s))
}

fn page_info_sample() -> (res: Json)
    ensures
        res@ == sample_page_info(),
{
    let performance = Json::object2("domContentLoaded", int_json(500), "loadComplete", int_json(1200));
    let viewport_fields = vec![
        (to_string("height"), int_json(600)),
        (to_string("scrollX"), int_json(0)),
        (to_string("scrollY"), int_json(0)),
        (to_string("width"), int_json(800)),
    ];
    let ghost vf = viewport_fields@;
    let viewport = Json::object(viewport_fields);
    proof {
        assert(crate::json::members_view(vf) =~= seq![
            ("height"@, int_v(600)),
            ("scrollX"@, int_v(0)),
            ("scrollY"@, int_v(0)),
            ("width"@, int_v(800)),
        ]);
    }
    let ghost pv = performance@;
    let ghost vv = viewport@;
    let fields = vec![
        (to_string("elementCount"), int_json(42)),
        (to_string("performance"), performance),
        (to_string("readyState"), str_json("complete")),
        (to_string("title"), str_json("Mock Page Title")),
        (to_string("url"), str_json("https://example.com")),
        (to_string("viewport"), viewport),
    ];
    let ghost ff = fields@;
    let res = Json::object(fields);
    proof {
        assert(crate::json::members_view(ff) =~= seq![
            ("elementCount"@, int_v(42)),
            ("performance"@, pv),
            ("readyState"@, JsonV::Str("complete"@)),
            ("title"@, JsonV::Str("Mock Page Title"@)),
            ("url"@, JsonV::Str("https://example.com"@)),
            ("viewport"@, vv),
        ]);
    }
    res
}

/// The commands that need the window's own work (screenshots and files,
/// reading page answers into typed values, figures with fractions, replay
/// threads): the engine hands them back to the window loop untouched.
pub open spec fn left_to_window(cmd: BrowserCommand) -> bool {
    ||| cmd is TakeScreenshot
    ||| cmd is CreateBaseline
    ||| cmd is RunVisualTest
    ||| cmd is FindElement
    ||| cmd is InteractElement
    ||| cmd is HighlightElement
    ||| cmd is WaitForCondition
    ||| cmd is ExportNetworkHAR
    ||| cmd is AddNetworkFilter
    ||| cmd is GetCoreWebVitals
    ||| cmd is GetMemoryMetrics
    ||| cmd is GetPerformanceSummary
    ||| cmd is StopJSProfiling
    ||| cmd is AddPerformanceMeasure
    ||| cmd is SaveRecording
    ||| cmd is LoadRecording
    ||| cmd is StartPlayback
    ||| cmd is GetPlaybackState
}

/// What the tab bar and content view are told when the address bar asks for
/// `url`: the active tab's view loads it and the bar shows it.
pub open spec fn navigate_command_effects(m: TabsView<()>, url: Seq<char>, has_view: bool, has_bar: bool) -> Seq<EffectV> {
    match m.active {
        Some(a) => if m.has(a) {
            (if has_view { seq![EffectV::LoadUrl(url)] } else { Seq::empty() }) + if has_bar {
                seq![EffectV::TabBarUrl(a, url)]
            } else {
                Seq::empty()
            }
        } else {
            Seq::empty()
        },
        None => Seq::empty(),
    }
}

/// The event that reports a console message.
pub open spec fn console_event(m: MessageView) -> EventV {
    EventV::ConsoleMessage {
        level: level_name(m.level),
        message: m.message,
        timestamp: m.timestamp,
        stack_trace: m.stack_trace,
    }
}

/// The level a command names, if it names one.
pub open spec fn named_level(level: Option<String>) -> Option<ConsoleLevel> {
    match level {
        Some(l) => level_of_name(l@),
        None => None,
    }
}

/// The string members of a JSON object, in order; nothing for other values.
pub open spec fn string_members(j: JsonV) -> Option<Seq<(Seq<char>, Seq<char>)>> {
    match j {
        JsonV::Object(fields) => Some(
            fields.filter(|f: (Seq<char>, JsonV)| f.1 is Str).map_values(|f: (Seq<char>, JsonV)| (f.0, f.1->Str_0)),
        ),
        _ => None,
    }
}

/// Reads the level a command names.
fn level_named(level: &Option<String>) -> (res: Option<ConsoleLevel>)
    ensures
        res == named_level(*level),
{
    match level {
        Some(l) => ConsoleLevel::from_str(l.as_str()),
        None => None,
    }
}

/// The string members of marker metadata.
pub fn metadata_pairs(metadata: &Option<Json>) -> (res: Option<Vec<(String, String)>>)
    ensures
        match *metadata {
            Some(j) => match string_members(j@) {
                Some(pairs) => res matches Some(v) && v@.map_values(|p: (String, String)| (p.0@, p.1@)) == pairs,
                None => res is None,
            },
            None => res is None,
        },
{
    match metadata {
        Some(Json::Object(fields)) => {
            let ghost fv = crate::json::members_view(fields@);
            let mut out: Vec<(String, String)> = Vec::new();
            let mut i: usize = 0;
            while i < fields.len()
                invariant
                    i <= fields@.len(),
                    fv == crate::json::members_view(fields@),
                    out@.map_values(|p: (String, String)| (p.0@, p.1@)) == fv.take(i as int).filter(
                        |f: (Seq<char>, JsonV)| f.1 is Str,
                    ).map_values(|f: (Seq<char>, JsonV)| (f.0, f.1->Str_0)),
                decreases fields@.len() - i,
            {
                let ghost before = out@;
                proof {
                    assert(fv.take(i + 1) =~= fv.take(i as int).push(fv[i as int]));
                    fv.take(i as int).lemma_filter_push(fv[i as int], |f: (Seq<char>, JsonV)| f.1 is Str);
                }
                match &fields[i].1 {
                    Json::Str(v) => {
                        out.push((fields[i].0.clone(), v.clone()));
                        proof {
                            assert(out@.map_values(|p: (String, String)| (p.0@, p.1@)) =~= before.map_values(
                                |p: (String, String)| (p.0@, p.1@),
                            ).push((fields@[i as int].0@, v@)));
                        }
                    },
                    _ => {},
                }
                i = i + 1;
            }
            proof {
                assert(fv.take(fields@.len() as int) =~= fv);
                crate::json::lemma_object_view(*fields);
                assert(metadata->0@ == JsonV::Object(fv));
            }
            Some(out)
        },
        _ => None,
    }
}

/// Whether the window loop, not the engine, carries out `cmd`.
pub fn is_left_to_window(cmd: &BrowserCommand) -> (res: bool)
    ensures
        res == left_to_window(*cmd),
{
    match cmd {
        BrowserCommand::TakeScreenshot { .. } | BrowserCommand::CreateBaseline { .. } | BrowserCommand::RunVisualTest {
            ..
        } | BrowserCommand::FindElement { .. } | BrowserCommand::InteractElement { .. }
        | BrowserCommand::HighlightElement { .. } | BrowserCommand::WaitForCondition { .. }
        | BrowserCommand::ExportNetworkHAR | BrowserCommand::AddNetworkFilter { .. } | BrowserCommand::GetCoreWebVitals
        | BrowserCommand::GetMemoryMetrics | BrowserCommand::GetPerformanceSummary | BrowserCommand::StopJSProfiling
        | BrowserCommand::AddPerformanceMeasure { .. } | BrowserCommand::SaveRecording { .. }
        | BrowserCommand::LoadRecording { .. } | BrowserCommand::StartPlayback | BrowserCommand::GetPlaybackState => true,
        _ => false,
    }
}

impl BrowserEngine {
    /// Carries out a command from the broker, the API or the MCP server. The
    /// commands that need the window's own work are handed back untouched;
    /// failures of the other commands are dropped, except those of the tab
    /// commands, which are returned.
    pub fn handle_command(&mut self, cmd: BrowserCommand) -> (res: Result<Option<BrowserCommand>, WebViewError>)
        requires
            old(self).wf(),
            old(self).tabs_v().next_id < usize::MAX,
        ensures
            final(self).wf(),
            left_to_window(cmd) ==> res == Ok::<Option<BrowserCommand>, WebViewError>(Some(cmd)) && final(self).tabs_v()
                == old(self).tabs_v() && final(self).effects_v() == old(self).effects_v() && final(self).player_v()
                == old(self).player_v() && final(self).recorder_v() == old(self).recorder_v(),
            !left_to_window(cmd) ==> !(res matches Ok(Some(_))),
            res is Err ==> cmd is CloseTab || cmd is SwitchTab,
            match cmd {
                BrowserCommand::Navigate { url } => res is Ok && final(self).tabs_v() == old(self).tabs_v()
                    && final(self).effects_v() == old(self).effects_v() + navigate_command_effects(
                    old(self).tabs_v(),
                    url@,
                    old(self).has_view(),
                    old(self).has_bar(),
                ),
                BrowserCommand::CreateTab { url } => res is Ok && final(self).tabs_v() == spec_create(
                    old(self).tabs_v(),
                    url@,
                ) && final(self).effects_v() == old(self).effects_v() + create_effects(
                    old(self).tabs_v(),
                    url@,
                    old(self).has_view(),
                    old(self).has_bar(),
                ),
                BrowserCommand::CloseTab { id } => (res is Ok <==> spec_close(old(self).tabs_v(), id).0)
                    && (res matches Err(e) ==> e matches WebViewError::TabError(m) && m@ == "Tab not found"@)
                    && final(self).tabs_v() == spec_close(old(self).tabs_v(), id).1,
                BrowserCommand::SwitchTab { id } => (res is Ok <==> old(self).tabs_v().has(id))
                    && (res matches Err(e) ==> e matches WebViewError::TabError(m) && m@ == switch_failure(id))
                    && final(self).tabs_v() == spec_switch(old(self).tabs_v(), id).1,
                BrowserCommand::StartRecording { name, start_url } => res is Ok && final(self).recorder_v().is_recording
                    && final(self).effects_v() == old(self).effects_v() + seq![
                    EffectV::Publish(EventV::RecordingStarted { name: name@, start_url: start_url@ }),
                ],
                BrowserCommand::PauseRecording => res is Ok && !final(self).recorder_v().is_recording,
                BrowserCommand::ResumeRecording => res is Ok && final(self).recorder_v().is_recording,
                BrowserCommand::StopRecording => res is Ok && final(self).recorder_v().recording is None,
                BrowserCommand::StopPlayback => res is Ok && final(self).player_v().state == PlaybackState::Stopped,
                BrowserCommand::SetPlaybackLoop { enable } => res is Ok && final(self).player_v()
                    == (PlayerView { loop_playback: enable, ..old(self).player_v() }),
                BrowserCommand::SetPlaybackSpeed { speed } => res is Ok && final(self).player_v() == (PlayerView {
                    speed: Real32 { bits: clamped_speed(speed.bits) },
                    ..old(self).player_v()
                }),
                BrowserCommand::ClearConsoleLogs => res is Ok && final(self).console_v().messages.len() == 0
                    && final(self).effects_v() == old(self).effects_v() + seq![EffectV::Publish(EventV::ConsoleCleared)],
                BrowserCommand::SetConsoleFilter { level } => res is Ok && final(self).console_v() == (ConsoleView {
                    filter_level: named_level(level),
                    ..old(self).console_v()
                }),
                BrowserCommand::GetConsoleLogs { level } => res is Ok && final(self).effects_v() == old(self).effects_v()
                    + (match named_level(level) {
                    Some(l) => messages_at(old(self).console_v().messages, l),
                    None => old(self).console_v().messages,
                }).map_values(|m: MessageView| EffectV::Publish(console_event(m))),
                BrowserCommand::RecordEvent { event } => res is Ok && final(self).tabs_v() == old(self).tabs_v()
                    && final(self).effects_v() == old(self).effects_v() && event_recorded(
                    old(self).recorder_v(),
                    final(self).recorder_v(),
                    event,
                ),
                BrowserCommand::PlayEvent { event } => res is Ok && match event@ {
                    EventV::Navigation { url } => final(self).tabs_v() == navigate_tabs(old(self).tabs_v(), url),
                    EventV::TabCreated { url, .. } => final(self).tabs_v() == spec_create(old(self).tabs_v(), url),
                    EventV::TabClosed { id } => final(self).tabs_v() == spec_close(old(self).tabs_v(), id).1,
                    EventV::TabActivated { id } => final(self).tabs_v() == spec_switch(old(self).tabs_v(), id).1,
                    _ => final(self).tabs_v() == old(self).tabs_v() && final(self).effects_v() == old(self).effects_v(),
                },
                BrowserCommand::GetPageInfo => res is Ok && final(self).tabs_v() == old(self).tabs_v()
                    && final(self).effects_v() == old(self).effects_v(),
                BrowserCommand::ExecuteJavaScript { .. } => res is Ok && final(self).tabs_v() == old(self).tabs_v()
                    && final(self).effects_v() == old(self).effects_v(),
                BrowserCommand::GetNetworkStats => res is Ok && final(self).tabs_v() == old(self).tabs_v()
                    && final(self).effects_v() == old(self).effects_v() && final(self).network_v()
                    == old(self).network_v(),
                BrowserCommand::StartNetworkMonitoring => res is Ok && final(self).network_v().enabled
                    && final(self).network_v().requests.len() == 0 && final(self).effects_v() == old(self).effects_v(),
                BrowserCommand::StopNetworkMonitoring => res is Ok && final(self).network_v() == (MonitorView {
                    enabled: false,
                    ..old(self).network_v()
                }) && final(self).effects_v() == old(self).effects_v(),
                BrowserCommand::ClearNetworkFilters => res is Ok && final(self).network_v() == (MonitorView {
                    filters: Seq::empty(),
                    ..old(self).network_v()
                }) && final(self).effects_v() == old(self).effects_v(),
                BrowserCommand::StartPerformanceMonitoring => res is Ok && final(self).perf_v() == cleared(
                    PerformanceView { monitoring: true, ..old(self).perf_v() },
                ) && final(self).effects_v() == old(self).effects_v() + seq![
                    EffectV::Publish(EventV::CommandExecuted { command: "start_performance_monitoring"@, success: true }),
                ],
                BrowserCommand::StopPerformanceMonitoring => res is Ok && final(self).perf_v() == (PerformanceView {
                    monitoring: false,
                    ..old(self).perf_v()
                }) && final(self).effects_v() == old(self).effects_v() + seq![
                    EffectV::Publish(EventV::CommandExecuted { command: "stop_performance_monitoring"@, success: true }),
                ],
                BrowserCommand::CollectPerformanceMetrics => res is Ok && final(self).effects_v() == old(self).effects_v()
                    + if old(self).has_view() {
                    seq![EffectV::Publish(EventV::PerformanceMetricsCollected { metrics: JsonV::Object(Seq::empty()) })]
                } else {
                    Seq::empty()
                },
                BrowserCommand::StartJSProfiling { script_url } => res is Ok && (final(self).perf_v().active_profile
                    matches Some(p) && p.script_url == script_url && final(self).effects_v() == old(self).effects_v()
                    + seq![EffectV::Publish(EventV::JSProfilingStarted { profile_id: p.id@ })]),
                BrowserCommand::AddPerformanceMarker { name, .. } => res is Ok && final(self).perf_v().markers.drop_last()
                    == old(self).perf_v().markers && final(self).perf_v().markers.last().name@ == name@
                    && final(self).effects_v() == old(self).effects_v() + seq![
                    EffectV::Publish(EventV::PerformanceMarkerAdded { name: name@ }),
                ],
                BrowserCommand::StartConsoleMonitoring => res is Ok && final(self).console_v() == (ConsoleView {
                    monitoring: true,
                    ..old(self).console_v()
                }) && final(self).effects_v() == old(self).effects_v(),
                BrowserCommand::StopConsoleMonitoring => res is Ok && final(self).console_v() == (ConsoleView {
                    monitoring: false,
                    ..old(self).console_v()
                }) && final(self).effects_v() == old(self).effects_v(),
                BrowserCommand::AddRecordingAssertion { expected_state, description } => res is Ok && assertion_added(
                    old(self).recorder_v(),
                    final(self).recorder_v(),
                    expected_state,
                    description,
                ) && final(self).effects_v() == old(self).effects_v(),
                BrowserCommand::EnableRecordingSnapshots { interval_ms } => res is Ok && final(self).recorder_v() == (
                RecorderView { capture_snapshots: true, snapshot_interval_ms: interval_ms, ..old(self).recorder_v() }),
                BrowserCommand::PausePlayback => res is Ok && (old(self).player_v().state == PlaybackState::Playing
                    ==> final(self).player_v().state == PlaybackState::Paused) && (exists|t: u64|
                    final(self).player_v() == #[trigger] paused_at(old(self).player_v(), t)) && final(self).effects_v()
                    == old(self).effects_v() + seq![EffectV::Publish(EventV::PlaybackPaused)],
                BrowserCommand::ResumePlayback => res is Ok && (old(self).player_v().state == PlaybackState::Paused
                    ==> final(self).player_v().state == PlaybackState::Playing) && (exists|t: u64|
                    final(self).player_v() == #[trigger] resumed_at(old(self).player_v(), t)) && final(self).effects_v()
                    == old(self).effects_v() + seq![EffectV::Publish(EventV::PlaybackResumed)],
                BrowserCommand::SeekPlayback { timestamp_ms } => res is Ok && final(self).player_v() == match old(
                    self,
                ).player_v().recording {
                    Some(r) => PlayerView {
                        current_index: seek_index(r.events@, timestamp_ms) as usize,
                        ..old(self).player_v()
                    },
                    None => old(self).player_v(),
                },
                BrowserCommand::StepForward => res is Ok && match old(self).player_v().recording {
                    Some(r) if old(self).player_v().current_index < r.events@.len() => final(self).player_v()
                        == crate::browser::replay::stepped_forward(old(self).player_v()) && event_recorded(
                        old(self).recorder_v(),
                        final(self).recorder_v(),
                        r.events@[old(self).player_v().current_index as int].event,
                    ),
                    _ => final(self).player_v() == old(self).player_v() && final(self).recorder_v()
                        == old(self).recorder_v(),
                },
                BrowserCommand::StepBackward => res is Ok && final(self).player_v() == crate::browser::replay::stepped_back(
                    old(self).player_v(),
                ),
                _ => !left_to_window(cmd) ==> res is Ok,
            },
            final(self).has_view() == old(self).has_view(),
            final(self).has_bar() == old(self).has_bar(),
            final(self).is_headless() == old(self).is_headless(),
    {
        if is_left_to_window(&cmd) {
            return Ok(Some(cmd));
        }
        match cmd {
            BrowserCommand::CreateTab { url } => {
                match self.create_tab(url.as_str()) {
                    Ok(_) => {},
                    Err(e) => {
                        return Err(e);
                    },
                }
            },
            BrowserCommand::CloseTab { id } => {
                match self.close_tab(id) {
                    Ok(()) => {},
                    Err(e) => {
                        return Err(e);
                    },
                }
            },
            BrowserCommand::SwitchTab { id } => {
                match self.switch_to_tab(id) {
                    Ok(()) => {},
                    Err(e) => {
                        return Err(e);
                    },
                }
            },
            BrowserCommand::Navigate { url } => {
                let ghost e0 = self.effects_v();
                let active = match self.tabs.get_active_tab() {
                    Some(t) => Some(t.id),
                    None => None,
                };
                match active {
                    Some(id) => {
                        if self.has_content_view {
                            self.push_effect(Effect::LoadUrl(url.clone()));
                        }
                        if self.has_tab_bar {
                            self.push_effect(Effect::TabBarUrl { id, url: url.clone() });
                        }
                    },
                    None => {},
                }
                proof {
                    assert(self.effects_v() =~= e0 + navigate_command_effects(
                        old(self).tabs_v(),
                        url@,
                        old(self).has_view(),
                        old(self).has_bar(),
                    ));
                }
            },
            BrowserCommand::RecordEvent { event } => {
                self.recorder.record_event(event);
            },
            BrowserCommand::PlayEvent { event } => {
                let _ = self.execute_event(event);
            },
            BrowserCommand::GetPageInfo => {
                let _ = self.get_page_info();
            },
            BrowserCommand::ExecuteJavaScript { script } => {
                let _ = self.execute_javascript(script.as_str());
            },
            BrowserCommand::StartNetworkMonitoring => {
                self.network_monitor.start_monitoring();
            },
            BrowserCommand::StopNetworkMonitoring => {
                self.network_monitor.stop_monitoring();
            },
            BrowserCommand::GetNetworkStats => {},
            BrowserCommand::ClearNetworkFilters => {
                self.network_monitor.clear_filters();
            },
            BrowserCommand::StartPerformanceMonitoring => {
                let _ = self.start_performance_monitoring();
            },
            BrowserCommand::StopPerformanceMonitoring => {
                let _ = self.stop_performance_monitoring();
            },
            BrowserCommand::CollectPerformanceMetrics => {
                match self.collect_performance_metrics() {
                    Ok(metrics) => self.publish_event(BrowserEvent::PerformanceMetricsCollected { metrics }),
                    Err(_) => {},
                }
            },
            BrowserCommand::StartJSProfiling { script_url } => {
                match self.start_js_profiling(script_url) {
                    Ok(profile_id) => self.publish_event(BrowserEvent::JSProfilingStarted { profile_id }),
                    Err(_) => {},
                }
            },
            BrowserCommand::AddPerformanceMarker { name, metadata } => {
                let pairs = metadata_pairs(&metadata);
                let event_name = name.clone();
                match self.add_performance_marker(name, pairs) {
                    Ok(()) => self.publish_event(BrowserEvent::PerformanceMarkerAdded { name: event_name }),
                    Err(_) => {},
                }
            },
            BrowserCommand::StartConsoleMonitoring => {
                let _ = self.start_console_monitoring();
            },
            BrowserCommand::StopConsoleMonitoring => {
                let _ = self.stop_console_monitoring();
            },
            BrowserCommand::GetConsoleLogs { level } => {
                let l = level_named(&level);
                let logs = self.console_monitor.get_messages(l);
                self.publish_console_messages(logs);
            },
            BrowserCommand::ClearConsoleLogs => {
                let _ = self.clear_console_logs();
                self.publish_event(BrowserEvent::ConsoleCleared);
            },
            BrowserCommand::SetConsoleFilter { level } => {
                let l = level_named(&level);
                let _ = self.set_console_filter(l);
            },
            BrowserCommand::StartRecording { name, start_url } => {
                let _ = self.start_recording(name, start_url);
            },
            BrowserCommand::StopRecording => {
                let _ = self.stop_recording();
            },
            BrowserCommand::PauseRecording => {
                let _ = self.pause_recording();
            },
            BrowserCommand::ResumeRecording => {
                let _ = self.resume_recording();
            },
            BrowserCommand::AddRecordingAssertion { expected_state, description } => {
                let _ = self.add_recording_assertion(expected_state, description);
            },
            BrowserCommand::EnableRecordingSnapshots { interval_ms } => {
                let _ = self.enable_recording_snapshots(interval_ms);
            },
            BrowserCommand::StopPlayback => {
                let _ = self.stop_replay();
            },
            BrowserCommand::PausePlayback => {
                let _ = self.pause_replay();
            },
            BrowserCommand::ResumePlayback => {
                let _ = self.resume_replay();
            },
            BrowserCommand::SeekPlayback { timestamp_ms } => {
                let _ = self.seek_replay(timestamp_ms);
            },
            BrowserCommand::StepForward => {
                let ghost p = self.player_v();
                match self.step_forward_replay() {
                    Ok(Some(event)) => {
                        proof {
                            crate::event::lemma_same_view_same_kind(
                                event,
                                p.recording->0.events@[p.current_index as int].event,
                            );
                        }
                        self.recorder.record_event(event);
                    },
                    _ => {},
                }
            },
            BrowserCommand::StepBackward => {
                let _ = self.step_backward_replay();
            },
            BrowserCommand::SetPlaybackSpeed { speed } => {
                let _ = self.set_replay_speed(speed);
            },
            BrowserCommand::SetPlaybackLoop { enable } => {
                let _ = self.set_replay_loop(enable);
            },
            _ => {},
        }
        Ok(None)
    }

    /// Announces each console message, in order.
    fn publish_console_messages(&mut self, logs: Vec<ConsoleMessage>)
        requires
            old(self).wf(),
        ensures
            final(self).wf(),
            final(self).effects_v() == old(self).effects_v() + messages_view(logs@).map_values(
                |m: MessageView| EffectV::Publish(console_event(m)),
            ),
            final(self).tabs_v() == old(self).tabs_v(),
            final(self).player_v() == old(self).player_v(),
            final(self).console_v() == old(self).console_v(),
            final(self).has_view() == old(self).has_view(),
            final(self).has_bar() == old(self).has_bar(),
            final(self).is_headless() == old(self).is_headless(),
    {
        let ghost e0 = self.effects_v();
        let ghost mv = messages_view(logs@);
        let mut rest = logs;
        let ghost all = rest@;
        let mut k: usize = 0;
        let n = rest.len();
        while k < n
            invariant
                self.wf(),
                n == all.len(),
                mv == messages_view(all),
                mv.len() == n,
                k <= n,
                rest@ == all.skip(k as int),
                self.effects_v() == e0 + mv.take(k as int).map_values(|m: MessageView| EffectV::Publish(console_event(m))),
                self.tabs_v() == old(self).tabs_v(),
                self.player_v() == old(self).player_v(),
                self.console_v() == old(self).console_v(),
                self.has_view() == old(self).has_view(),
                self.has_bar() == old(self).has_bar(),
                self.is_headless() == old(self).is_headless(),
            decreases n - k,
        {
            let log = rest.remove(0);
            proof {
                assert(log@ == mv[k as int]);
                assert(mv.take(k + 1) =~= mv.take(k as int).push(mv[k as int]));
                assert(rest@ =~= all.skip(k + 1));
            }
            let ConsoleMessage { level, message, timestamp, stack_trace, .. } = log;
            self.publish_event(
                BrowserEvent::ConsoleMessage { level: to_string(level.as_str()), message, timestamp, stack_trace },
            );
            proof {
                assert(self.effects_v() =~= e0 + mv.take(k + 1).map_values(|m: MessageView| EffectV::Publish(console_event(m))));
            }
            k = k + 1;
        }
        proof {
            assert(mv.take(n as int) =~= mv);
        }
    }
}

/// A key as the window reports it.
#[derive(Debug)]
pub enum KeyInput {
    /// A key that types text.
    Character(String),
    /// The Tab key.
    Tab,
    /// Any other key.
    Other,
}

/// A window event, as far as the engine cares.
#[derive(Debug)]
pub enum WindowInput {
    Resized { width: u32, height: u32 },
    KeyboardInput { pressed: bool, repeat: bool, key: KeyInput, modifiers: ModifiersState },
    CloseRequested,
    Other,
}

/// The bound key that a window key stands for: T and W by their letter in
/// either case.
pub open spec fn key_code_of(key: KeyInput) -> Option<KeyCode> {
    match key {
        KeyInput::Character(c) => if c@ == "t"@ || c@ == "T"@ {
            Some(KeyCode::KeyT)
        } else if c@ == "w"@ || c@ == "W"@ {
            Some(KeyCode::KeyW)
        } else {
            None
        },
        KeyInput::Tab => None,
        KeyInput::Other => None,
    }
}

/// The command a fresh press of `key` runs with `modifiers` held, if any.
pub open spec fn key_command_of(key: KeyInput, modifiers: ModifiersState) -> Option<KeyCommand> {
    match key_code_of(key) {
        Some(k) => key_binding(k, modifiers),
        None => None,
    }
}

/// The tab after the active one in tab order, the first one after the last.
pub open spec fn next_tab_of(m: TabsView<()>) -> Option<usize> {
    match m.active {
        Some(a) => if m.has(a) {
            let p = m.pos(a);
            Some(m.tabs[if p + 1 < m.tabs.len() { p + 1 } else { 0 }].id)
        } else {
            None
        },
        None => None,
    }
}

/// What resizing the window to `width` by `height` asks for: the tab bar is
/// laid out again and the content view fills the window below it.
pub open spec fn resize_effects(width: u32, height: u32, has_bar: bool, has_view: bool) -> Seq<EffectV> {
    (if has_bar { seq![EffectV::LayoutTabBar(width)] } else { Seq::empty() }) + if has_view {
        seq![
            EffectV::SetContentBounds(
                0,
                TAB_BAR_HEIGHT as i32,
                width,
                if height >= TAB_BAR_HEIGHT { (height - TAB_BAR_HEIGHT) as u32 } else { 0 },
            ),
        ]
    } else {
        Seq::empty()
    }
}

/// The tabs after the page reports a new title or address for the active tab.
pub open spec fn ipc_tabs(m: TabsView<()>, data: JsonV) -> TabsView<()> {
    match (str_member(data, "type"@), m.active) {
        (Some(t), Some(a)) => if t == "titleChanged"@ {
            match str_member(data, "title"@) {
                Some(title) => spec_update_title(m, a, title).1,
                None => m,
            }
        } else if t == "navigation"@ {
            match str_member(data, "url"@) {
                Some(url) => spec_update_url(m, a, url).1,
                None => m,
            }
        } else {
            m
        },
        _ => m,
    }
}

/// The events a page message announces.
pub open spec fn ipc_events(m: TabsView<()>, data: JsonV) -> Seq<EventV> {
    let active = match m.active {
        Some(a) => if m.has(a) { Some(a) } else { None },
        None => None,
    };
    match str_member(data, "type"@) {
        Some(t) => if t == "pageLoaded"@ {
            match str_member(data, "url"@) {
                Some(url) => seq![EventV::PageLoaded { url }],
                None => Seq::empty(),
            }
        } else if t == "titleChanged"@ {
            match str_member(data, "title"@) {
                Some(title) => (match active {
                    Some(a) => seq![EventV::TabTitleChanged { id: a, title }],
                    None => Seq::empty(),
                }) + seq![EventV::TitleChanged { title }],
                None => Seq::empty(),
            }
        } else if t == "navigation"@ {
            match str_member(data, "url"@) {
                Some(url) => (match active {
                    Some(a) => seq![EventV::TabUrlChanged { id: a, url }],
                    None => Seq::empty(),
                }) + seq![EventV::Navigation { url }],
                None => Seq::empty(),
            }
        } else {
            Seq::empty()
        },
        None => Seq::empty(),
    }
}

/// What a page message queues: each of its events, announced in order.
pub open spec fn ipc_effects(m: TabsView<()>, data: JsonV) -> Seq<EffectV> {
    ipc_events(m, data).map_values(|e: EventV| EffectV::Publish(e))
}

/// Reads a window key as a bound key.
fn key_code_for(key: &KeyInput) -> (res: Option<KeyCode>)
    ensures
        res == key_code_of(*key),
{
    match key {
        KeyInput::Character(c) => {
            let c = c.as_str();
            if crate::text::equals(c, "t") || crate::text::equals(c, "T") {
                Some(KeyCode::KeyT)
            } else if crate::text::equals(c, "w") || crate::text::equals(c, "W") {
                Some(KeyCode::KeyW)
            } else {
                None
            }
        },
        KeyInput::Tab => None,
        KeyInput::Other => None,
    }
}

impl BrowserEngine {
    /// The id of the tab after the active one, the first after the last.
    fn next_tab_id(&self) -> (res: Option<usize>)
        requires
            self.wf(),
        ensures
            res == next_tab_of(self.tabs_v()),
            res matches Some(n) ==> self.tabs_v().has(n),
    {
        let active = match self.tabs.get_active_tab() {
            Some(t) => t.id,
            None => {
                return None;
            },
        };
        let ghost m = self.tabs_v();
        let all = self.tabs.get_all_tabs();
        let n = all.len();
        let mut i: usize = 0;
        while i < n
            invariant
                m == self.tabs_v(),
                m.wf(),
                n == all@.len(),
                n == m.tabs.len(),
                forall|k: int| 0 <= k < n ==> (#[trigger] all@[k])@ == m.tabs[k],
                m.active == Some(active),
                i <= n,
                forall|k: int| 0 <= k < i ==> m.tabs[k].id != active,
            decreases n - i,
        {
            if all[i].id == active {
                proof {
                    crate::browser::tabs::lemma_tab_at_is_pos(m, i as int, active);
                }
                let j = if i + 1 < n { i + 1 } else { 0 };
                let id = all[j].id;
                proof {
                    crate::browser::tabs::lemma_tab_at_is_pos(m, j as int, id);
                }
                return Some(id);
            }
            i = i + 1;
        }
        None
    }
}

impl BrowserEngine {
    /// Handles a message from the page: a load, a new title or a new address
    /// of the active tab is recorded and announced; other messages are
    /// ignored.
    pub fn handle_ipc_message(&mut self, data: &Json) -> (res: Result<(), String>)
        requires
            old(self).wf(),
        ensures
            final(self).wf(),
            res is Ok,
            final(self).tabs_v() == ipc_tabs(old(self).tabs_v(), data@),
            final(self).effects_v() == old(self).effects_v() + ipc_effects(old(self).tabs_v(), data@),
            history_added(old(self).history_v(), final(self).history_v(), ipc_events(old(self).tabs_v(), data@)),
            final(self).has_view() == old(self).has_view(),
            final(self).has_bar() == old(self).has_bar(),
            final(self).is_headless() == old(self).is_headless(),
    {
        let ghost e0 = self.effects_v();
        let ghost m0 = self.tabs_v();
        let ghost h0 = self.history_v();
        let ghost mut hist = h0;
        let ghost mut done: Seq<EventV> = Seq::empty();
        proof {
            reveal_strlit("pageLoaded");
            reveal_strlit("titleChanged");
            reveal_strlit("navigation");
            assert("pageLoaded"@.len() == 10 && "titleChanged"@.len() == 12 && "navigation"@.len() == 10);
            assert("pageLoaded"@[0] != "navigation"@[0]);
            crate::browser::event_viewer::lemma_history_unchanged(h0);
        }
        let kind = match data.get("type") {
            Some(Json::Str(k)) => k.as_str(),
            _ => {
                return Ok(());
            },
        };
        let active = match self.tabs.get_active_tab() {
            Some(t) => Some(t.id),
            None => None,
        };
        if crate::text::equals(kind, "pageLoaded") {
            match data.get("url") {
                Some(Json::Str(url)) => {
                    let ev = BrowserEvent::PageLoaded { url: url.clone() };
                    let ghost evv = ev@;
                    self.publish_event(ev);
                    proof {
                        let t = choose|t: u64| self.history_v() == spec_add(hist, (t, evv));
                        crate::browser::event_viewer::lemma_history_step(h0, hist, done, t, evv);
                        hist = self.history_v();
                        done = done.push(evv);
                    }
                },
                _ => {},
            }
        } else if crate::text::equals(kind, "titleChanged") {
            match data.get("title") {
                Some(Json::Str(title)) => {
                    match active {
                        Some(id) => {
                            self.tabs.update_tab_title(id, title.clone());
                            let ev = BrowserEvent::TabTitleChanged { id, title: title.clone() };
                            let ghost evv = ev@;
                            self.publish_event(ev);
                            proof {
                                let t = choose|t: u64| self.history_v() == spec_add(hist, (t, evv));
                                crate::browser::event_viewer::lemma_history_step(h0, hist, done, t, evv);
                                hist = self.history_v();
                                done = done.push(evv);
                            }
                        },
                        None => {},
                    }
                    let ev = BrowserEvent::TitleChanged { title: title.clone() };
                    let ghost evv = ev@;
                    self.publish_event(ev);
                    proof {
                        let t = choose|t: u64| self.history_v() == spec_add(hist, (t, evv));
                        crate::browser::event_viewer::lemma_history_step(h0, hist, done, t, evv);
                        hist = self.history_v();
                        done = done.push(evv);
                    }
                },
                _ => {},
            }
        } else if crate::text::equals(kind, "navigation") {
            match data.get("url") {
                Some(Json::Str(url)) => {
                    match active {
                        Some(id) => {
                            self.tabs.update_tab_url(id, url.clone());
                            let ev = BrowserEvent::TabUrlChanged { id, url: url.clone() };
                            let ghost evv = ev@;
                            self.publish_event(ev);
                            proof {
                                let t = choose|t: u64| self.history_v() == spec_add(hist, (t, evv));
                                crate::browser::event_viewer::lemma_history_step(h0, hist, done, t, evv);
                                hist = self.history_v();
                                done = done.push(evv);
                            }
                        },
                        None => {},
                    }
                    let ev = BrowserEvent::Navigation { url: url.clone() };
                    let ghost evv = ev@;
                    self.publish_event(ev);
                    proof {
                        let t = choose|t: u64| self.history_v() == spec_add(hist, (t, evv));
                        crate::browser::event_viewer::lemma_history_step(h0, hist, done, t, evv);
                        hist = self.history_v();
                        done = done.push(evv);
                    }
                },
                _ => {},
            }
        }
        proof {
            assert(done =~= ipc_events(m0, data@));
            assert(self.effects_v() =~= e0 + ipc_effects(m0, data@));
        }
        Ok(())
    }

    /// Handles a window event: a resize lays the views out again; a fresh key
    /// press runs the command bound to it under the modifiers held (Ctrl+T
    /// opens a tab, Ctrl+W closes the active one, Ctrl+Tab moves to the next
    /// tab); other events change nothing.
    pub fn handle_window_event(&mut self, event: &WindowInput) -> (res: Result<(), String>)
        requires
            old(self).wf(),
            old(self).tabs_v().next_id < usize::MAX,
        ensures
            final(self).wf(),
            match *event {
                WindowInput::Resized { width, height } => res is Ok && final(self).tabs_v() == old(self).tabs_v()
                    && final(self).effects_v() == old(self).effects_v() + resize_effects(
                    width,
                    height,
                    old(self).has_bar(),
                    old(self).has_view(),
                ),
                WindowInput::KeyboardInput { pressed, repeat, key, modifiers } => if !pressed || repeat {
                    res is Ok && final(self).tabs_v() == old(self).tabs_v() && final(self).effects_v()
                        == old(self).effects_v()
                } else if key is Tab {
                    match (modifiers.ctrl, next_tab_of(old(self).tabs_v())) {
                        (true, Some(n)) => res is Ok && final(self).tabs_v() == spec_switch(old(self).tabs_v(), n).1,
                        _ => res is Ok && final(self).tabs_v() == old(self).tabs_v() && final(self).effects_v()
                            == old(self).effects_v(),
                    }
                } else {
                    match key_command_of(key, modifiers) {
                        Some(KeyCommand::NewTab) => res is Ok && final(self).tabs_v() == spec_create(
                            old(self).tabs_v(),
                            "about:blank"@,
                        ),
                        Some(KeyCommand::CloseTab) => match old(self).tabs_v().active {
                            Some(a) => (res is Ok <==> spec_close(old(self).tabs_v(), a).0) && final(self).tabs_v()
                                == spec_close(old(self).tabs_v(), a).1,
                            None => res is Ok && final(self).tabs_v() == old(self).tabs_v(),
                        },
                        Some(KeyCommand::SwitchTab(i)) => if i < old(self).tabs_v().tabs.len() {
                            res is Ok && final(self).tabs_v() == spec_switch(
                                old(self).tabs_v(),
                                old(self).tabs_v().tabs[i as int].id,
                            ).1
                        } else {
                            res is Ok && final(self).tabs_v() == old(self).tabs_v()
                        },
                        Some(KeyCommand::Back) => res is Ok && final(self).tabs_v() == back_of(old(self).tabs_v()).1,
                        Some(KeyCommand::Forward) => res is Ok && final(self).tabs_v() == forward_of(
                            old(self).tabs_v(),
                        ).1,
                        None => res is Ok && final(self).tabs_v() == old(self).tabs_v() && final(self).effects_v()
                            == old(self).effects_v(),
                    }
                },
                _ => res is Ok && final(self).tabs_v() == old(self).tabs_v() && final(self).effects_v()
                    == old(self).effects_v(),
            },
            final(self).has_view() == old(self).has_view(),
            final(self).has_bar() == old(self).has_bar(),
            final(self).is_headless() == old(self).is_headless(),
    {
        match event {
            WindowInput::Resized { width, height } => {
                let ghost e0 = self.effects_v();
                if self.has_tab_bar {
                    self.push_effect(Effect::LayoutTabBar { width: *width });
                }
                if self.has_content_view {
                    let h = if *height >= TAB_BAR_HEIGHT { *height - TAB_BAR_HEIGHT } else { 0 };
                    self.push_effect(Effect::SetContentBounds { x: 0, y: 40, width: *width, height: h });
                }
                proof {
                    assert(self.effects_v() =~= e0 + resize_effects(*width, *height, old(self).has_bar(), old(self).has_view()));
                }
                Ok(())
            },
            WindowInput::KeyboardInput { pressed, repeat, key, modifiers } => {
                if !*pressed || *repeat {
                    return Ok(());
                }
                if let KeyInput::Tab = key {
                    if !modifiers.ctrl {
                        return Ok(());
                    }
                    return match self.next_tab_id() {
                        Some(id) => match self.switch_to_tab(id) {
                            Ok(()) => Ok(()),
                            Err(e) => Err(e.to_string()),
                        },
                        None => Ok(()),
                    };
                }
                let code = match key_code_for(key) {
                    Some(c) => c,
                    None => {
                        return Ok(());
                    },
                };
                match handle_keyboard_input(code, *modifiers) {
                    Some(KeyCommand::NewTab) => {
                        match self.create_tab("about:blank") {
                            Ok(_) => Ok(()),
                            Err(e) => Err(e.to_string()),
                        }
                    },
                    Some(KeyCommand::CloseTab) => {
                        let active = match self.tabs.get_active_tab() {
                            Some(t) => Some(t.id),
                            None => None,
                        };
                        match active {
                            Some(id) => match self.close_tab(id) {
                                Ok(()) => Ok(()),
                                Err(e) => Err(e.to_string()),
                            },
                            None => Ok(()),
                        }
                    },
                    Some(KeyCommand::SwitchTab(index)) => {
                        let all = self.tabs.get_all_tabs();
                        let target = if index < all.len() {
                            Some(all[index].id)
                        } else {
                            None
                        };
                        match target {
                            Some(id) => {
                                proof {
                                    assert(self.tabs_v().tabs[index as int].id == id);
                                    crate::browser::tabs::lemma_tab_at_is_pos(self.tabs_v(), index as int, id);
                                }
                                match self.switch_to_tab(id) {
                                    Ok(()) => Ok(()),
                                    Err(e) => Err(e.to_string()),
                                }
                            },
                            None => Ok(()),
                        }
                    },
                    Some(KeyCommand::Back) => {
                        let _ = self.go_back();
                        Ok(())
                    },
                    Some(KeyCommand::Forward) => {
                        let _ = self.go_forward();
                        Ok(())
                    },
                    None => Ok(()),
                }
            },
            _ => Ok(()),
        }
    }
}

/// What a headless run does next.
#[derive(Debug)]
pub enum HeadlessStep {
    /// A replayed event was carried out, with this outcome.
    Ran(Result<(), String>),
    /// Nothing is due: wait this many milliseconds.
    Wait(u64),
    /// Playback is over (or was never started).
    Finished,
}

impl BrowserEngine {
    /// The start of a headless run: unless tabs were opened already, a tab on
    /// the initial address (or a blank page) is opened and made active, and
    /// the initial address, if any, is navigated to.
    pub fn prepare_headless(&mut self) -> (res: Result<(), WebViewError>)
        requires
            old(self).wf(),
            old(self).tabs_v().next_id < usize::MAX,
        ensures
            final(self).wf(),
            res is Ok,
            ({
                let m1 = if old(self).tabs_v().tabs.len() == 0 {
                    spec_create(
                        old(self).tabs_v(),
                        match old(self).initial_v() {
                            Some(u) => u,
                            None => "about:blank"@,
                        },
                    )
                } else {
                    old(self).tabs_v()
                };
                match old(self).initial_v() {
                    Some(u) => final(self).tabs_v() == navigate_tabs(m1, u) && final(self).effects_v()
                        == old(self).effects_v() + navigate_effects(m1, u, old(self).has_view()),
                    None => final(self).tabs_v() == m1 && final(self).effects_v() == old(self).effects_v(),
                }
            }),
            final(self).player_v() == old(self).player_v(),
            final(self).has_view() == old(self).has_view(),
            final(self).has_bar() == old(self).has_bar(),
            final(self).is_headless() == old(self).is_headless(),
    {
        if self.tabs.get_tab_count() == 0 {
            let url = match &self.initial_url {
                Some(u) => u.clone(),
                None => to_string("about:blank"),
            };
            let id = self.tabs.create_tab(url);
            self.tabs.switch_to_tab(id);
        }
        let initial = match &self.initial_url {
            Some(u) => Some(u.clone()),
            None => None,
        };
        match initial {
            Some(url) => {
                let _ = self.navigate(url.as_str());
            },
            None => {},
        }
        Ok(())
    }

    /// One turn of a headless replay, given whether the next event is due at
    /// `now_ms`: while playing, the due event is carried out (or, with none
    /// due, a wait of one millisecond follows); while paused, a wait of ten
    /// milliseconds; once stopped or completed, the run is over.
    pub fn headless_step(&mut self, due: bool, now_ms: u64) -> (res: HeadlessStep)
        requires
            old(self).wf(),
            old(self).tabs_v().next_id < usize::MAX,
        ensures
            final(self).wf(),
            old(self).player_v().state == PlaybackState::Paused ==> (res matches HeadlessStep::Wait(10)
                && final(self).player_v() == old(self).player_v()),
            old(self).player_v().state == PlaybackState::Stopped || old(self).player_v().state
                == PlaybackState::Completed ==> res is Finished && final(self).player_v() == old(self).player_v(),
            old(self).player_v().state == PlaybackState::Playing ==> (res is Ran || res matches HeadlessStep::Wait(1)),
            res is Ran ==> old(self).player_v().state == PlaybackState::Playing && due,
            (old(self).player_v().state == PlaybackState::Playing && old(self).player_v().start_ms is Some && (old(
                self,
            ).player_v().recording matches Some(r) && old(self).player_v().current_index < r.events@.len())) ==> (
            res is Ran <==> due),
            (old(self).player_v().state == PlaybackState::Playing && !due) ==> final(self).player_v() == old(
                self,
            ).player_v() || old(self).player_v().recording is None || old(self).player_v().start_ms is None || (old(
                self,
            ).player_v().recording matches Some(r) && old(self).player_v().current_index >= r.events@.len()),
            ({
                let p = old(self).player_v();
                (p.state == PlaybackState::Playing && p.start_ms is Some && (p.recording matches Some(r)
                    && p.current_index < r.events@.len()) && due) ==> res is Ran && final(self).player_v() == (
                PlayerView { current_index: (p.current_index + 1) as usize, ..p }) && final(self).tabs_v()
                    == replay_tabs(old(self).tabs_v(), p.recording->0.events@[p.current_index as int].event@)
            }),
            !(res is Ran) ==> final(self).tabs_v() == old(self).tabs_v(),
            final(self).has_view() == old(self).has_view(),
            final(self).has_bar() == old(self).has_bar(),
            final(self).is_headless() == old(self).is_headless(),
    {
        match self.player.get_state() {
            PlaybackState::Playing => {
                let ghost p = self.player_v();
                match self.player.next_event_when(due, now_ms) {
                    Some(event) => {
                        proof {
                            let r = p.recording->0;
                            crate::event::lemma_same_event_same_view(event, r.events@[p.current_index as int].event);
                        }
                        HeadlessStep::Ran(self.execute_event(event))
                    },
                    None => HeadlessStep::Wait(1),
                }
            },
            PlaybackState::Paused => HeadlessStep::Wait(10),
            PlaybackState::Stopped | PlaybackState::Completed => HeadlessStep::Finished,
        }
    }
}

impl BrowserEngine {
    /// The network monitor, for reading its statistics and log.
    pub fn network_monitor(&self) -> (res: &NetworkMonitor)
        ensures
            res@ == self.network_v(),
    {
        &self.network_monitor
    }

    /// The performance monitor, for reading what it collected.
    pub fn performance_monitor(&self) -> (res: &PerformanceMonitor)
        ensures
            res@ == self.perf_v(),
    {
        &self.performance_monitor
    }

    /// Records only the network traffic that `filter` lets through, besides
    /// the filters already set.
    pub fn add_network_filter(&mut self, filter: NetworkFilter)
        requires
            old(self).wf(),
        ensures
            final(self).wf(),
            final(self).network_v() == (MonitorView {
                filters: old(self).network_v().filters.push(filter@),
                ..old(self).network_v()
            }),
            final(self).effects_v() == old(self).effects_v(),
            final(self).tabs_v() == old(self).tabs_v(),
            final(self).has_view() == old(self).has_view(),
            final(self).has_bar() == old(self).has_bar(),
            final(self).is_headless() == old(self).is_headless(),
    {
        self.network_monitor.add_filter(filter);
    }

    /// Keeps the Core Web Vitals the page reported.
    pub fn set_core_web_vitals(&mut self, vitals: CoreWebVitals)
        requires
            old(self).wf(),
        ensures
            final(self).wf(),
            final(self).perf_v() == (PerformanceView { core_web_vitals: vitals, ..old(self).perf_v() }),
            final(self).effects_v() == old(self).effects_v(),
            final(self).tabs_v() == old(self).tabs_v(),
            final(self).has_view() == old(self).has_view(),
            final(self).has_bar() == old(self).has_bar(),
            final(self).is_headless() == old(self).is_headless(),
    {
        self.performance_monitor.update_core_web_vitals(vitals);
    }
}

} // verus!
