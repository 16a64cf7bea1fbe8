//! The browser's state: the window's lifecycle, the state of each tab, the
//! active tab and incognito mode.

use vstd::prelude::*;
use crate::browser::error::{BrowserError, BrowserResult, StateError};
use crate::text::{concat, debug_str, decimal, decimal_string, spec_debug_str};

verus! {

/// Lifecycle of a browser window.
#[derive(Debug, PartialEq)]
pub enum WindowState {
    Initializing,
    Ready,
    Loading,
    Error(String),
}

/// Lifecycle of a browser tab.
#[derive(Debug, PartialEq)]
pub enum TabState {
    Loading,
    Ready,
    Error(String),
}

/// A window state with its message taken as characters.
pub enum WindowStateView {
    Initializing,
    Ready,
    Loading,
    Error(Seq<char>),
}

/// A tab state with its message taken as characters.
pub enum TabStateView {
    Loading,
    Ready,
    Error(Seq<char>),
}

impl View for WindowState {
    type V = WindowStateView;

    open spec fn view(&self) -> WindowStateView {
        match self {
            WindowState::Initializing => WindowStateView::Initializing,
            WindowState::Ready => WindowStateView::Ready,
            WindowState::Loading => WindowStateView::Loading,
            WindowState::Error(m) => WindowStateView::Error(m@),
        }
    }
}

impl View for TabState {
    type V = TabStateView;

    open spec fn view(&self) -> TabStateView {
        match self {
            TabState::Loading => TabStateView::Loading,
            TabState::Ready => TabStateView::Ready,
            TabState::Error(m) => TabStateView::Error(m@),
        }
    }
}

impl Clone for WindowState {
    fn clone(&self) -> (res: Self)
        ensures
            res@ == self@,
    {
        match self {
            WindowState::Initializing => WindowState::Initializing,
            WindowState::Ready => WindowState::Ready,
            WindowState::Loading => WindowState::Loading,
            WindowState::Error(m) => WindowState::Error(m.clone()),
        }
    }
}

impl Clone for TabState {
    fn clone(&self) -> (res: Self)
        ensures
            res@ == self@,
    {
        match self {
            TabState::Loading => TabState::Loading,
            TabState::Ready => TabState::Ready,
            TabState::Error(m) => TabState::Error(m.clone()),
        }
    }
}

/// The window lifecycle: initializing, then ready; ready and loading
/// alternate; any state may turn into an error.
pub open spec fn valid_transition(from: WindowStateView, to: WindowStateView) -> bool {
    match (from, to) {
        (_, WindowStateView::Error(_)) => true,
        (WindowStateView::Initializing, WindowStateView::Ready) => true,
        (WindowStateView::Ready, WindowStateView::Loading) => true,
        (WindowStateView::Loading, WindowStateView::Ready) => true,
        _ => false,
    }
}

/// How a window state is printed in error messages (its Debug text).
pub open spec fn window_state_text(s: WindowStateView) -> Seq<char> {
    match s {
        WindowStateView::Initializing => "Initializing"@,
        WindowStateView::Ready => "Ready"@,
        WindowStateView::Loading => "Loading"@,
        WindowStateView::Error(m) => "Error("@ + spec_debug_str(m) + ")"@,
    }
}

/// The text of a window state, as in error messages.
pub fn window_state_debug(s: &WindowState) -> (res: String)
    ensures
        res@ == window_state_text(s@),
{
    match s {
        WindowState::Initializing => String::from_str("Initializing"),
        WindowState::Ready => String::from_str("Ready"),
        WindowState::Loading => String::from_str("Loading"),
        WindowState::Error(m) => {
            let d = debug_str(m.as_str());
            let mut r = String::from_str("Error(");
            r.append(d.as_str());
            r.append(")");
            r
        },
    }
}

/// The overall browser state.
#[derive(Debug)]
pub struct BrowserState {
    pub window_state: WindowState,
    pub active_tab: Option<usize>,
    pub tab_states: Vec<(usize, TabState)>,
    pub is_incognito: bool,
}

/// The browser state with its strings taken as characters.
pub struct BrowserStateView {
    pub window_state: WindowStateView,
    pub active_tab: Option<usize>,
    pub tab_states: Seq<(usize, TabStateView)>,
    pub is_incognito: bool,
}

/// The views of a list of tab states.
pub open spec fn tab_states_view(s: Seq<(usize, TabState)>) -> Seq<(usize, TabStateView)> {
    s.map_values(|p: (usize, TabState)| (p.0, p.1@))
}

impl View for BrowserState {
    type V = BrowserStateView;

    open spec fn view(&self) -> BrowserStateView {
        BrowserStateView {
            window_state: self.window_state@,
            active_tab: self.active_tab,
            tab_states: tab_states_view(self.tab_states@),
            is_incognito: self.is_incognito,
        }
    }
}

impl Clone for BrowserState {
    fn clone(&self) -> (res: Self)
        ensures
            res@ == self@,
    {
        let mut tab_states: Vec<(usize, TabState)> = Vec::new();
        let n = self.tab_states.len();
        let mut i: usize = 0;
        while i < n
            invariant
                n == self.tab_states@.len(),
                i <= n,
                tab_states_view(tab_states@) == tab_states_view(self.tab_states@).take(i as int),
            decreases n - i,
        {
            let ghost before = tab_states@;
            let id = self.tab_states[i].0;
            let st = self.tab_states[i].1.clone();
            tab_states.push((id, st));
            proof {
                assert(tab_states_view(tab_states@) =~= tab_states_view(before).push((id, st@)));
                assert(tab_states_view(tab_states@) =~= tab_states_view(self.tab_states@).take(i + 1));
            }
            i = i + 1;
        }
        proof {
            assert(tab_states_view(self.tab_states@).take(n as int) =~= tab_states_view(self.tab_states@));
        }
        BrowserState {
            window_state: self.window_state.clone(),
            active_tab: self.active_tab,
            tab_states,
            is_incognito: self.is_incognito,
        }
    }
}

impl Default for BrowserState {
    fn default() -> (res: Self)
        ensures
            res@.window_state == WindowStateView::Initializing,
            res@.active_tab is None,
            res@.tab_states.len() == 0,
            !res@.is_incognito,
    {
        let res = BrowserState {
            window_state: WindowState::Initializing,
            active_tab: None,
            tab_states: Vec::new(),
            is_incognito: false,
        };
        assert(tab_states_view(res.tab_states@) =~= Seq::empty());
        res
    }
}

/// Some entry of `s` is for tab `id`.
pub open spec fn has_tab_state(s: Seq<(usize, TabStateView)>, id: usize) -> bool {
    exists|i: int| 0 <= i < s.len() && s[i].0 == id
}

/// The first position of an entry for tab `id` in `s`.
pub open spec fn first_tab_state(s: Seq<(usize, TabStateView)>, id: usize) -> int {
    choose|i: int| 0 <= i < s.len() && s[i].0 == id && forall|j: int| 0 <= j < i ==> s[j].0 != id
}

/// Recording the state of tab `id`: its first entry is replaced, or a new
/// entry goes last.
pub open spec fn set_tab_state_spec(s: Seq<(usize, TabStateView)>, id: usize, st: TabStateView) -> Seq<(usize, TabStateView)> {
    if has_tab_state(s, id) {
        s.update(first_tab_state(s, id), (id, st))
    } else {
        s.push((id, st))
    }
}

/// The message of the error for an unknown tab.
pub open spec fn tab_not_found_text(id: usize) -> Seq<char> {
    "Tab "@ + decimal(id as nat) + " not found"@
}

/// Keeps the browser's state and checks the window lifecycle.
pub struct StateManager {
    state: BrowserState,
}

impl View for StateManager {
    type V = BrowserStateView;

    closed spec fn view(&self) -> BrowserStateView {
        self.state@
    }
}

impl StateManager {
    /// A manager for a window that is initializing, with no tabs.
    pub fn new() -> (m: Self)
        ensures
            m@.window_state == WindowStateView::Initializing,
            m@.active_tab is None,
            m@.tab_states.len() == 0,
            !m@.is_incognito,
    {
        StateManager { state: BrowserState::default() }
    }

    /// A snapshot of the current state.
    pub fn get_state(&self) -> (res: BrowserResult<BrowserState>)
        ensures
            res matches Ok(s) && s@ == self@,
    {
        Ok(self.state.clone())
    }

    /// Moves the window to `new_state` when the lifecycle allows it; otherwise
    /// fails with an invalid transition naming both states.
    pub fn set_window_state(&mut self, new_state: WindowState) -> (res: BrowserResult<()>)
        ensures
            res is Ok <==> valid_transition(old(self)@.window_state, new_state@),
            res is Ok ==> final(self)@ == (BrowserStateView { window_state: new_state@, ..old(self)@ }),
            res is Err ==> final(self)@ == old(self)@,
            res matches Err(e) ==> (e matches BrowserError::State(StateError::InvalidTransition { from, to })
                && from@ == window_state_text(old(self)@.window_state)
                && to@ == window_state_text(new_state@)),
    {
        let valid = match (&self.state.window_state, &new_state) {
            (_, WindowState::Error(_)) => true,
            (WindowState::Initializing, WindowState::Ready) => true,
            (WindowState::Ready, WindowState::Loading) => true,
            (WindowState::Loading, WindowState::Ready) => true,
            _ => false,
        };
        if !valid {
            let from = window_state_debug(&self.state.window_state);
            let to = window_state_debug(&new_state);
            return Err(BrowserError::State(StateError::InvalidTransition { from, to }));
        }
        self.state.window_state = new_state;
        Ok(())
    }

    /// Records the state of tab `tab_id`, adding the tab when it is new.
    pub fn set_tab_state(&mut self, tab_id: usize, new_state: TabState) -> (res: BrowserResult<()>)
        ensures
            res is Ok,
            final(self)@ == (BrowserStateView {
                tab_states: set_tab_state_spec(old(self)@.tab_states, tab_id, new_state@),
                ..old(self)@
            }),
    {
        let ghost sv = new_state@;
        let n = self.state.tab_states.len();
        let mut i: usize = 0;
        while i < n
            invariant
                n == self.state.tab_states@.len(),
                self.state == old(self).state,
                sv == new_state@,
                i <= n,
                forall|j: int| 0 <= j < i ==> self.state.tab_states@[j].0 != tab_id,
            decreases n - i,
        {
            if self.state.tab_states[i].0 == tab_id {
                let ghost s = tab_states_view(old(self).state.tab_states@);
                proof {
                    assert(s[i as int].0 == tab_id);
                    assert(has_tab_state(s, tab_id));
                    let f = first_tab_state(s, tab_id);
                    if f < i {
                        assert(s[f].0 != tab_id);
                    } else if f > i {
                        assert(s[i as int].0 != tab_id);
                    }
                }
                let ghost before = self.state.tab_states@;
                let pair = (tab_id, new_state);
                let ghost pv = pair;
                self.state.tab_states.set(i, pair);
                proof {
                    assert(self.state.tab_states@ == before.update(i as int, pv));
                    assert(pv.1@ == sv);
                    assert forall|j: int| 0 <= j < s.len() implies
                        tab_states_view(self.state.tab_states@)[j] == s.update(i as int, (tab_id, sv))[j] by {
                        if j != i {
                            assert(self.state.tab_states@[j] == before[j]);
                        }
                    }
                    assert(tab_states_view(self.state.tab_states@) =~= s.update(i as int, (tab_id, sv)));
                }
                return Ok(());
            }
            i = i + 1;
        }
        let ghost s = tab_states_view(old(self).state.tab_states@);
        proof {
            assert(!has_tab_state(s, tab_id));
        }
        self.state.tab_states.push((tab_id, new_state));
        proof {
            assert(tab_states_view(self.state.tab_states@) =~= s.push((tab_id, sv)));
        }
        Ok(())
    }

    /// Makes `tab_id` the active tab when its state is known; otherwise fails
    /// with "Tab <id> not found".
    pub fn set_active_tab(&mut self, tab_id: usize) -> (res: BrowserResult<()>)
        ensures
            res is Ok <==> has_tab_state(old(self)@.tab_states, tab_id),
            res is Ok ==> final(self)@ == (BrowserStateView { active_tab: Some(tab_id), ..old(self)@ }),
            res is Err ==> final(self)@ == old(self)@,
            res matches Err(e) ==> (e matches BrowserError::State(StateError::InvalidState(m))
                && m@ == tab_not_found_text(tab_id)),
    {
        let n = self.state.tab_states.len();
        let mut i: usize = 0;
        while i < n
            invariant
                n == self.state.tab_states@.len(),
                self.state == old(self).state,
                i <= n,
                forall|j: int| 0 <= j < i ==> self.state.tab_states@[j].0 != tab_id,
            decreases n - i,
        {
            if self.state.tab_states[i].0 == tab_id {
                proof {
                    let s = tab_states_view(self.state.tab_states@);
                    assert(s[i as int].0 == tab_id);
                }
                self.state.active_tab = Some(tab_id);
                return Ok(());
            }
            i = i + 1;
        }
        proof {
            let s = tab_states_view(self.state.tab_states@);
            assert forall|j: int| 0 <= j < s.len() implies s[j].0 != tab_id by {
                assert(s[j].0 == self.state.tab_states@[j].0);
            }
        }
        let mut msg = String::from_str("Tab ");
        let num = decimal_string(tab_id as u64);
        msg.append(num.as_str());
        msg.append(" not found");
        Err(BrowserError::State(StateError::InvalidState(msg)))
    }

    /// The active tab, if one was set.
    pub fn get_active_tab(&self) -> (res: BrowserResult<Option<usize>>)
        ensures
            res matches Ok(a) && a == self@.active_tab,
    {
        Ok(self.state.active_tab)
    }

    /// Turns incognito mode on or off.
    pub fn set_incognito(&mut self, enabled: bool) -> (res: BrowserResult<()>)
        ensures
            res is Ok,
            final(self)@ == (BrowserStateView { is_incognito: enabled, ..old(self)@ }),
    {
        self.state.is_incognito = enabled;
        Ok(())
    }

    /// Whether incognito mode is on.
    pub fn is_incognito(&self) -> (res: BrowserResult<bool>)
        ensures
            res matches Ok(b) && b == self@.is_incognito,
    {
        Ok(self.state.is_incognito)
    }
}

} // verus!
