//! Sessions: the open tabs, saved so that they can be opened again later.

use vstd::prelude::*;
use crate::browser::tabs::{has_tab, ids_increasing, tab_pos, TabManager, TabView, TabsView};

verus! {

/// A saved tab.
#[derive(Debug)]
pub struct SavedTab {
    pub url: String,
    pub title: String,
}

/// The saved tabs in order, and the position of the tab that was active.
#[derive(Debug)]
pub struct Session {
    pub tabs: Vec<SavedTab>,
    pub active_index: usize,
}

/// A session with its strings taken as characters: (address, title) pairs.
pub struct SessionView {
    pub tabs: Seq<(Seq<char>, Seq<char>)>,
    pub active_index: usize,
}

impl View for SavedTab {
    type V = (Seq<char>, Seq<char>);

    open spec fn view(&self) -> (Seq<char>, Seq<char>) {
        (self.url@, self.title@)
    }
}

/// The views of a list of saved tabs.
pub open spec fn saved_tabs_view(s: Seq<SavedTab>) -> Seq<(Seq<char>, Seq<char>)> {
    s.map_values(|t: SavedTab| t@)
}

impl View for Session {
    type V = SessionView;

    open spec fn view(&self) -> SessionView {
        SessionView { tabs: saved_tabs_view(self.tabs@), active_index: self.active_index }
    }
}

impl Default for Session {
    fn default() -> (s: Self)
        ensures
            s@.tabs.len() == 0,
            s@.active_index == 0,
    {
        let s = Session { tabs: Vec::new(), active_index: 0 };
        assert(saved_tabs_view(s.tabs@) =~= Seq::empty());
        s
    }
}

/// The session of a tab manager: its tabs' addresses and titles in order, and
/// the position of the active tab (zero when there is none).
pub open spec fn spec_session<W>(m: TabsView<W>) -> SessionView {
    SessionView {
        tabs: m.tabs.map_values(|t: TabView<W>| (t.url, t.title)),
        active_index: match m.active {
            Some(a) => if m.has(a) { m.pos(a) as usize } else { 0 },
            None => 0,
        },
    }
}

/// The tab opened again for saved tab `i` of a session, when ids start at
/// `first_id`.
pub open spec fn restored_tab<W>(s: SessionView, first_id: usize, i: int) -> TabView<W> {
    TabView {
        id: (first_id + i) as usize,
        url: s.tabs[i].0,
        title: s.tabs[i].1,
        webview: None,
        history: seq![s.tabs[i].0],
        history_index: 0,
    }
}

/// Opening the tabs of a session after those of `m`: one new tab per saved
/// tab, with its title, and the saved active tab active (the last opened tab
/// when the saved position lies outside the session). An empty session
/// changes nothing.
pub open spec fn spec_restore<W>(m: TabsView<W>, s: SessionView) -> TabsView<W> {
    let n = s.tabs.len();
    if n == 0 {
        m
    } else {
        TabsView {
            tabs: m.tabs + Seq::new(n, |i: int| restored_tab::<W>(s, m.next_id, i)),
            active: Some(
                if s.active_index < n {
                    (m.next_id + s.active_index) as usize
                } else {
                    (m.next_id + n - 1) as usize
                },
            ),
            next_id: (m.next_id + n) as usize,
        }
    }
}

/// The session of the tabs of `tabs`.
pub fn session_from_tabs<W>(tabs: &TabManager<W>) -> (s: Session)
    requires
        tabs.wf(),
    ensures
        s@ == spec_session(tabs@),
{
    let all = tabs.get_all_tabs();
    let active = tabs.get_active_tab();
    let ghost m = tabs@;
    let mut saved: Vec<SavedTab> = Vec::new();
    let mut active_index: usize = 0;
    let mut found = false;
    let n = all.len();
    let mut i: usize = 0;
    while i < n
        invariant
            tabs.wf(),
            m == tabs@,
            n == all@.len(),
            n == m.tabs.len(),
            forall|j: int| 0 <= j < n ==> (#[trigger] all@[j])@ == m.tabs[j],
            i <= n,
            saved_tabs_view(saved@) == m.tabs.map_values(|t: TabView<W>| (t.url, t.title)).take(i as int),
            match m.active {
                Some(a) => if found {
                    active_index as int == m.pos(a) && m.pos(a) < i
                } else {
                    active_index == 0 && forall|j: int| 0 <= j < i ==> m.tabs[j].id != a
                },
                None => active_index == 0 && !found,
            },
            match active {
                Some(t) => m.active matches Some(a) && t@ == m.tab(a) && t.id == a,
                None => m.active is None,
            },
        decreases n - i,
    {
        let t = all[i];
        let ghost before = saved@;
        saved.push(SavedTab { url: t.url.clone(), title: t.title.clone() });
        proof {
            assert(saved_tabs_view(saved@) =~= saved_tabs_view(before).push((m.tabs[i as int].url, m.tabs[i as int].title)));
            assert(saved_tabs_view(saved@) =~= m.tabs.map_values(|t: TabView<W>| (t.url, t.title)).take(i + 1));
        }
        match active {
            Some(a) => {
                if !found && t.id == a.id {
                    proof {
                        lemma_tab_pos_at(m, i as int, a.id);
                    }
                    active_index = i;
                    found = true;
                }
            },
            None => {},
        }
        i = i + 1;
    }
    proof {
        assert(m.tabs.map_values(|t: TabView<W>| (t.url, t.title)).take(n as int) =~= m.tabs.map_values(|t: TabView<W>| (t.url, t.title)));
        if let Some(a) = m.active {
            if !found {
                assert(m.has(a));
                let p = m.pos(a);
                assert(m.tabs[p].id == a);
            }
        }
    }
    Session { tabs: saved, active_index }
}

/// In a well-formed manager the tab at position `i` is the one its id names.
pub proof fn lemma_tab_pos_at<W>(m: TabsView<W>, i: int, id: usize)
    requires
        m.wf(),
        0 <= i < m.tabs.len(),
        m.tabs[i].id == id,
    ensures
        m.has(id),
        m.pos(id) == i,
{
    assert(m.has(id));
    let p = m.pos(id);
    if p < i {
        assert(m.tabs[p].id < m.tabs[i].id);
    } else if p > i {
        assert(m.tabs[i].id < m.tabs[p].id);
    }
}

/// Opens the tabs of `session` in `tabs`, sets their titles and activates the
/// saved active tab; returns the ids of the new tabs in order.
pub fn restore_session<W>(tabs: &mut TabManager<W>, session: &Session) -> (ids: Vec<usize>)
    requires
        old(tabs).wf(),
        old(tabs)@.next_id + session@.tabs.len() < usize::MAX,
    ensures
        final(tabs).wf(),
        final(tabs)@ == spec_restore(old(tabs)@, session@),
        ids@.len() == session@.tabs.len(),
        forall|i: int| 0 <= i < ids@.len() ==> ids@[i] == old(tabs)@.next_id + i,
{
    let ghost m0 = tabs@;
    let ghost s = session@;
    let n = session.tabs.len();
    let mut ids: Vec<usize> = Vec::new();
    let mut last_id: Option<usize> = None;
    let mut i: usize = 0;
    while i < n
        invariant
            tabs.wf(),
            s == session@,
            n == s.tabs.len(),
            m0.next_id + n < usize::MAX,
            i <= n,
            tabs@.next_id == m0.next_id + i,
            tabs@.tabs == m0.tabs + Seq::new(i as nat, |j: int| restored_tab::<W>(s, m0.next_id, j)),
            i > 0 ==> tabs@.active == Some((m0.next_id + i - 1) as usize),
            i == 0 ==> tabs@ == m0,
            ids@.len() == i,
            forall|j: int| 0 <= j < i ==> ids@[j] == m0.next_id + j,
            match last_id {
                Some(x) => s.active_index < i && x == m0.next_id + s.active_index,
                None => s.active_index >= i,
            },
        decreases n - i,
    {
        let ghost before = tabs@;
        let saved = &session.tabs[i];
        proof {
            assert(s.tabs[i as int] == saved@);
        }
        let id = tabs.create_tab(saved.url.clone());
        let ghost mid = tabs@;
        let _ = tabs.update_tab_title(id, saved.title.clone());
        proof {
            let k = before.tabs.len() as int;
            assert(mid.tabs[k].id == id);
            lemma_tab_pos_at(mid, k, id);
            assert(tabs@.tabs =~= m0.tabs + Seq::new((i + 1) as nat, |j: int| restored_tab::<W>(s, m0.next_id, j)));
        }
        ids.push(id);
        if i == session.active_index {
            last_id = Some(id);
        }
        i = i + 1;
    }
    if let Some(id) = last_id {
        proof {
            let k = m0.tabs.len() + s.active_index;
            assert(tabs@.tabs[k].id == id);
            lemma_tab_pos_at(tabs@, k, id);
        }
        let _ = tabs.switch_to_tab(id);
    }
    proof {
        if n == 0 {
            assert(tabs@ == m0);
        } else {
            assert(tabs@.tabs =~= spec_restore(m0, s).tabs);
        }
    }
    ids
}

/// Ids increase from zero, so position `k` holds an id of at least `k`, and a
/// manager holds no more tabs than its next id.
proof fn lemma_tabs_len_bounded<W>(m: TabsView<W>, k: int)
    requires
        m.wf(),
        0 <= k <= m.tabs.len(),
    ensures
        k < m.tabs.len() ==> m.tabs[k].id >= k,
        k <= m.next_id,
    decreases k,
{
    if k > 0 {
        lemma_tabs_len_bounded(m, k - 1);
        assert(m.tabs[k - 1].id >= k - 1);
        assert(m.tabs[k - 1].id < m.next_id);
        if k < m.tabs.len() {
            assert(m.tabs[k - 1].id < m.tabs[k].id);
        }
    }
}

/// Saving the tabs of a manager and opening the session in a manager without
/// tabs gives back the same addresses and titles in the same order, with the
/// tab at the same position active.
pub proof fn law_session_roundtrip<W>(m: TabsView<W>, e: TabsView<W>)
    requires
        m.wf(),
        e.wf(),
        e.tabs.len() == 0,
        m.tabs.len() > 0,
        e.next_id + m.tabs.len() < usize::MAX,
    ensures
        spec_restore(e, spec_session(m)).tabs.len() == m.tabs.len(),
        forall|i: int| 0 <= i < m.tabs.len() ==> (#[trigger] spec_restore(e, spec_session(m)).tabs[i]).url == m.tabs[i].url
            && spec_restore(e, spec_session(m)).tabs[i].title == m.tabs[i].title,
        spec_restore(e, spec_session(m)).active matches Some(a)
            && spec_restore(e, spec_session(m)).pos(a) == m.pos(m.active->0),
{
    let s = spec_session(m);
    let r = spec_restore(e, s);
    lemma_tabs_len_bounded(m, m.tabs.len() as int);
    let a = m.active->0;
    assert(m.has(a));
    let p = m.pos(a);
    assert(r.tabs =~= Seq::new(m.tabs.len(), |i: int| restored_tab::<W>(s, e.next_id, i)));
    assert(s.active_index == p);
    let id = (e.next_id + p) as usize;
    assert(r.tabs[p].id == id);
    assert forall|i: int, j: int| 0 <= i < j < r.tabs.len() implies r.tabs[i].id < r.tabs[j].id by {}
    assert(ids_increasing(r.tabs));
    assert(has_tab(r.tabs, id));
    let q = tab_pos(r.tabs, id);
    assert(r.tabs[q].id == id);
}

} // verus!
