use vstd::prelude::*;

verus! {

/// A browser tab: its address, title, the web view that shows it (a handle of
/// type `W` owned by whoever renders pages) and its navigation history.
pub struct Tab<W> {
    pub id: usize,
    pub url: String,
    pub title: String,
    pub webview: Option<W>,
    pub history: Vec<String>,
    pub history_index: usize,
}

/// What a tab holds, with its strings taken as character sequences.
pub struct TabView<W> {
    pub id: usize,
    pub url: Seq<char>,
    pub title: Seq<char>,
    pub webview: Option<W>,
    pub history: Seq<Seq<char>>,
    pub history_index: int,
}

/// The character sequences of a list of strings.
pub open spec fn strings_view(v: Seq<String>) -> Seq<Seq<char>> {
    v.map_values(|s: String| s@)
}

impl<W> View for Tab<W> {
    type V = TabView<W>;

    open spec fn view(&self) -> TabView<W> {
        TabView {
            id: self.id,
            url: self.url@,
            title: self.title@,
            webview: self.webview,
            history: strings_view(self.history@),
            history_index: self.history_index as int,
        }
    }
}

/// The views of a list of tabs.
pub open spec fn tabs_view<W>(s: Seq<Tab<W>>) -> Seq<TabView<W>> {
    s.map_values(|t: Tab<W>| t@)
}

/// What the tab manager holds: its tabs in the order of their ids, the active
/// tab and the id that the next new tab receives.
pub struct TabsView<W> {
    pub tabs: Seq<TabView<W>>,
    pub active: Option<usize>,
    pub next_id: usize,
}

/// A tab's history position lies inside its history.
pub open spec fn tab_valid<W>(t: TabView<W>) -> bool {
    0 <= t.history_index < t.history.len()
}

/// Some tab in `tabs` has the id `id`.
pub open spec fn has_tab<W>(tabs: Seq<TabView<W>>, id: usize) -> bool {
    exists|i: int| 0 <= i < tabs.len() && tabs[i].id == id
}

/// The position of the tab with id `id` in `tabs`.
pub open spec fn tab_pos<W>(tabs: Seq<TabView<W>>, id: usize) -> int {
    choose|i: int| 0 <= i < tabs.len() && tabs[i].id == id
}

/// The tab with id `id`, if there is one.
pub open spec fn lookup<W>(tabs: Seq<TabView<W>>, id: usize) -> Option<TabView<W>> {
    if has_tab(tabs, id) {
        Some(tabs[tab_pos(tabs, id)])
    } else {
        None
    }
}

/// The ids are strictly increasing, so that no id occurs twice.
pub open spec fn ids_increasing<W>(tabs: Seq<TabView<W>>) -> bool {
    forall|i: int, j: int| 0 <= i < j < tabs.len() ==> tabs[i].id < tabs[j].id
}

impl<W> TabsView<W> {
    /// The manager's invariant: ids are unique and ordered, below the next
    /// id; every history position is valid; there is an active tab exactly
    /// when there are tabs, and it is one of them.
    pub open spec fn wf(self) -> bool {
        &&& ids_increasing(self.tabs)
        &&& forall|i: int| 0 <= i < self.tabs.len() ==> self.tabs[i].id < self.next_id
        &&& forall|i: int| 0 <= i < self.tabs.len() ==> tab_valid(#[trigger] self.tabs[i])
        &&& (self.active is Some <==> self.tabs.len() > 0)
        &&& (self.active matches Some(a) ==> has_tab(self.tabs, a))
    }

    pub open spec fn has(self, id: usize) -> bool {
        has_tab(self.tabs, id)
    }

    pub open spec fn pos(self, id: usize) -> int {
        tab_pos(self.tabs, id)
    }

    pub open spec fn tab(self, id: usize) -> TabView<W> {
        self.tabs[self.pos(id)]
    }

    /// The tab with id `id` replaced by `t`.
    pub open spec fn with_tab(self, id: usize, t: TabView<W>) -> TabsView<W> {
        TabsView { tabs: self.tabs.update(self.pos(id), t), ..self }
    }
}

/// A new tab showing `url`: no title, no web view, a history of one entry.
pub open spec fn fresh_tab<W>(id: usize, url: Seq<char>) -> TabView<W> {
    TabView {
        id,
        url,
        title: Seq::empty(),
        webview: None,
        history: seq![url],
        history_index: 0,
    }
}

/// Opening a tab: it gets the next id, goes last and becomes active.
pub open spec fn spec_create<W>(m: TabsView<W>, url: Seq<char>) -> TabsView<W> {
    TabsView {
        tabs: m.tabs.push(fresh_tab(m.next_id, url)),
        active: Some(m.next_id),
        next_id: (m.next_id + 1) as usize,
    }
}

/// Closing a tab: refused for an unknown tab and for the last one; when the
/// active tab closes, the first remaining tab becomes active.
pub open spec fn spec_close<W>(m: TabsView<W>, id: usize) -> (bool, TabsView<W>) {
    if m.tabs.len() <= 1 || !m.has(id) {
        (false, m)
    } else {
        let tabs = m.tabs.remove(m.pos(id));
        let active = if m.active == Some(id) { Some(tabs[0].id) } else { m.active };
        (true, TabsView { tabs, active, next_id: m.next_id })
    }
}

/// Activating a tab that exists.
pub open spec fn spec_switch<W>(m: TabsView<W>, id: usize) -> (bool, TabsView<W>) {
    if m.has(id) {
        (true, TabsView { active: Some(id), ..m })
    } else {
        (false, m)
    }
}

/// A tab after navigating to `url`: forward history is dropped, `url` becomes
/// the newest entry and the current one.
pub open spec fn pushed<W>(t: TabView<W>, url: Seq<char>) -> TabView<W> {
    TabView {
        url,
        history: t.history.take(t.history_index + 1).push(url),
        history_index: t.history_index + 1,
        ..t
    }
}

pub open spec fn spec_push_history<W>(m: TabsView<W>, id: usize, url: Seq<char>) -> (bool, TabsView<W>) {
    if m.has(id) {
        (true, m.with_tab(id, pushed(m.tab(id), url)))
    } else {
        (false, m)
    }
}

/// A tab moved to history entry `k`, which becomes its address.
pub open spec fn moved_to<W>(t: TabView<W>, k: int) -> TabView<W> {
    TabView { url: t.history[k], history_index: k, ..t }
}

/// One step back, when the tab exists and is not at its first entry.
pub open spec fn spec_go_back<W>(m: TabsView<W>, id: usize) -> (Option<Seq<char>>, TabsView<W>) {
    if m.has(id) && m.tab(id).history_index > 0 {
        let k = m.tab(id).history_index - 1;
        (Some(m.tab(id).history[k]), m.with_tab(id, moved_to(m.tab(id), k)))
    } else {
        (None, m)
    }
}

/// One step forward, when the tab exists and is not at its last entry.
pub open spec fn spec_go_forward<W>(m: TabsView<W>, id: usize) -> (Option<Seq<char>>, TabsView<W>) {
    if m.has(id) && m.tab(id).history_index + 1 < m.tab(id).history.len() {
        let k = m.tab(id).history_index + 1;
        (Some(m.tab(id).history[k]), m.with_tab(id, moved_to(m.tab(id), k)))
    } else {
        (None, m)
    }
}

pub open spec fn spec_can_go_back<W>(m: TabsView<W>, id: usize) -> bool {
    m.has(id) && m.tab(id).history_index > 0
}

pub open spec fn spec_can_go_forward<W>(m: TabsView<W>, id: usize) -> bool {
    m.has(id) && m.tab(id).history_index + 1 < m.tab(id).history.len()
}

pub open spec fn spec_update_title<W>(m: TabsView<W>, id: usize, title: Seq<char>) -> (bool, TabsView<W>) {
    if m.has(id) {
        (true, m.with_tab(id, TabView { title, ..m.tab(id) }))
    } else {
        (false, m)
    }
}

pub open spec fn spec_update_url<W>(m: TabsView<W>, id: usize, url: Seq<char>) -> (bool, TabsView<W>) {
    if m.has(id) {
        (true, m.with_tab(id, TabView { url, ..m.tab(id) }))
    } else {
        (false, m)
    }
}

pub open spec fn spec_set_webview<W>(m: TabsView<W>, id: usize, w: W) -> (bool, TabsView<W>) {
    if m.has(id) {
        (true, m.with_tab(id, TabView { webview: Some(w), ..m.tab(id) }))
    } else {
        (false, m)
    }
}

/// The browser's tabs: each has a unique id, its own history, and at most one
/// tab is active. The tabs are kept in the order they were opened, which is
/// the order the tab bar shows and the order that positions (the first tab,
/// the next tab) refer to; ids rise along it, so a tab is found by its id.
pub struct TabManager<W = ()> {
    tabs: Vec<Tab<W>>,
    active_tab: Option<usize>,
    next_id: usize,
}

impl<W> View for TabManager<W> {
    type V = TabsView<W>;

    closed spec fn view(&self) -> TabsView<W> {
        TabsView {
            tabs: tabs_view(self.tabs@),
            active: self.active_tab,
            next_id: self.next_id,
        }
    }
}

/// In a list whose ids increase, the tab found at a position with id `id` is
/// the one that `tab_pos` names.
proof fn lemma_pos_unique<W>(tabs: Seq<TabView<W>>, i: int, id: usize)
    requires
        ids_increasing(tabs),
        0 <= i < tabs.len(),
        tabs[i].id == id,
    ensures
        has_tab(tabs, id),
        tab_pos(tabs, id) == i,
{
    assert(has_tab(tabs, id));
    let p = tab_pos(tabs, id);
    if p < i {
        assert(tabs[p].id < tabs[i].id);
    } else if p > i {
        assert(tabs[i].id < tabs[p].id);
    }
}

/// In a valid manager, the tab found at a position with id `id` is the tab
/// with that id.
pub proof fn lemma_tab_at_is_pos<W>(m: TabsView<W>, i: int, id: usize)
    requires
        ids_increasing(m.tabs),
        0 <= i < m.tabs.len(),
        m.tabs[i].id == id,
    ensures
        m.has(id),
        m.pos(id) == i,
{
    lemma_pos_unique(m.tabs, i, id);
}

impl<W> TabManager<W> {
    pub open spec fn wf(&self) -> bool {
        self@.wf()
    }

    proof fn lemma_view_index(&self, i: int)
        requires
            0 <= i < self.tabs@.len(),
        ensures
            self@.tabs[i] == self.tabs@[i]@,
            self@.tabs.len() == self.tabs@.len(),
            self.tabs@[i].history@.len() == self@.tabs[i].history.len(),
            self.wf() ==> self.tabs@[i].history_index < self.tabs@[i].history@.len(),
            self.wf() ==> self.tabs@[i].id < self.next_id,
    {
        if self.wf() {
            assert(tab_valid(self@.tabs[i]));
        }
    }

    /// An empty manager for tabs whose web views are handles of type `W`.
    pub fn empty() -> (m: Self)
        ensures
            m.wf(),
            m@.tabs.len() == 0,
            m@.active is None,
            m@.next_id == 0,
    {
        let m = TabManager { tabs: Vec::new(), active_tab: None, next_id: 0 };
        assert(m@.tabs =~= Seq::<TabView<W>>::empty());
        m
    }

    /// Position in the tab list of the tab with id `id`, if any.
    fn find(&self, id: usize) -> (res: Option<usize>)
        requires
            self.wf(),
        ensures
            self@.tabs.len() == self.tabs@.len(),
            match res {
                Some(i) => self@.has(id) && i == self@.pos(id) && i < self.tabs@.len(),
                None => !self@.has(id),
            },
    {
        let n = self.tabs.len();
        let mut i: usize = 0;
        while i < n
            invariant
                self.wf(),
                n == self.tabs@.len(),
                self@.tabs.len() == n,
                i <= n,
                forall|j: int| 0 <= j < i ==> self@.tabs[j].id != id,
            decreases n - i,
        {
            proof {
                self.lemma_view_index(i as int);
            }
            if self.tabs[i].id == id {
                proof {
                    lemma_pos_unique(self@.tabs, i as int, id);
                }
                return Some(i);
            }
            i = i + 1;
        }
        None
    }

    /// Puts `t` at position `i` and hands back the tab that was there.
    fn replace_at(&mut self, i: usize, t: Tab<W>) -> (old_tab: Tab<W>)
        requires
            i < old(self).tabs@.len(),
        ensures
            old_tab == old(self).tabs@[i as int],
            final(self).tabs@ == old(self).tabs@.update(i as int, t),
            final(self).active_tab == old(self).active_tab,
            final(self).next_id == old(self).next_id,
            final(self)@ == (TabsView { tabs: old(self)@.tabs.update(i as int, t@), ..old(self)@ }),
    {
        let old_tab = self.tabs.remove(i);
        self.tabs.insert(i, t);
        assert(self.tabs@ =~= old(self).tabs@.update(i as int, t));
        assert(self@.tabs =~= old(self)@.tabs.update(i as int, t@));
        old_tab
    }

    /// Opens a tab on `url`, makes it active and returns its id.
    pub fn create_tab(&mut self, url: String) -> (id: usize)
        requires
            old(self).wf(),
            old(self)@.next_id < usize::MAX,
        ensures
            final(self).wf(),
            id == old(self)@.next_id,
            !old(self)@.has(id),
            final(self)@ == spec_create(old(self)@, url@),
    {
        let ghost u = url@;
        let id = self.next_id;
        self.next_id = self.next_id + 1;
        let mut history: Vec<String> = Vec::new();
        history.push(url.clone());
        let tab = Tab { id, url, title: String::new(), webview: None, history, history_index: 0 };
        assert(strings_view(tab.history@) =~= seq![u]);
        assert(tab@ == fresh_tab::<W>(id, u));
        self.tabs.push(tab);
        self.active_tab = Some(id);
        assert(self@.tabs =~= old(self)@.tabs.push(fresh_tab(id, u)));
        assert(self@.tabs.last().id == id);
        assert(has_tab(self@.tabs, id));
        id
    }

    /// The tab with id `id`, if there is one.
    pub fn get_tab_info(&self, id: usize) -> (res: Option<&Tab<W>>)
        requires
            self.wf(),
        ensures
            match res {
                Some(t) => lookup(self@.tabs, id) == Some(t@),
                None => lookup(self@.tabs, id) is None,
            },
    {
        match self.find(id) {
            Some(i) => {
                proof {
                    self.lemma_view_index(i as int);
                }
                Some(&self.tabs[i])
            },
            None => None,
        }
    }

    /// The tab with id `id`, if there is one.
    pub fn get_tab(&self, id: usize) -> (res: Option<&Tab<W>>)
        requires
            self.wf(),
        ensures
            match res {
                Some(t) => lookup(self@.tabs, id) == Some(t@),
                None => lookup(self@.tabs, id) is None,
            },
    {
        self.get_tab_info(id)
    }

    /// The id that the next tab to be created will get.
    pub fn next_tab_id(&self) -> (n: usize)
        ensures
            n == self@.next_id,
    {
        self.next_id
    }

    /// The number of open tabs.
    pub fn get_tab_count(&self) -> (n: usize)
        ensures
            n == self@.tabs.len(),
    {
        self.tabs.len()
    }

    /// The active tab, if any.
    pub fn get_active_tab(&self) -> (res: Option<&Tab<W>>)
        requires
            self.wf(),
        ensures
            match self@.active {
                Some(a) => res matches Some(t) && t@ == self@.tab(a),
                None => res is None,
            },
    {
        match self.active_tab {
            Some(a) => {
                let r = self.get_tab_info(a);
                r
            },
            None => None,
        }
    }

    /// All tabs, in the order of their ids.
    pub fn get_all_tabs(&self) -> (res: Vec<&Tab<W>>)
        requires
            self.wf(),
        ensures
            res@.len() == self@.tabs.len(),
            forall|i: int| 0 <= i < res@.len() ==> (#[trigger] res@[i])@ == self@.tabs[i],
    {
        let mut res: Vec<&Tab<W>> = Vec::new();
        let n = self.tabs.len();
        let mut i: usize = 0;
        while i < n
            invariant
                n == self.tabs@.len(),
                i <= n,
                res@.len() == i,
                forall|j: int| 0 <= j < i ==> (#[trigger] res@[j])@ == self@.tabs[j],
            decreases n - i,
        {
            proof {
                self.lemma_view_index(i as int);
            }
            res.push(&self.tabs[i]);
            i = i + 1;
        }
        res
    }

    /// A copy of the handle of the web view of tab `id`, if the tab exists
    /// and has one.
    pub fn get_tab_webview(&self, id: usize) -> (res: Option<W>)
        where
            W: Clone,
        requires
            self.wf(),
        ensures
            match res {
                Some(c) => self@.has(id) && (self@.tab(id).webview matches Some(w) && cloned(w, c)),
                None => !self@.has(id) || self@.tab(id).webview is None,
            },
    {
        match self.find(id) {
            Some(i) => {
                proof {
                    self.lemma_view_index(i as int);
                }
                match &self.tabs[i].webview {
                    Some(w) => Some(w.clone()),
                    None => None,
                }
            },
            None => None,
        }
    }

    /// Attaches a web view to tab `id`; false when there is no such tab.
    pub fn set_tab_webview(&mut self, id: usize, webview: W) -> (res: bool)
        requires
            old(self).wf(),
        ensures
            final(self).wf(),
            (res, final(self)@) == spec_set_webview(old(self)@, id, webview),
    {
        match self.find(id) {
            Some(i) => {
                proof {
                    self.lemma_view_index(i as int);
                }
                let t = self.replace_at(i, Tab {
                    id: 0, url: String::new(), title: String::new(), webview: None,
                    history: Vec::new(), history_index: 0,
                });
                let nt = Tab { webview: Some(webview), ..t };
                let _ = self.replace_at(i, nt);
                proof {
                    assert(self@.tabs =~= old(self)@.tabs.update(i as int, nt@));
                    lemma_update_keeps_ids(old(self)@, i as int, nt@);
                }
                true
            },
            None => false,
        }
    }

    /// Closes tab `id`. The last remaining tab is never closed; when the active
    /// tab closes, the first remaining one becomes active.
    pub fn close_tab(&mut self, id: usize) -> (res: bool)
        requires
            old(self).wf(),
        ensures
            final(self).wf(),
            (res, final(self)@) == spec_close(old(self)@, id),
    {
        if self.tabs.len() <= 1 {
            return false;
        }
        match self.find(id) {
            Some(i) => {
                let _removed = self.tabs.remove(i);
                proof {
                    assert(self@.tabs =~= old(self)@.tabs.remove(i as int));
                    lemma_remove_keeps_wf(old(self)@, i as int);
                    self.lemma_view_index(0);
                }
                if self.active_tab == Some(id) {
                    self.active_tab = Some(self.tabs[0].id);
                    proof {
                        assert(self@.tabs[0].id == self.tabs@[0].id);
                        assert(has_tab(self@.tabs, self.tabs@[0].id));
                    }
                } else {
                    proof {
                        let a = old(self)@.active->0;
                        let p = old(self)@.pos(a);
                        if p < i {
                            assert(self@.tabs[p] == old(self)@.tabs[p]);
                        } else {
                            assert(p != i);
                            assert(self@.tabs[p - 1] == old(self)@.tabs[p]);
                        }
                    }
                }
                true
            },
            None => false,
        }
    }

    /// Makes tab `id` active; false when there is no such tab.
    pub fn switch_to_tab(&mut self, id: usize) -> (res: bool)
        requires
            old(self).wf(),
        ensures
            final(self).wf(),
            (res, final(self)@) == spec_switch(old(self)@, id),
    {
        match self.find(id) {
            Some(_) => {
                self.active_tab = Some(id);
                true
            },
            None => false,
        }
    }

    /// Pushes `url` onto the history of tab `id`, discarding any forward
    /// history, and makes it the tab's address.
    pub fn push_history(&mut self, id: usize, url: String) -> (res: bool)
        requires
            old(self).wf(),
        ensures
            final(self).wf(),
            (res, final(self)@) == spec_push_history(old(self)@, id, url@),
    {
        match self.find(id) {
            Some(i) => {
                proof {
                    self.lemma_view_index(i as int);
                }
                let t = self.replace_at(i, Tab {
                    id: 0, url: String::new(), title: String::new(), webview: None,
                    history: Vec::new(), history_index: 0,
                });
                let ghost tv = t@;
                let mut history = t.history;
                let hl = history.len();
                let keep = t.history_index + 1;
                history.truncate(keep);
                history.push(url.clone());
                let idx = history.len() - 1;
                let nt = Tab { url, history, history_index: idx, ..t };
                proof {
                    assert(strings_view(nt.history@) =~= tv.history.take(tv.history_index + 1).push(nt.url@));
                    assert(nt@ == pushed(tv, nt.url@));
                }
                let _ = self.replace_at(i, nt);
                proof {
                    assert(self@.tabs =~= old(self)@.tabs.update(i as int, nt@));
                    lemma_update_keeps_ids(old(self)@, i as int, nt@);
                }
                true
            },
            None => false,
        }
    }

    /// Moves tab `id` to history entry `k` and returns that entry.
    fn move_to(&mut self, i: usize, k: usize) -> (url: String)
        requires
            old(self).wf(),
            i < old(self).tabs@.len(),
            k < old(self).tabs@[i as int].history@.len(),
        ensures
            final(self).wf(),
            url@ == old(self)@.tabs[i as int].history[k as int],
            final(self)@ == (TabsView {
                tabs: old(self)@.tabs.update(i as int, moved_to(old(self)@.tabs[i as int], k as int)),
                ..old(self)@
            }),
    {
        proof {
            self.lemma_view_index(i as int);
        }
        let t = self.replace_at(i, Tab {
            id: 0, url: String::new(), title: String::new(), webview: None,
            history: Vec::new(), history_index: 0,
        });
        let ghost tv = t@;
        let url = t.history[k].clone();
        let nt = Tab { url: url.clone(), history_index: k, ..t };
        proof {
            assert(nt@ == moved_to(tv, k as int));
        }
        let _ = self.replace_at(i, nt);
        proof {
            assert(self@.tabs =~= old(self)@.tabs.update(i as int, nt@));
            lemma_update_keeps_ids(old(self)@, i as int, nt@);
        }
        url
    }

    /// Moves tab `id` one step back in its history; returns the address moved
    /// to, or None when the tab is unknown or already at its first entry.
    pub fn go_back(&mut self, id: usize) -> (res: Option<String>)
        requires
            old(self).wf(),
        ensures
            final(self).wf(),
            (match res { Some(u) => Some(u@), None => None }, final(self)@) == spec_go_back(old(self)@, id),
    {
        match self.find(id) {
            Some(i) => {
                proof {
                    self.lemma_view_index(i as int);
                }
                if self.tabs[i].history_index > 0 {
                    let k = self.tabs[i].history_index - 1;
                    let url = self.move_to(i, k);
                    Some(url)
                } else {
                    None
                }
            },
            None => None,
        }
    }

    /// Moves tab `id` one step forward in its history; returns the address
    /// moved to, or None when the tab is unknown or at its last entry.
    pub fn go_forward(&mut self, id: usize) -> (res: Option<String>)
        requires
            old(self).wf(),
        ensures
            final(self).wf(),
            (match res { Some(u) => Some(u@), None => None }, final(self)@) == spec_go_forward(old(self)@, id),
    {
        match self.find(id) {
            Some(i) => {
                proof {
                    self.lemma_view_index(i as int);
                }
                let hl = self.tabs[i].history.len();
                if self.tabs[i].history_index + 1 < hl {
                    let k = self.tabs[i].history_index + 1;
                    let url = self.move_to(i, k);
                    Some(url)
                } else {
                    None
                }
            },
            None => None,
        }
    }

    /// Whether tab `id` exists and can go back.
    pub fn can_go_back(&self, id: usize) -> (res: bool)
        requires
            self.wf(),
        ensures
            res == spec_can_go_back(self@, id),
    {
        match self.find(id) {
            Some(i) => {
                proof {
                    self.lemma_view_index(i as int);
                }
                self.tabs[i].history_index > 0
            },
            None => false,
        }
    }

    /// Whether tab `id` exists and can go forward.
    pub fn can_go_forward(&self, id: usize) -> (res: bool)
        requires
            self.wf(),
        ensures
            res == spec_can_go_forward(self@, id),
    {
        match self.find(id) {
            Some(i) => {
                proof {
                    self.lemma_view_index(i as int);
                }
                let hl = self.tabs[i].history.len();
                self.tabs[i].history_index + 1 < hl
            },
            None => false,
        }
    }

    /// Sets the title of tab `id`; false when there is no such tab.
    pub fn update_tab_title(&mut self, id: usize, title: String) -> (res: bool)
        requires
            old(self).wf(),
        ensures
            final(self).wf(),
            (res, final(self)@) == spec_update_title(old(self)@, id, title@),
    {
        match self.find(id) {
            Some(i) => {
                proof {
                    self.lemma_view_index(i as int);
                }
                let t = self.replace_at(i, Tab {
                    id: 0, url: String::new(), title: String::new(), webview: None,
                    history: Vec::new(), history_index: 0,
                });
                let nt = Tab { title, ..t };
                let _ = self.replace_at(i, nt);
                proof {
                    assert(self@.tabs =~= old(self)@.tabs.update(i as int, nt@));
                    lemma_update_keeps_ids(old(self)@, i as int, nt@);
                }
                true
            },
            None => false,
        }
    }

    /// Sets the address of tab `id` without touching its history; false when
    /// there is no such tab.
    pub fn update_tab_url(&mut self, id: usize, url: String) -> (res: bool)
        requires
            old(self).wf(),
        ensures
            final(self).wf(),
            (res, final(self)@) == spec_update_url(old(self)@, id, url@),
    {
        match self.find(id) {
            Some(i) => {
                proof {
                    self.lemma_view_index(i as int);
                }
                let t = self.replace_at(i, Tab {
                    id: 0, url: String::new(), title: String::new(), webview: None,
                    history: Vec::new(), history_index: 0,
                });
                let nt = Tab { url, ..t };
                let _ = self.replace_at(i, nt);
                proof {
                    assert(self@.tabs =~= old(self)@.tabs.update(i as int, nt@));
                    lemma_update_keeps_ids(old(self)@, i as int, nt@);
                }
                true
            },
            None => false,
        }
    }

    /// Mutable access to tab `id`, if there is one. The manager then holds the
    /// tab as the caller leaves it; its invariant survives when the caller keeps
    /// the tab's id and a valid history position.
    pub fn get_tab_mut(&mut self, id: usize) -> (res: Option<&mut Tab<W>>)
        requires
            old(self).wf(),
        ensures
            old(self)@.has(id) <==> res is Some,
            res is None ==> final(self)@ == old(self)@,
            res matches Some(t) ==> (*t)@ == old(self)@.tab(id)
                && final(self)@ == old(self)@.with_tab(id, (*final(t))@),
    {
        match self.find(id) {
            Some(i) => {
                proof {
                    self.lemma_view_index(i as int);
                }
                proof {
                    lemma_view_update_all::<W>();
                    lemma_pos_unique(old(self)@.tabs, i as int, id);
                }
                let t = &mut self.tabs[i];
                Some(t)
            },
            None => None,
        }
    }

    /// Mutable access to the active tab, if any; see `get_tab_mut`.
    pub fn get_active_tab_mut(&mut self) -> (res: Option<&mut Tab<W>>)
        requires
            old(self).wf(),
        ensures
            old(self)@.active is Some <==> res is Some,
            res is None ==> final(self)@ == old(self)@,
            res matches Some(t) ==> (*t)@ == old(self)@.tab(old(self)@.active->0)
                && final(self)@ == old(self)@.with_tab(old(self)@.active->0, (*final(t))@),
    {
        match self.active_tab {
            Some(a) => self.get_tab_mut(a),
            None => None,
        }
    }

    /// Whether `id` is the active tab.
    pub fn is_active_tab(&self, id: usize) -> (res: bool)
        ensures
            res == (self@.active == Some(id)),
    {
        match self.active_tab {
            Some(a) => a == id,
            None => false,
        }
    }
}

impl TabManager {
    /// An empty manager: no tabs, none active, ids start at zero.
    pub fn new() -> (m: Self)
        ensures
            m.wf(),
            m@.tabs.len() == 0,
            m@.active is None,
            m@.next_id == 0,
    {
        TabManager::empty()
    }
}

impl<W> Default for TabManager<W> {
    fn default() -> (m: Self)
        ensures
            m.wf(),
            m@.tabs.len() == 0,
            m@.active is None,
            m@.next_id == 0,
    {
        TabManager::empty()
    }
}

/// Updating one tab of a list and then taking views is taking views and then
/// updating that one view.
proof fn lemma_view_update_all<W>()
    ensures
        forall|s: Seq<Tab<W>>, i: int, t: Tab<W>| 0 <= i < s.len() ==>
            #[trigger] tabs_view(s.update(i, t)) == tabs_view(s).update(i, t@),
{
    assert forall|s: Seq<Tab<W>>, i: int, t: Tab<W>| 0 <= i < s.len() implies
        #[trigger] tabs_view(s.update(i, t)) == tabs_view(s).update(i, t@) by {
        assert(tabs_view(s.update(i, t)) =~= tabs_view(s).update(i, t@));
    }
}

/// Replacing a tab by one with the same id and a valid history position keeps
/// the manager's invariant.
proof fn lemma_update_keeps_ids<W>(m: TabsView<W>, i: int, t: TabView<W>)
    requires
        m.wf(),
        0 <= i < m.tabs.len(),
        t.id == m.tabs[i].id,
        tab_valid(t),
    ensures
        (TabsView { tabs: m.tabs.update(i, t), ..m }).wf(),
        m.pos(t.id) == i,
        m.has(t.id),
{
    let n = TabsView { tabs: m.tabs.update(i, t), ..m };
    lemma_pos_unique(m.tabs, i, t.id);
    assert forall|a: usize| has_tab(m.tabs, a) implies has_tab(n.tabs, a) by {
        let p = tab_pos(m.tabs, a);
        assert(n.tabs[p].id == a);
    }
}

/// Removing a tab from a manager with at least two keeps ids ordered, below
/// the next id and with valid history positions.
proof fn lemma_remove_keeps_wf<W>(m: TabsView<W>, i: int)
    requires
        m.wf(),
        0 <= i < m.tabs.len(),
        m.tabs.len() > 1,
    ensures
        ids_increasing(m.tabs.remove(i)),
        forall|j: int| 0 <= j < m.tabs.remove(i).len() ==> m.tabs.remove(i)[j].id < m.next_id,
        forall|j: int| 0 <= j < m.tabs.remove(i).len() ==> tab_valid(#[trigger] m.tabs.remove(i)[j]),
{
    let r = m.tabs.remove(i);
    assert forall|j: int| 0 <= j < r.len() implies tab_valid(#[trigger] r[j]) by {
        if j < i {
            assert(r[j] == m.tabs[j]);
        } else {
            assert(r[j] == m.tabs[j + 1]);
        }
    }
    assert forall|a: int, b: int| 0 <= a < b < r.len() implies r[a].id < r[b].id by {
        let a2 = if a < i { a } else { a + 1 };
        let b2 = if b < i { b } else { b + 1 };
        assert(r[a] == m.tabs[a2]);
        assert(r[b] == m.tabs[b2]);
    }
    assert forall|j: int| 0 <= j < r.len() implies r[j].id < m.next_id by {
        let j2 = if j < i { j } else { j + 1 };
        assert(r[j] == m.tabs[j2]);
    }
}

} // verus!

verus! {

/// Navigating and then going back returns to the address the tab was at
/// before, as recorded in its history.
pub proof fn law_push_then_back<W>(m: TabsView<W>, id: usize, url: Seq<char>)
    requires
        m.wf(),
        m.has(id),
    ensures
        spec_go_back(spec_push_history(m, id, url).1, id).0
            == Some(m.tab(id).history[m.tab(id).history_index]),
        spec_go_back(spec_push_history(m, id, url).1, id).1.tab(id).history_index
            == m.tab(id).history_index,
{
    let p = m.pos(id);
    let t = m.tab(id);
    let m2 = spec_push_history(m, id, url).1;
    assert(m2.tabs[p].id == id);
    lemma_update_keeps_ids(m, p, pushed(t, url));
    lemma_pos_unique(m2.tabs, p, id);
    assert(m2.tab(id) == pushed(t, url));
    assert(pushed(t, url).history[t.history_index] == t.history[t.history_index]);
    let m3 = spec_go_back(m2, id).1;
    assert(m3.tabs[p].id == id);
    lemma_update_keeps_ids(m2, p, moved_to(m2.tab(id), t.history_index));
    lemma_pos_unique(m3.tabs, p, id);
}

/// After navigating, a tab has no forward history and can go back.
pub proof fn law_push_clears_forward<W>(m: TabsView<W>, id: usize, url: Seq<char>)
    requires
        m.wf(),
        m.has(id),
    ensures
        !spec_can_go_forward(spec_push_history(m, id, url).1, id),
        spec_can_go_back(spec_push_history(m, id, url).1, id),
        spec_push_history(m, id, url).1.tab(id).url == url,
{
    let p = m.pos(id);
    let t = m.tab(id);
    let m2 = spec_push_history(m, id, url).1;
    lemma_update_keeps_ids(m, p, pushed(t, url));
    assert(m2.tabs[p].id == id);
    lemma_pos_unique(m2.tabs, p, id);
}

/// Going back and then forward restores the tab manager exactly, when the
/// tab was showing its current history entry.
pub proof fn law_back_then_forward<W>(m: TabsView<W>, id: usize)
    requires
        m.wf(),
        spec_can_go_back(m, id),
        m.tab(id).url == m.tab(id).history[m.tab(id).history_index],
    ensures
        spec_go_forward(spec_go_back(m, id).1, id).1 == m,
        spec_go_forward(spec_go_back(m, id).1, id).0 == Some(m.tab(id).url),
{
    let p = m.pos(id);
    let t = m.tab(id);
    let k = t.history_index - 1;
    let m2 = spec_go_back(m, id).1;
    lemma_update_keeps_ids(m, p, moved_to(t, k));
    assert(m2.tabs[p].id == id);
    lemma_pos_unique(m2.tabs, p, id);
    let m3 = spec_go_forward(m2, id).1;
    assert(moved_to(moved_to(t, k), k + 1) == t);
    assert(m3.tabs =~= m.tabs);
}

/// Going back and then forward also restores a tab that was moved forward
/// first: the two steps undo each other in both orders.
pub proof fn law_forward_then_back<W>(m: TabsView<W>, id: usize)
    requires
        m.wf(),
        spec_can_go_forward(m, id),
        m.tab(id).url == m.tab(id).history[m.tab(id).history_index],
    ensures
        spec_go_back(spec_go_forward(m, id).1, id).1 == m,
        spec_go_back(spec_go_forward(m, id).1, id).0 == Some(m.tab(id).url),
{
    let p = m.pos(id);
    let t = m.tab(id);
    let k = t.history_index + 1;
    let m2 = spec_go_forward(m, id).1;
    lemma_update_keeps_ids(m, p, moved_to(t, k));
    assert(m2.tabs[p].id == id);
    lemma_pos_unique(m2.tabs, p, id);
    let m3 = spec_go_back(m2, id).1;
    assert(moved_to(moved_to(t, k), k - 1) == t);
    assert(m3.tabs =~= m.tabs);
}

/// A manager that has tabs keeps at least one whatever is closed, and its
/// active tab is always one of its tabs.
pub proof fn law_close_keeps_a_tab<W>(m: TabsView<W>, id: usize)
    requires
        m.wf(),
        m.tabs.len() > 0,
    ensures
        spec_close(m, id).1.tabs.len() > 0,
        spec_close(m, id).1.active matches Some(a) && has_tab(spec_close(m, id).1.tabs, a),
{
    if m.tabs.len() > 1 && m.has(id) {
        let r = m.tabs.remove(m.pos(id));
        assert(has_tab(r, r[0].id));
        if m.active != Some(id) {
            let a = m.active->0;
            let p = m.pos(a);
            let i = m.pos(id);
            if p < i {
                assert(r[p] == m.tabs[p]);
            } else {
                assert(r[p - 1] == m.tabs[p]);
            }
        }
    }
}

/// Tabs opened one after the other get strictly increasing ids, so an id is
/// never handed out twice.
pub proof fn law_create_ids_increase<W>(m: TabsView<W>, u1: Seq<char>, u2: Seq<char>)
    requires
        m.wf(),
        m.next_id + 1 < usize::MAX,
    ensures
        spec_create(m, u1).next_id == m.next_id + 1,
        spec_create(spec_create(m, u1), u2).tabs.last().id > spec_create(m, u1).tabs.last().id,
        !m.has(spec_create(m, u1).tabs.last().id),
{
}

} // verus!
