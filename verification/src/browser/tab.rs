//! A page tab as a state machine: it keeps its address, title, loading
//! progress, content and history, and answers each message with the loading
//! work to start next.

use vstd::prelude::*;
use crate::json::Real32;
use crate::text::{concat, to_string};

verus! {

/// The identifier of a tab.
#[derive(Debug, Clone, Copy, PartialEq, Eq, Structural)]
pub struct TabId(pub u64);

impl TabId {
    /// The next identifier from `counter`, which moves on by one.
    pub fn new(counter: &mut u64) -> (res: TabId)
        requires
            *old(counter) < u64::MAX,
        ensures
            res == TabId(*old(counter)),
            *final(counter) == *old(counter) + 1,
    {
        let id = TabId(*counter);
        *counter = *counter + 1;
        id
    }
}

/// Something that can be loaded.
#[derive(Debug, Clone)]
pub enum Resource {
    Url(String),
    File(String),
    Data(Vec<u8>),
}

/// Loaded content.
#[derive(Debug, Clone)]
pub enum Content {
    Text(String),
    Html(String),
    Binary(Vec<u8>),
}

/// A message for a tab.
#[derive(Debug)]
pub enum TabMessage {
    Load(Resource),
    Loaded(String),
    LoadError(String),
    Progress(Real32),
    Title(String),
    Back,
    Forward,
    Reload,
}

/// The loading work a tab asks for after a message.
#[derive(Debug)]
pub enum TabAction {
    /// Nothing to do.
    Nothing,
    /// Load this address; it comes back as `TabMessage::Load`.
    LoadUrl(String),
    /// Fetch the content; it comes back as `TabMessage::Loaded`.
    FetchContent,
}

/// The bits of the progress 0.0.
pub const PROGRESS_NONE_BITS: u32 = 0;

/// The bits of the progress 1.0.
pub const PROGRESS_DONE_BITS: u32 = 0x3F80_0000;

/// What a tab holds, its strings taken as characters; content is the text it
/// shows once loaded.
pub struct TabState {
    pub id: TabId,
    pub url: Seq<char>,
    pub title: Seq<char>,
    pub progress: Real32,
    pub content: Option<Seq<char>>,
    pub history: Seq<Seq<char>>,
    pub history_pos: int,
}

/// A browser tab.
#[derive(Debug)]
pub struct Tab {
    id: TabId,
    url: String,
    title: String,
    progress: Real32,
    content: Option<Content>,
    history: Vec<String>,
    history_pos: usize,
}

/// The text that content shows.
pub open spec fn content_text(c: Content) -> Seq<char> {
    match c {
        Content::Text(t) => t@,
        Content::Html(h) => h@,
        Content::Binary(_) => "Binary content"@,
    }
}

impl View for Tab {
    type V = TabState;

    closed spec fn view(&self) -> TabState {
        TabState {
            id: self.id,
            url: self.url@,
            title: self.title@,
            progress: self.progress,
            content: match self.content {
                Some(c) => Some(content_text(c)),
                None => None,
            },
            history: self.history@.map_values(|s: String| s@),
            history_pos: self.history_pos as int,
        }
    }
}

/// The history position lies inside the history, and the address is the
/// entry there.
pub open spec fn tab_wf(t: TabState) -> bool {
    &&& 0 <= t.history_pos < t.history.len()
    &&& t.url == t.history[t.history_pos]
}

/// The tab after a `Back` message: the previous entry is navigated to, when
/// there is one.
pub open spec fn went_back(t: TabState) -> TabState {
    if t.history_pos > 0 {
        navigated(TabState { history_pos: t.history_pos - 1, ..t }, t.history[t.history_pos - 1])
    } else {
        t
    }
}

/// The tab after navigating to `url`: progress starts over, history after the
/// current entry is dropped and `url` is added as the current entry.
pub open spec fn navigated(t: TabState, url: Seq<char>) -> TabState {
    TabState {
        url,
        progress: Real32 { bits: PROGRESS_NONE_BITS },
        history: t.history.take(t.history_pos + 1).push(url),
        history_pos: t.history_pos + 1,
        ..t
    }
}

/// Navigating and then going back returns to the address the tab was on.
pub proof fn law_navigate_then_back(t: TabState, url: Seq<char>)
    requires
        tab_wf(t),
    ensures
        tab_wf(navigated(t, url)),
        went_back(navigated(t, url)).url == t.url,
        tab_wf(went_back(navigated(t, url))),
{
    let n = navigated(t, url);
    assert(n.history[n.history_pos - 1] == t.history[t.history_pos]);
}

impl Tab {
    pub closed spec fn wf(&self) -> bool {
        tab_wf(self@)
    }

    /// A new tab `id` on `url`, titled "New Tab", which asks to load `url`.
    pub fn new(url: String, id: TabId) -> (res: (Tab, TabAction))
        ensures
            res.0.wf(),
            res.0@ == (TabState {
                id,
                url: url@,
                title: "New Tab"@,
                progress: Real32 { bits: PROGRESS_NONE_BITS },
                content: None,
                history: seq![url@],
                history_pos: 0,
            }),
            res.1 matches TabAction::LoadUrl(u) && u@ == url@,
    {
        let first = url.clone();
        let load = url.clone();
        let tab = Tab {
            id,
            url,
            title: to_string("New Tab"),
            progress: Real32 { bits: PROGRESS_NONE_BITS },
            content: None,
            history: vec![first],
            history_pos: 0,
        };
        proof {
            assert(tab@.history =~= seq![tab@.url]);
        }
        (tab, TabAction::LoadUrl(load))
    }

    /// The tab's identifier.
    pub fn id(&self) -> (res: TabId)
        ensures
            res == self@.id,
    {
        self.id
    }

    /// The tab's title.
    pub fn title(&self) -> (res: &str)
        ensures
            res@ == self@.title,
    {
        self.title.as_str()
    }

    /// The tab's address.
    pub fn url(&self) -> (res: &str)
        ensures
            res@ == self@.url,
    {
        self.url.as_str()
    }

    /// Navigates to `url` and asks to load it.
    pub fn navigate(&mut self, url: String) -> (res: TabAction)
        requires
            old(self).wf(),
        ensures
            final(self).wf(),
            final(self)@ == navigated(old(self)@, url@),
            res matches TabAction::LoadUrl(u) && u@ == url@,
    {
        self.navigate_from(url)
    }

    /// Navigates from the current history position, which lies inside the
    /// history.
    fn navigate_from(&mut self, url: String) -> (res: TabAction)
        requires
            0 <= old(self)@.history_pos < old(self)@.history.len(),
        ensures
            final(self).wf(),
            final(self)@ == navigated(old(self)@, url@),
            res matches TabAction::LoadUrl(u) && u@ == url@,
    {
        let ghost before = self@;
        let n = self.history.len();
        assert(self.history_pos < n);
        let load = url.clone();
        self.url = url.clone();
        self.progress = Real32 { bits: PROGRESS_NONE_BITS };
        self.history.truncate(self.history_pos + 1);
        self.history.push(url);
        self.history_pos = self.history.len() - 1;
        proof {
            assert(self@.history =~= before.history.take(before.history_pos + 1).push(url@));
        }
        TabAction::LoadUrl(load)
    }

    /// Handles a message: a load starts over and asks for the content; loaded
    /// content (or a failure, shown as `Error: ` and the message) completes
    /// the progress; progress and title are taken as given; back and forward
    /// navigate to the neighbouring history entry, when there is one; reload
    /// navigates to the current address.
    pub fn update(&mut self, message: TabMessage) -> (res: TabAction)
        requires
            old(self).wf(),
        ensures
            final(self).wf(),
            match message {
                TabMessage::Load(_) => final(self)@ == (TabState { progress: Real32 { bits: PROGRESS_NONE_BITS }, ..old(self)@ })
                    && res is FetchContent,
                TabMessage::Loaded(c) => final(self)@ == (TabState {
                    progress: Real32 { bits: PROGRESS_DONE_BITS },
                    content: Some(c@),
                    ..old(self)@
                }) && res is Nothing,
                TabMessage::LoadError(e) => final(self)@ == (TabState {
                    progress: Real32 { bits: PROGRESS_DONE_BITS },
                    content: Some("Error: "@ + e@),
                    ..old(self)@
                }) && res is Nothing,
                TabMessage::Progress(p) => final(self)@ == (TabState { progress: p, ..old(self)@ }) && res is Nothing,
                TabMessage::Title(t) => final(self)@ == (TabState { title: t@, ..old(self)@ }) && res is Nothing,
                TabMessage::Back => final(self)@ == went_back(old(self)@) && if old(self)@.history_pos > 0 {
                    res matches TabAction::LoadUrl(l) && l@ == old(self)@.history[old(self)@.history_pos - 1]
                } else {
                    res is Nothing
                },
                TabMessage::Forward => if old(self)@.history_pos + 1 < old(self)@.history.len() {
                    let k = old(self)@.history_pos + 1;
                    let u = old(self)@.history[k];
                    final(self)@ == navigated(TabState { history_pos: k, ..old(self)@ }, u) && (res matches TabAction::LoadUrl(l) && l@ == u)
                } else {
                    final(self)@ == old(self)@ && res is Nothing
                },
                TabMessage::Reload => final(self)@ == navigated(old(self)@, old(self)@.url) && (res matches TabAction::LoadUrl(l)
                    && l@ == old(self)@.url),
            },
    {
        match message {
            TabMessage::Load(_) => {
                self.progress = Real32 { bits: PROGRESS_NONE_BITS };
                TabAction::FetchContent
            },
            TabMessage::Loaded(content) => {
                self.progress = Real32 { bits: PROGRESS_DONE_BITS };
                self.content = Some(Content::Text(content));
                TabAction::Nothing
            },
            TabMessage::LoadError(error) => {
                self.progress = Real32 { bits: PROGRESS_DONE_BITS };
                self.content = Some(Content::Text(concat("Error: ", error.as_str())));
                TabAction::Nothing
            },
            TabMessage::Progress(progress) => {
                self.progress = progress;
                TabAction::Nothing
            },
            TabMessage::Title(title) => {
                self.title = title;
                TabAction::Nothing
            },
            TabMessage::Back => {
                if self.history_pos > 0 {
                    self.history_pos = self.history_pos - 1;
                    let url = self.history[self.history_pos].clone();
                    self.navigate_from(url)
                } else {
                    TabAction::Nothing
                }
            },
            TabMessage::Forward => {
                if self.history_pos < self.history.len() - 1 {
                    self.history_pos = self.history_pos + 1;
                    let url = self.history[self.history_pos].clone();
                    self.navigate_from(url)
                } else {
                    TabAction::Nothing
                }
            },
            TabMessage::Reload => {
                let url = self.url.clone();
                self.navigate(url)
            },
        }
    }

    /// The text the tab shows: its content, or "Loading..." until loaded.
    pub fn view_text(&self) -> (res: String)
        ensures
            res@ == match self@.content {
                Some(t) => t,
                None => "Loading..."@,
            },
    {
        match &self.content {
            Some(Content::Text(text)) => text.clone(),
            Some(Content::Html(html)) => html.clone(),
            Some(Content::Binary(_)) => to_string("Binary content"),
            None => to_string("Loading..."),
        }
    }
}

} // verus!
