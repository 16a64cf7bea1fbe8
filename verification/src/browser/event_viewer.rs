//! The event viewer: the latest browser events, each with the time it was seen.

use std::collections::VecDeque;
use vstd::prelude::*;
use crate::clock::unix_time_millis;
use crate::event::{BrowserEvent, EventV};

verus! {

/// How many events the viewer keeps.
pub const MAX_EVENTS: usize = 1000;

/// An event and the time it was added, in milliseconds since the Unix epoch.
#[derive(Debug)]
pub struct EventEntry {
    pub timestamp_ms: u64,
    pub event: BrowserEvent,
}

impl View for EventEntry {
    type V = (u64, EventV);

    open spec fn view(&self) -> (u64, EventV) {
        (self.timestamp_ms, self.event@)
    }
}

/// The views of a list of entries.
pub open spec fn entries_view(s: Seq<EventEntry>) -> Seq<(u64, EventV)> {
    s.map_values(|e: EventEntry| e@)
}

/// The entries kept after adding `entry`: the oldest one goes first when the
/// viewer is full.
pub open spec fn spec_add(entries: Seq<(u64, EventV)>, entry: (u64, EventV)) -> Seq<(u64, EventV)> {
    if entries.len() >= MAX_EVENTS {
        entries.drop_first().push(entry)
    } else {
        entries.push(entry)
    }
}

/// `n` is the history `h` after `events` were added in order, each with the
/// time it was seen.
pub open spec fn history_added(h: Seq<(u64, EventV)>, n: Seq<(u64, EventV)>, events: Seq<EventV>) -> bool
    decreases events.len(),
{
    if events.len() == 0 {
        n == h
    } else {
        exists|mid: Seq<(u64, EventV)>, t: u64|
            #[trigger] spec_add(mid, (t, events.last())) == n && history_added(h, mid, events.drop_last())
    }
}

/// A history with nothing added is the history itself.
pub proof fn lemma_history_unchanged(h: Seq<(u64, EventV)>)
    ensures
        history_added(h, h, Seq::empty()),
{
}

/// Adding one more event, at time `t`, extends a history of added events.
pub proof fn lemma_history_step(
    h: Seq<(u64, EventV)>,
    mid: Seq<(u64, EventV)>,
    events: Seq<EventV>,
    t: u64,
    e: EventV,
)
    requires
        history_added(h, mid, events),
    ensures
        history_added(h, spec_add(mid, (t, e)), events.push(e)),
{
    assert(events.push(e).drop_last() =~= events);
    assert(events.push(e).last() == e);
}

/// The viewer keeps the newest events: after an addition it holds at most
/// `MAX_EVENTS` entries, the new one last, and they are the latest entries of
/// what it held followed by the new one.
pub proof fn law_viewer_keeps_the_newest(entries: Seq<(u64, EventV)>, entry: (u64, EventV))
    requires
        entries.len() <= MAX_EVENTS,
    ensures
        ({
            let r = spec_add(entries, entry);
            let all = entries.push(entry);
            &&& r.len() == if entries.len() < MAX_EVENTS { entries.len() + 1 } else { MAX_EVENTS as nat }
            &&& r.last() == entry
            &&& r == all.subrange(all.len() - r.len(), all.len() as int)
        }),
{
    let r = spec_add(entries, entry);
    let all = entries.push(entry);
    assert(r =~= all.subrange(all.len() - r.len(), all.len() as int));
}

/// The latest `count` entries, newest first.
pub open spec fn spec_recent(entries: Seq<(u64, EventV)>, count: nat) -> Seq<(u64, EventV)> {
    let n = if count < entries.len() { count as int } else { entries.len() as int };
    Seq::new(n as nat, |i: int| entries[entries.len() - 1 - i])
}

/// The browser's recent events, oldest first, at most `MAX_EVENTS` of them.
pub struct EventViewer {
    events: VecDeque<EventEntry>,
    max_events: usize,
}

impl View for EventViewer {
    type V = Seq<(u64, EventV)>;

    closed spec fn view(&self) -> Seq<(u64, EventV)> {
        entries_view(self.events@)
    }
}

impl EventViewer {
    /// The viewer keeps at most `MAX_EVENTS` entries.
    pub closed spec fn wf(&self) -> bool {
        self.events@.len() <= MAX_EVENTS
    }

    /// An empty viewer.
    pub fn new() -> (res: Self)
        ensures
            res.wf(),
            res@ == Seq::<(u64, EventV)>::empty(),
    {
        let res = EventViewer { events: VecDeque::with_capacity(MAX_EVENTS), max_events: MAX_EVENTS };
        proof {
            assert(res@ =~= Seq::<(u64, EventV)>::empty());
        }
        res
    }

    /// Adds `event`, seen at `now_ms`, dropping the oldest entry when full.
    pub fn add_event_at(&mut self, event: BrowserEvent, now_ms: u64)
        requires
            old(self).wf(),
        ensures
            final(self).wf(),
            final(self)@ == spec_add(old(self)@, (now_ms, event@)),
    {
        let ghost ev = event@;
        let entry = EventEntry { timestamp_ms: now_ms, event };
        if self.events.len() >= MAX_EVENTS {
            self.events.pop_front();
        }
        self.events.push_back(entry);
        proof {
            let o = old(self).events@;
            if o.len() >= MAX_EVENTS {
                assert(entries_view(o.subrange(1, o.len() as int)) =~= entries_view(o).drop_first());
            }
            assert(final(self)@ =~= spec_add(old(self)@, (now_ms, ev)));
        }
    }

    /// Adds `event`, seen now; what the clock reads is not stated.
    pub fn add_event(&mut self, event: BrowserEvent)
        requires
            old(self).wf(),
        ensures
            final(self).wf(),
            exists|t: u64| final(self)@ == spec_add(old(self)@, (t, event@)),
    {
        let now = unix_time_millis();
        self.add_event_at(event, now);
    }

    /// The entries, oldest first.
    pub fn get_events(&self) -> (res: &VecDeque<EventEntry>)
        ensures
            entries_view(res@) == self@,
    {
        &self.events
    }

    /// Forgets every entry.
    pub fn clear(&mut self)
        ensures
            final(self).wf(),
            final(self)@ == Seq::<(u64, EventV)>::empty(),
    {
        self.events.clear();
        proof {
            assert(final(self)@ =~= Seq::<(u64, EventV)>::empty());
        }
    }

    /// The latest `count` entries, newest first.
    pub fn get_recent_events(&self, count: usize) -> (res: Vec<&EventEntry>)
        ensures
            res@.map_values(|e: &EventEntry| e@) == spec_recent(self@, count as nat),
    {
        let mut res: Vec<&EventEntry> = Vec::new();
        let n = self.events.len();
        let mut i: usize = 0;
        while i < count && i < n
            invariant
                n == self.events@.len(),
                i <= n,
                i <= count,
                res@.len() == i,
                forall|k: int| 0 <= k < i ==> (#[trigger] res@[k])@ == self.events@[n - 1 - k]@,
            decreases n - i,
        {
            res.push(&self.events[n - 1 - i]);
            i = i + 1;
        }
        proof {
            let r = spec_recent(self@, count as nat);
            assert(r.len() == i);
            assert forall|k: int| 0 <= k < i implies res@.map_values(|e: &EventEntry| e@)[k] == r[k] by {
                assert(self@[n - 1 - k] == self.events@[n - 1 - k]@);
            }
            assert(res@.map_values(|e: &EventEntry| e@) =~= r);
        }
        res
    }
}

impl Default for EventViewer {
    fn default() -> (res: Self)
        ensures
            res.wf(),
            res@ == Seq::<(u64, EventV)>::empty(),
    {
        EventViewer::new()
    }
}

} // verus!
