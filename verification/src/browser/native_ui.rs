//! The native tab bar: the tabs it shows and which one is active.

use vstd::prelude::*;
use crate::text::to_string;

verus! {

/// A tab of the native tab bar.
#[derive(Debug)]
pub struct NativeTab {
    pub id: usize,
    pub title: String,
    pub active: bool,
}

/// A tab as a plain value: its id, its title and whether it is active.
pub type NativeTabV = (usize, Seq<char>, bool);

impl View for NativeTab {
    type V = NativeTabV;

    open spec fn view(&self) -> NativeTabV {
        (self.id, self.title@, self.active)
    }
}

/// The tabs in order, each taken as a plain value.
pub open spec fn tabs_view(tabs: Seq<NativeTab>) -> Seq<NativeTabV> {
    tabs.map_values(|t: NativeTab| t@)
}

/// `k` is the index of the first tab with id `id` among `tabs`.
pub open spec fn first_with_id(tabs: Seq<NativeTabV>, id: usize, k: int) -> bool {
    &&& 0 <= k < tabs.len()
    &&& tabs[k].0 == id
    &&& forall|m: int| 0 <= m < k ==> tabs[m].0 != id
}

/// No tab among `tabs` has id `id`.
pub open spec fn no_tab_with_id(tabs: Seq<NativeTabV>, id: usize) -> bool {
    forall|m: int| 0 <= m < tabs.len() ==> tabs[m].0 != id
}

/// Adding a tab whose id is new and then removing that id gives back the
/// tabs as they were.
pub proof fn law_add_then_remove_restores(tabs: Seq<NativeTabV>, id: usize, title: Seq<char>)
    requires
        no_tab_with_id(tabs, id),
    ensures
        first_with_id(tabs.push((id, title, false)), id, tabs.len() as int),
        tabs.push((id, title, false)).remove(tabs.len() as int) == tabs,
{
    assert(tabs.push((id, title, false)).remove(tabs.len() as int) =~= tabs);
}

/// The tab bar drawn above the page.
pub struct NativeTabBar {
    tabs: Vec<NativeTab>,
    height: u32,
}

impl View for NativeTabBar {
    type V = Seq<NativeTabV>;

    closed spec fn view(&self) -> Seq<NativeTabV> {
        tabs_view(self.tabs@)
    }
}

impl NativeTabBar {
    /// The height of the bar in pixels.
    pub closed spec fn spec_height(&self) -> u32 {
        self.height
    }

    /// An empty bar, 30 pixels high.
    pub fn new() -> (res: Self)
        ensures
            res@ == Seq::<NativeTabV>::empty(),
            res.spec_height() == 30,
    {
        let res = NativeTabBar { tabs: Vec::new(), height: 30 };
        proof {
            assert(res@ =~= Seq::<NativeTabV>::empty());
        }
        res
    }

    /// Adds an inactive tab at the end.
    pub fn add_tab(&mut self, id: usize, title: &str)
        ensures
            final(self)@ == old(self)@.push((id, title@, false)),
            final(self).spec_height() == old(self).spec_height(),
    {
        let tab = NativeTab { id, title: to_string(title), active: false };
        self.tabs.push(tab);
        proof {
            assert(final(self)@ =~= old(self)@.push((id, title@, false)));
        }
    }

    /// Removes the first tab with id `id`, if there is one.
    pub fn remove_tab(&mut self, id: usize)
        ensures
            forall|k: int| first_with_id(old(self)@, id, k) ==> final(self)@ == old(self)@.remove(k),
            no_tab_with_id(old(self)@, id) ==> final(self)@ == old(self)@,
            final(self).spec_height() == old(self).spec_height(),
    {
        let mut i: usize = 0;
        while i < self.tabs.len()
            invariant
                i <= self.tabs.len(),
                self@ == old(self)@,
                self.height == old(self).height,
                forall|m: int| 0 <= m < i ==> self@[m].0 != id,
            decreases self.tabs.len() - i,
        {
            if self.tabs[i].id == id {
                let ghost before = self@;
                self.tabs.remove(i);
                proof {
                    assert(self@ =~= before.remove(i as int));
                    assert(first_with_id(before, id, i as int));
                    assert forall|k: int| first_with_id(before, id, k) implies k == i by {
                        if k < i {
                        } else if k > i {
                            assert(before[i as int].0 == id);
                        }
                    }
                }
                return;
            }
            i = i + 1;
        }
    }

    /// Marks the tab with id `id` active and every other tab inactive.
    pub fn set_active_tab(&mut self, id: usize)
        ensures
            final(self)@.len() == old(self)@.len(),
            forall|k: int| 0 <= k < old(self)@.len() ==> #[trigger] final(self)@[k] == (
                old(self)@[k].0,
                old(self)@[k].1,
                old(self)@[k].0 == id,
            ),
            final(self).spec_height() == old(self).spec_height(),
    {
        let mut i: usize = 0;
        while i < self.tabs.len()
            invariant
                i <= self.tabs.len(),
                self@.len() == old(self)@.len(),
                self.height == old(self).height,
                forall|k: int| 0 <= k < i ==> #[trigger] self@[k] == (old(self)@[k].0, old(self)@[k].1, old(self)@[k].0 == id),
                forall|k: int| i <= k < self@.len() ==> #[trigger] self@[k] == old(self)@[k],
            decreases self.tabs.len() - i,
        {
            let ghost before = self@;
            let active = self.tabs[i].id == id;
            self.tabs[i].active = active;
            proof {
                assert(self.tabs@[i as int]@ == (before[i as int].0, before[i as int].1, active));
                assert(self@[i as int] == self.tabs@[i as int]@);
                assert forall|k: int| 0 <= k < self@.len() && k != i implies #[trigger] self@[k] == before[k] by {
                    assert(self@[k] == self.tabs@[k]@);
                }
            }
            i = i + 1;
        }
    }

    /// The height of the bar in pixels.
    pub fn get_height(&self) -> (res: u32)
        ensures
            res == self.spec_height(),
    {
        self.height
    }
}

} // verus!
