//! The set of open tabs, the active tab and the allocation of tab ids.

use vstd::prelude::*;
use crate::address::{
    classify, classify_spec, opt_view, parse_host, tab_title, tab_title_spec, url_host,
};

verus! {

/// One open tab.
#[derive(Clone, Debug)]
pub struct TabData {
    pub id: usize,
    pub title: String,
    pub url: String,
    pub display_url: String,
    pub can_go_back: bool,
    pub can_go_forward: bool,
}

/// What a tab holds, as plain mathematical values.
pub struct TabView {
    pub id: nat,
    pub title: Seq<char>,
    pub url: Seq<char>,
    pub display_url: Seq<char>,
    pub can_go_back: bool,
    pub can_go_forward: bool,
}

impl View for TabData {
    type V = TabView;

    open spec fn view(&self) -> TabView {
        TabView {
            id: self.id as nat,
            title: self.title@,
            url: self.url@,
            display_url: self.display_url@,
            can_go_back: self.can_go_back,
            can_go_forward: self.can_go_forward,
        }
    }
}

/// The tab that opening `raw` creates under the id `id`. Its title is the
/// new-tab title where the target is the new-tab address, else the host of
/// the target, else the address-bar text.
pub open spec fn new_tab(id: nat, raw: Seq<char>) -> TabView {
    let (target, display) = classify_spec(raw);
    TabView {
        id,
        title: tab_title_spec(target, display, url_host(target)),
        url: target,
        display_url: display,
        can_go_back: false,
        can_go_forward: false,
    }
}

/// The registry as a mathematical value: the tabs in the order in which
/// they were opened, the id of the active tab, and the next id to hand out.
pub struct RegistryView {
    pub tabs: Seq<TabView>,
    pub active: Option<nat>,
    pub next_id: nat,
}

impl RegistryView {
    /// The registry before any tab was opened.
    pub open spec fn empty() -> RegistryView {
        RegistryView { tabs: Seq::empty(), active: None, next_id: 0 }
    }

    /// Some tab has the id `id`.
    pub open spec fn holds(self, id: nat) -> bool {
        exists|i: int| 0 <= i < self.tabs.len() && self.tabs[i].id == id
    }

    /// The place of the tab with the id `id`, where there is one.
    pub open spec fn position(self, id: nat) -> int {
        choose|i: int| 0 <= i < self.tabs.len() && self.tabs[i].id == id
    }

    /// Ids grow along the sequence and stay below the next id, and a tab is
    /// active exactly when there is a tab, in which case it is one of them.
    pub open spec fn wf(self) -> bool {
        &&& forall|i: int, j: int|
            0 <= i < j < self.tabs.len() ==> self.tabs[i].id < self.tabs[j].id
        &&& forall|i: int| 0 <= i < self.tabs.len() ==> self.tabs[i].id < self.next_id
        &&& self.active is Some <==> self.tabs.len() > 0
        &&& self.active matches Some(a) ==> self.holds(a)
    }

    /// The active tab, if any.
    pub open spec fn active_tab(self) -> Option<TabView> {
        match self.active {
            Some(a) => if self.holds(a) {
                Some(self.tabs[self.position(a)])
            } else {
                None
            },
            None => None,
        }
    }

    /// The registry after `raw` was opened in a new tab, which becomes the
    /// active one.
    pub open spec fn open(self, raw: Seq<char>) -> RegistryView {
        RegistryView {
            tabs: self.tabs.push(new_tab(self.next_id, raw)),
            active: Some(self.next_id),
            next_id: self.next_id + 1,
        }
    }

    /// The tabs that are left when the one with the id `id` goes.
    pub open spec fn without(self, id: nat) -> Seq<TabView> {
        if self.holds(id) {
            self.tabs.remove(self.position(id))
        } else {
            self.tabs
        }
    }

    /// The registry after the tab `id` was closed. An unknown id changes
    /// nothing. Where the active tab goes, the remaining tab with the lowest
    /// id becomes active.
    pub open spec fn close(self, id: nat) -> RegistryView {
        let rest = self.without(id);
        RegistryView {
            tabs: rest,
            active: if self.active == Some(id) {
                if rest.len() > 0 {
                    Some(rest[0].id)
                } else {
                    None
                }
            } else {
                self.active
            },
            next_id: self.next_id,
        }
    }

    /// The registry after the tab `id` was given a new title, a new address,
    /// or both. An unknown id changes nothing.
    pub open spec fn update(
        self,
        id: nat,
        title: Option<Seq<char>>,
        url: Option<Seq<char>>,
    ) -> RegistryView {
        if self.holds(id) {
            let i = self.position(id);
            let t = self.tabs[i];
            RegistryView {
                tabs: self.tabs.update(
                    i,
                    TabView {
                        title: match title {
                            Some(x) => x,
                            None => t.title,
                        },
                        url: match url {
                            Some(x) => x,
                            None => t.url,
                        },
                        ..t
                    },
                ),
                ..self
            }
        } else {
            self
        }
    }

    /// In a well-formed registry an id is found at one place only.
    pub proof fn position_is(self, id: nat, i: int)
        requires
            self.wf(),
            0 <= i < self.tabs.len(),
            self.tabs[i].id == id,
        ensures
            self.holds(id),
            self.position(id) == i,
    {
        let p = self.position(id);
        if p < i {
            assert(self.tabs[p].id < self.tabs[i].id);
        } else if i < p {
            assert(self.tabs[i].id < self.tabs[p].id);
        }
    }
}

/// One step in the life of a registry.
pub enum TabOp {
    Open(Seq<char>),
    Close(nat),
}

impl RegistryView {
    /// The registry after one step.
    pub open spec fn step(self, op: TabOp) -> RegistryView {
        match op {
            TabOp::Open(raw) => self.open(raw),
            TabOp::Close(id) => self.close(id),
        }
    }

    /// The registry after a sequence of steps, taken in order.
    pub open spec fn run(self, ops: Seq<TabOp>) -> RegistryView
        decreases ops.len(),
    {
        if ops.len() == 0 {
            self
        } else {
            self.run(ops.drop_last()).step(ops.last())
        }
    }

    /// Opening a tab keeps the registry well formed.
    pub proof fn open_keeps_wf(self, raw: Seq<char>)
        requires
            self.wf(),
        ensures
            self.open(raw).wf(),
    {
        let after = self.open(raw);
        let last = self.tabs.len() as int;
        assert(after.tabs[last].id == self.next_id);
    }

    /// Closing a tab keeps the registry well formed.
    pub proof fn close_keeps_wf(self, id: nat)
        requires
            self.wf(),
        ensures
            self.close(id).wf(),
    {
        let after = self.close(id);
        if self.holds(id) {
            let p = self.position(id);
            assert forall|i: int| 0 <= i < after.tabs.len() implies after.tabs[i]
                == self.tabs[if i < p { i } else { i + 1 }] by {}
            if self.active == Some(id) {
                if after.tabs.len() > 0 {
                    assert(after.tabs[0].id == after.active->0);
                }
            } else if self.active is Some {
                let a = self.active->0;
                let q = self.position(a);
                assert(q != p);
                let k = if q < p { q } else { q - 1 };
                assert(after.tabs[k].id == a);
            }
        } else {
            if self.active == Some(id) {
                assert(false);
            }
        }
    }

    /// A closed tab is no longer open, and every other tab stays as it was.
    pub proof fn close_drops(self, id: nat)
        requires
            self.wf(),
        ensures
            !self.close(id).holds(id),
            forall|other: nat| other != id ==> (self.close(id).holds(other) <==> self.holds(other)),
            forall|i: int|
                0 <= i < self.tabs.len() && self.tabs[i].id != id ==> self.close(id).tabs.contains(
                    #[trigger] self.tabs[i],
                ),
    {
        let after = self.close(id);
        if self.holds(id) {
            let p = self.position(id);
            assert forall|i: int| 0 <= i < after.tabs.len() implies after.tabs[i]
                == self.tabs[if i < p { i } else { i + 1 }] by {}
            if after.holds(id) {
                let q = after.position(id);
                let k = if q < p { q } else { q + 1 };
                self.position_is(id, k);
            }
            assert forall|i: int| 0 <= i < self.tabs.len() && self.tabs[i].id != id implies
                after.tabs.contains(#[trigger] self.tabs[i]) by {
                let k = if i < p { i } else { i - 1 };
                assert(after.tabs[k] == self.tabs[i]);
            }
            assert forall|other: nat| other != id implies (after.holds(other) <==> self.holds(
                other,
            )) by {
                if self.holds(other) {
                    let i = self.position(other);
                    let k = if i < p { i } else { i - 1 };
                    assert(after.tabs[k].id == other);
                }
                if after.holds(other) {
                    let q = after.position(other);
                    let k = if q < p { q } else { q + 1 };
                    assert(self.tabs[k].id == other);
                }
            }
        } else {
            assert forall|i: int| 0 <= i < self.tabs.len() && self.tabs[i].id != id implies
                after.tabs.contains(#[trigger] self.tabs[i]) by {
                assert(after.tabs[i] == self.tabs[i]);
            }
        }
    }

    /// Changing a tab's title or address keeps the registry well formed.
    pub proof fn update_keeps_wf(self, id: nat, title: Option<Seq<char>>, url: Option<Seq<char>>)
        requires
            self.wf(),
        ensures
            self.update(id, title, url).wf(),
    {
        let after = self.update(id, title, url);
        if self.holds(id) {
            assert forall|i: int| 0 <= i < after.tabs.len() implies after.tabs[i].id
                == self.tabs[i].id by {}
            if self.active is Some {
                let a = self.active->0;
                let q = self.position(a);
                assert(after.tabs[q].id == a);
            }
        }
    }

    /// Whatever tabs are opened and closed, starting from a well-formed
    /// registry: a tab is active exactly when at least one tab is open, and
    /// the active id is that of an open tab.
    pub proof fn run_keeps_wf(self, ops: Seq<TabOp>)
        requires
            self.wf(),
        ensures
            self.run(ops).wf(),
            self.run(ops).active is Some <==> self.run(ops).tabs.len() > 0,
            self.run(ops).active matches Some(a) ==> self.run(ops).holds(a),
        decreases ops.len(),
    {
        if ops.len() > 0 {
            self.run_keeps_wf(ops.drop_last());
            let before = self.run(ops.drop_last());
            match ops.last() {
                TabOp::Open(raw) => before.open_keeps_wf(raw),
                TabOp::Close(id) => before.close_keeps_wf(id),
            }
        }
    }

    /// Opening a tab and closing it at once leaves the tabs that were open
    /// before, each as it was, and the new id is gone. The id counter does
    /// not go back: the next tab gets the id after the closed one. The oldest
    /// open tab is then the active one.
    pub proof fn open_then_close_keeps_tabs(self, raw: Seq<char>)
        requires
            self.wf(),
        ensures
            self.open(raw).close(self.next_id) == (RegistryView {
                tabs: self.tabs,
                active: if self.tabs.len() > 0 {
                    Some(self.tabs[0].id)
                } else {
                    None
                },
                next_id: self.next_id + 1,
            }),
            !self.open(raw).close(self.next_id).holds(self.next_id),
            self.open(raw).close(self.next_id).wf(),
    {
        let opened = self.open(raw);
        self.open_keeps_wf(raw);
        opened.close_keeps_wf(self.next_id);
        let last = self.tabs.len() as int;
        opened.position_is(self.next_id, last);
        assert(opened.tabs.remove(last) =~= self.tabs);
        if self.tabs.len() > 0 {
            assert(opened.tabs.remove(last)[0] == self.tabs[0]);
        }
    }

    /// Opening a tab and closing it at once restores the active tab exactly
    /// where the tab that was active before is the oldest one that is open,
    /// or none was open.
    pub proof fn open_then_close_restores(self, raw: Seq<char>)
        requires
            self.wf(),
        ensures
            self.open(raw).close(self.next_id).tabs == self.tabs,
            (self.active matches Some(a) ==> a == self.tabs[0].id) <==> self.open(raw).close(
                self.next_id,
            ).active == self.active,
    {
        self.open_then_close_keeps_tabs(raw);
    }
}

/// Owner of the open tabs. The tabs are kept in the order in which they were
/// opened, so that their ids grow along the list.
pub struct TabRegistry {
    tabs: Vec<TabData>,
    active_tab_id: Option<usize>,
    tab_counter: usize,
}

impl View for TabRegistry {
    type V = RegistryView;

    closed spec fn view(&self) -> RegistryView {
        RegistryView {
            tabs: Seq::new(self.tabs@.len(), |i: int| self.tabs@[i]@),
            active: match self.active_tab_id {
                Some(a) => Some(a as nat),
                None => None,
            },
            next_id: self.tab_counter as nat,
        }
    }
}

impl TabData {
    /// A copy of this tab.
    pub fn duplicate(&self) -> (r: TabData)
        ensures
            r == *self,
    {
        TabData {
            id: self.id,
            title: self.title.clone(),
            url: self.url.clone(),
            display_url: self.display_url.clone(),
            can_go_back: self.can_go_back,
            can_go_forward: self.can_go_forward,
        }
    }
}

impl TabRegistry {
    /// The registry's invariant, stated on its view.
    pub open spec fn wf(&self) -> bool {
        self@.wf()
    }

    /// An id beyond the machine word is the id of no open tab, so closing it
    /// changes nothing.
    pub proof fn ids_fit(&self, id: nat)
        requires
            self.wf(),
            id > usize::MAX,
        ensures
            !self@.holds(id),
            self@.close(id) == self@,
    {
        if self@.holds(id) {
            let p = self@.position(id);
            assert(self@.tabs[p].id == self.tabs@[p].id as nat);
        }
        if self@.active == Some(id) {
            assert(self@.holds(id));
        }
    }

    /// A registry without tabs, whose first id will be 0.
    pub fn new() -> (r: TabRegistry)
        ensures
            r.wf(),
            r@ == RegistryView::empty(),
    {
        let r = TabRegistry { tabs: Vec::new(), active_tab_id: None, tab_counter: 0 };
        assert(r@.tabs =~= Seq::empty());
        r
    }

    /// The number of open tabs.
    pub fn len(&self) -> (n: usize)
        ensures
            n == self@.tabs.len(),
    {
        self.tabs.len()
    }

    /// Whether another tab can be opened: whether an id is left to give.
    pub fn can_open(&self) -> (r: bool)
        ensures
            r == (self@.next_id < usize::MAX),
    {
        self.tab_counter < usize::MAX
    }

    /// The place of the tab with the id `id` in the list, if it is open.
    fn find(&self, id: usize) -> (r: Option<usize>)
        ensures
            match r {
                Some(i) => i < self.tabs@.len() && self.tabs@[i as int].id == id,
                None => forall|j: int| 0 <= j < self.tabs@.len() ==> self.tabs@[j].id != id,
            },
    {
        let mut i: usize = 0;
        while i < self.tabs.len()
            invariant
                i <= self.tabs@.len(),
                forall|j: int| 0 <= j < i ==> self.tabs@[j].id != id,
            decreases self.tabs@.len() - i,
        {
            if self.tabs[i].id == id {
                return Some(i);
            }
            i += 1;
        }
        None
    }

    /// Opens `raw` in a new tab, which gets the next id and becomes the
    /// active tab. Returns a copy of the new tab.
    pub fn open(&mut self, raw: &str) -> (tab: TabData)
        requires
            old(self).wf(),
            old(self)@.next_id < usize::MAX,
        ensures
            final(self).wf(),
            final(self)@ == old(self)@.open(raw@),
            tab@ == new_tab(old(self)@.next_id, raw@),
    {
        let tab_id = self.tab_counter;
        self.tab_counter = tab_id + 1;
        let (real_url, display_url) = classify(raw);
        let host = parse_host(real_url.as_str());
        let title = tab_title(real_url.as_str(), display_url.as_str(), host);
        let tab = TabData {
            id: tab_id,
            title,
            url: real_url,
            display_url,
            can_go_back: false,
            can_go_forward: false,
        };
        let copy = tab.duplicate();
        self.tabs.push(tab);
        self.active_tab_id = Some(tab_id);
        proof {
            assert(self@.tabs =~= old(self)@.tabs.push(new_tab(old(self)@.next_id, raw@)));
            old(self)@.open_keeps_wf(raw@);
        }
        copy
    }

    /// Closes the tab `id`. An id that is not open is ignored. Where the
    /// active tab is closed, the open tab with the lowest id becomes active.
    pub fn close(&mut self, id: usize)
        requires
            old(self).wf(),
        ensures
            final(self).wf(),
            final(self)@ == old(self)@.close(id as nat),
    {
        let found = self.find(id);
        match found {
            Some(i) => {
                proof {
                    old(self)@.position_is(id as nat, i as int);
                }
                let _ = self.tabs.remove(i);
                assert(self@.tabs =~= old(self)@.tabs.remove(i as int));
            },
            None => {
                assert(!old(self)@.holds(id as nat));
            },
        }
        let was_active = match self.active_tab_id {
            Some(a) => a == id,
            None => false,
        };
        if was_active {
            if self.tabs.len() > 0 {
                self.active_tab_id = Some(self.tabs[0].id);
            } else {
                self.active_tab_id = None;
            }
        }
        proof {
            old(self)@.close_keeps_wf(id as nat);
        }
    }

    /// The active tab, if there is one.
    pub fn active(&self) -> (r: Option<&TabData>)
        requires
            self.wf(),
        ensures
            match r {
                Some(t) => self@.active_tab() == Some(t@),
                None => self@.active_tab() is None && self@.tabs.len() == 0,
            },
    {
        match self.active_tab_id {
            Some(a) => {
                match self.find(a) {
                    Some(i) => {
                        proof {
                            self@.position_is(a as nat, i as int);
                        }
                        Some(&self.tabs[i])
                    },
                    None => {
                        proof {
                            let p = self@.position(a as nat);
                            assert(self.tabs@[p].id != a);
                        }
                        None
                    },
                }
            },
            None => None,
        }
    }

    /// All open tabs, oldest first.
    pub fn all(&self) -> (r: Vec<&TabData>)
        ensures
            r@.len() == self@.tabs.len(),
            forall|i: int| 0 <= i < r@.len() ==> r@[i]@ == self@.tabs[i],
    {
        let mut out: Vec<&TabData> = Vec::new();
        let mut i: usize = 0;
        while i < self.tabs.len()
            invariant
                i <= self.tabs@.len(),
                out@.len() == i,
                forall|j: int| 0 <= j < i ==> out@[j]@ == self.tabs@[j]@,
            decreases self.tabs@.len() - i,
        {
            out.push(&self.tabs[i]);
            i += 1;
        }
        out
    }

    /// Gives the tab `id` a new title, a new address, or both, as reported by
    /// the page it shows. An id that is not open is ignored.
    pub fn update(&mut self, id: usize, title: Option<String>, url: Option<String>)
        requires
            old(self).wf(),
        ensures
            final(self).wf(),
            final(self)@ == old(self)@.update(id as nat, opt_view(title), opt_view(url)),
    {
        let found = self.find(id);
        match found {
            Some(i) => {
                proof {
                    old(self)@.position_is(id as nat, i as int);
                }
                let current = self.tabs[i].duplicate();
                let changed = TabData {
                    id: current.id,
                    title: match title {
                        Some(x) => x,
                        None => current.title,
                    },
                    url: match url {
                        Some(x) => x,
                        None => current.url,
                    },
                    display_url: current.display_url,
                    can_go_back: current.can_go_back,
                    can_go_forward: current.can_go_forward,
                };
                self.tabs.set(i, changed);
                assert(self@.tabs =~= old(self)@.update(
                    id as nat,
                    opt_view(title),
                    opt_view(url),
                ).tabs);
            },
            None => {
                assert(!old(self)@.holds(id as nat));
            },
        }
        proof {
            old(self)@.update_keeps_wf(id as nat, opt_view(title), opt_view(url));
        }
    }
}

} // verus!
