//! The one object that the window and the page-request handler reach into:
//! tabs, the two boost modes, Flash support and the memory budget.

use vstd::prelude::*;
use crate::address::{classify, classify_spec, domain_like, is_domain_like};
use crate::flash::FlashView;
use crate::scripts::{
    ASYNC_DECODING, BOOSTER_SCRIPT, CACHE_CLEARING, GC_HINT, LAZY_LOADING, NO_ANIMATION,
    NO_TRANSITION, STOP_AUDIO, STOP_VIDEO, SUSPEND_AUDIO, ULTIMATE_BOOST_SCRIPT,
};
use crate::tabs::{new_tab, RegistryView, TabRegistry};
use crate::text::{chars_of, occurs_in};

pub use crate::flash::FlashHandler;
pub use crate::tabs::TabData;

verus! {

/// Memory budget of a fresh browser, in megabytes.
pub const DEFAULT_MEMORY_LIMIT_MB: usize = 512;

/// Resident size that is reported where the platform cannot tell, in
/// megabytes.
pub const MEMORY_UNAVAILABLE_MB: usize = 45;

/// A point-in-time report of memory use and of the modes that bear on it.
#[derive(Clone, Copy, Debug, PartialEq, Eq)]
pub struct MemoryStats {
    pub total_mb: usize,
    pub tab_count: usize,
    pub booster_active: bool,
    pub ultimate_boost_active: bool,
    pub limit_mb: usize,
}

/// The browser's state as a mathematical value.
pub struct CoreView {
    pub registry: RegistryView,
    pub booster: bool,
    pub ultimate_boost: bool,
    pub flash: FlashView,
    pub memory_limit_mb: nat,
}

impl CoreView {
    /// The state's invariant: that of the registry and that of Flash support.
    pub open spec fn wf(self) -> bool {
        self.registry.wf() && self.flash.wf()
    }

    /// The state after `raw` was opened in a new tab.
    pub open spec fn create_tab(self, raw: Seq<char>) -> CoreView {
        CoreView { registry: self.registry.open(raw), ..self }
    }

    /// The state after the tab `id` was closed.
    pub open spec fn close_tab(self, id: nat) -> CoreView {
        CoreView { registry: self.registry.close(id), ..self }
    }

    /// The state after the booster was switched to `on`.
    pub open spec fn set_booster(self, on: bool) -> CoreView {
        CoreView { booster: on, ..self }
    }

    /// The state after the booster was flipped.
    pub open spec fn toggle_booster(self) -> CoreView {
        self.set_booster(!self.booster)
    }

    /// The state after the ultimate boost was switched to `on`.
    pub open spec fn set_ultimate_boost(self, on: bool) -> CoreView {
        CoreView { ultimate_boost: on, ..self }
    }

    /// The state after the ultimate boost was flipped.
    pub open spec fn toggle_ultimate_boost(self) -> CoreView {
        self.set_ultimate_boost(!self.ultimate_boost)
    }

    /// The booster's page script: empty while the booster is off.
    pub open spec fn booster_script(self) -> Seq<char> {
        if self.booster {
            BOOSTER_SCRIPT@
        } else {
            Seq::empty()
        }
    }

    /// The ultimate boost's page script: empty while it is off.
    pub open spec fn ultimate_boost_script(self) -> Seq<char> {
        if self.ultimate_boost {
            ULTIMATE_BOOST_SCRIPT@
        } else {
            Seq::empty()
        }
    }

    /// The memory report for a probed resident size; a fixed value stands
    /// in where the probe gave nothing.
    pub open spec fn memory_stats(self, resident_mb: Option<usize>) -> MemoryStats {
        MemoryStats {
            total_mb: match resident_mb {
                Some(mb) => mb,
                None => MEMORY_UNAVAILABLE_MB,
            },
            tab_count: self.registry.tabs.len() as usize,
            booster_active: self.booster,
            ultimate_boost_active: self.ultimate_boost,
            limit_mb: self.memory_limit_mb as usize,
        }
    }

    /// Switching the booster on and off again leaves its script empty, and
    /// flipping a mode twice leaves the state as it was.
    pub proof fn booster_on_then_off(self)
        ensures
            self.set_booster(true).set_booster(false).booster_script() == Seq::<char>::empty(),
            self.toggle_booster().toggle_booster() == self,
            !self.booster ==> self.toggle_booster().toggle_booster().booster_script()
                == Seq::<char>::empty(),
            self.toggle_ultimate_boost().toggle_ultimate_boost() == self,
            self.set_ultimate_boost(true).ultimate_boost_script() == ULTIMATE_BOOST_SCRIPT@,
    {
    }

    /// Opening and closing tabs keeps the invariant: a tab is active
    /// exactly when at least one tab is open, the active id is that of an
    /// open tab, and no two open tabs share an id.
    pub proof fn tabs_keep_wf(self, raw: Seq<char>, id: nat)
        requires
            self.wf(),
        ensures
            self.create_tab(raw).wf(),
            self.create_tab(raw).registry.active == Some(self.registry.next_id),
            self.create_tab(raw).registry.holds(self.registry.next_id),
            self.close_tab(id).wf(),
            !self.close_tab(id).registry.holds(id),
    {
        self.registry.open_keeps_wf(raw);
        self.registry.close_keeps_wf(id);
        let opened = self.registry.open(raw);
        assert(opened.tabs[self.registry.tabs.len() as int].id == self.registry.next_id);
        self.registry.close_drops(id);
    }

    /// Opening a tab and closing it at once gives back the state as it was
    /// before, but for two things. The id counter has moved on, so that the
    /// closed id is never given again. And the oldest open tab is now the
    /// active one, so that the active tab is the same as before exactly
    /// where it was the oldest, or no tab was open.
    pub proof fn create_then_close(self, raw: Seq<char>)
        requires
            self.wf(),
        ensures
            ({
                let id = self.registry.next_id;
                let after = self.create_tab(raw).close_tab(id);
                &&& after.wf()
                &&& after.registry.tabs == self.registry.tabs
                &&& !after.registry.holds(id)
                &&& after.registry.next_id == id + 1
                &&& after.create_tab(raw).registry.active == Some(id + 1)
                &&& (after.registry.active == self.registry.active) <==> (self.registry.active
                    matches Some(a) ==> a == self.registry.tabs[0].id)
                &&& after == (CoreView { registry: after.registry, ..self })
            }),
    {
        self.registry.open_then_close_keeps_tabs(raw);
        self.registry.open_then_close_restores(raw);
    }

    /// Flipped on, the ultimate boost hands out a script that does all that
    /// the booster's script does when the booster is on: it asks for a
    /// collection, clears the page caches and makes images load lazily. It
    /// also switches animations and transitions off, stops video and audio
    /// and suspends a running audio context.
    pub proof fn ultimate_boost_covers_booster(self)
        requires
            !self.ultimate_boost,
        ensures
            ({
                let booster = self.set_booster(true).booster_script();
                let ultimate = self.toggle_ultimate_boost().ultimate_boost_script();
                &&& occurs_in(booster, GC_HINT@) && occurs_in(ultimate, GC_HINT@)
                &&& occurs_in(booster, CACHE_CLEARING@) && occurs_in(ultimate, CACHE_CLEARING@)
                &&& occurs_in(booster, LAZY_LOADING@) && occurs_in(ultimate, LAZY_LOADING@)
                &&& occurs_in(booster, ASYNC_DECODING@) && occurs_in(ultimate, ASYNC_DECODING@)
                &&& occurs_in(ultimate, NO_ANIMATION@)
                &&& occurs_in(ultimate, NO_TRANSITION@)
                &&& occurs_in(ultimate, STOP_VIDEO@)
                &&& occurs_in(ultimate, STOP_AUDIO@)
                &&& occurs_in(ultimate, SUSPEND_AUDIO@)
                &&& booster.len() > 0 && ultimate.len() > 0
            }),
    {
        crate::scripts::booster_instructions();
        crate::scripts::ultimate_boost_covers_booster();
    }

    /// The two modes do not touch each other.
    pub proof fn modes_are_independent(self, on: bool)
        ensures
            self.set_booster(on).ultimate_boost == self.ultimate_boost,
            self.set_ultimate_boost(on).booster == self.booster,
            self.set_booster(on).registry == self.registry,
            self.set_ultimate_boost(on).registry == self.registry,
    {
    }
}

/// Tabs, boost modes, Flash support and the memory budget of one browser.
pub struct BrowserCore {
    tabs: TabRegistry,
    booster_mode: bool,
    ultimate_boost: bool,
    flash_handler: FlashHandler,
    memory_limit_mb: usize,
}

impl View for BrowserCore {
    type V = CoreView;

    closed spec fn view(&self) -> CoreView {
        CoreView {
            registry: self.tabs@,
            booster: self.booster_mode,
            ultimate_boost: self.ultimate_boost,
            flash: self.flash_handler@,
            memory_limit_mb: self.memory_limit_mb as nat,
        }
    }
}

impl BrowserCore {
    /// The browser's invariant, stated on its view.
    pub open spec fn wf(&self) -> bool {
        self@.wf()
    }

    /// An id beyond the machine word is the id of no open tab, so closing it
    /// changes nothing.
    pub proof fn id_out_of_reach(&self, id: nat)
        requires
            self.wf(),
            id > usize::MAX,
        ensures
            self@.registry.close(id) == self@.registry,
    {
        self.tabs.ids_fit(id);
    }

    /// A browser without tabs, both modes off, the default memory budget,
    /// and Flash support as found on this machine.
    pub fn new() -> (r: BrowserCore)
        ensures
            r.wf(),
            r@.registry == RegistryView::empty(),
            !r@.booster,
            !r@.ultimate_boost,
            r@.memory_limit_mb == DEFAULT_MEMORY_LIMIT_MB,
            r@.flash.enabled,
            r@.flash.emulated <==> r@.flash.plugin is None,
            r@.flash.plugin matches Some(p) ==> crate::flash::candidates().contains(p),
    {
        BrowserCore::with_flash(FlashHandler::new())
    }

    /// A browser as `new` makes it, but with the given Flash support.
    pub fn with_flash(flash_handler: FlashHandler) -> (r: BrowserCore)
        requires
            flash_handler.wf(),
        ensures
            r.wf(),
            r@ == (CoreView {
                registry: RegistryView::empty(),
                booster: false,
                ultimate_boost: false,
                flash: flash_handler@,
                memory_limit_mb: DEFAULT_MEMORY_LIMIT_MB as nat,
            }),
    {
        BrowserCore {
            tabs: TabRegistry::new(),
            booster_mode: false,
            ultimate_boost: false,
            flash_handler,
            memory_limit_mb: DEFAULT_MEMORY_LIMIT_MB,
        }
    }

    /// Opens `url` in a new tab, which becomes the active one, and returns a
    /// copy of it. Ids are machine words and none is given twice, so an id
    /// must be left to give; `try_create_tab` asks first.
    pub fn create_tab(&mut self, url: &str) -> (tab: TabData)
        requires
            old(self).wf(),
            old(self)@.registry.next_id < usize::MAX,
        ensures
            final(self).wf(),
            final(self)@ == old(self)@.create_tab(url@),
            tab@ == new_tab(old(self)@.registry.next_id, url@),
            final(self)@.registry.active_tab() == Some(tab@),
    {
        self.tabs.open(url)
    }

    /// Opens `url` in a new tab if an id is left to give, and returns a copy
    /// of the tab; `None`, and nothing changed, once the ids have run out.
    pub fn try_create_tab(&mut self, url: &str) -> (r: Option<TabData>)
        requires
            old(self).wf(),
        ensures
            final(self).wf(),
            r is Some <==> old(self)@.registry.next_id < usize::MAX,
            match r {
                Some(tab) => {
                    &&& final(self)@ == old(self)@.create_tab(url@)
                    &&& tab@ == new_tab(old(self)@.registry.next_id, url@)
                    &&& final(self)@.registry.active_tab() == Some(tab@)
                },
                None => final(self)@ == old(self)@,
            },
    {
        if self.tabs.can_open() {
            Some(self.create_tab(url))
        } else {
            None
        }
    }

    /// Closes the tab `tab_id`; an id that is not open is ignored.
    pub fn close_tab(&mut self, tab_id: usize)
        requires
            old(self).wf(),
        ensures
            final(self).wf(),
            final(self)@ == old(self)@.close_tab(tab_id as nat),
    {
        self.tabs.close(tab_id);
    }

    /// Gives the tab `tab_id` a new title, a new address, or both; an id
    /// that is not open is ignored.
    pub fn update_tab(&mut self, tab_id: usize, title: Option<String>, url: Option<String>)
        requires
            old(self).wf(),
        ensures
            final(self).wf(),
            final(self)@ == (CoreView {
                registry: old(self)@.registry.update(
                    tab_id as nat,
                    crate::address::opt_view(title),
                    crate::address::opt_view(url),
                ),
                ..old(self)@
            }),
    {
        self.tabs.update(tab_id, title, url);
    }

    /// Navigation target and address-bar text for a typed address.
    pub fn process_url(&self, input: &str) -> (r: (String, String))
        ensures
            (r.0@, r.1@) == classify_spec(input@),
    {
        classify(input)
    }

    /// Whether a text has a dot and consists of letters, digits and
    /// `.`, `-`, `:`, `/` only.
    pub fn looks_like_domain(&self, input: &str) -> (r: bool)
        ensures
            r == is_domain_like(input@),
    {
        let chars = chars_of(input);
        domain_like(&chars)
    }

    /// Flips the booster.
    pub fn toggle_booster_mode(&mut self)
        ensures
            final(self)@ == old(self)@.toggle_booster(),
            old(self).wf() ==> final(self).wf(),
    {
        self.booster_mode = !self.booster_mode;
    }

    /// Flips the ultimate boost.
    pub fn toggle_ultimate_boost(&mut self)
        ensures
            final(self)@ == old(self)@.toggle_ultimate_boost(),
            old(self).wf() ==> final(self).wf(),
    {
        self.ultimate_boost = !self.ultimate_boost;
    }

    /// The ultimate boost's page script; empty while it is off.
    pub fn get_ultimate_boost_script(&self) -> (r: &str)
        ensures
            r@ == self@.ultimate_boost_script(),
    {
        if self.ultimate_boost {
            ULTIMATE_BOOST_SCRIPT
        } else {
            proof {
                reveal_strlit("");
            }
            assert(""@ =~= Seq::<char>::empty());
            ""
        }
    }

    /// The booster's page script; empty while the booster is off.
    pub fn get_booster_script(&self) -> (r: &str)
        ensures
            r@ == self@.booster_script(),
    {
        if self.booster_mode {
            BOOSTER_SCRIPT
        } else {
            proof {
                reveal_strlit("");
            }
            assert(""@ =~= Seq::<char>::empty());
            ""
        }
    }

    /// The active tab, if there is one.
    pub fn get_active_tab(&self) -> (r: Option<&TabData>)
        requires
            self.wf(),
        ensures
            match r {
                Some(t) => self@.registry.active_tab() == Some(t@),
                None => self@.registry.active_tab() is None && self@.registry.tabs.len() == 0,
            },
    {
        self.tabs.active()
    }

    /// All open tabs, oldest first.
    pub fn get_tabs(&self) -> (r: Vec<&TabData>)
        ensures
            r@.len() == self@.registry.tabs.len(),
            forall|i: int| 0 <= i < r@.len() ==> r@[i]@ == self@.registry.tabs[i],
    {
        self.tabs.all()
    }

    /// The memory report for a resident size that was probed just now, in
    /// megabytes; `None` where the platform could not tell.
    pub fn get_memory_stats(&self, resident_mb: Option<usize>) -> (r: MemoryStats)
        ensures
            r == self@.memory_stats(resident_mb),
            r.tab_count == self@.registry.tabs.len(),
    {
        MemoryStats {
            total_mb: match resident_mb {
                Some(mb) => mb,
                None => MEMORY_UNAVAILABLE_MB,
            },
            tab_count: self.tabs.len(),
            booster_active: self.booster_mode,
            ultimate_boost_active: self.ultimate_boost,
            limit_mb: self.memory_limit_mb,
        }
    }

    /// Switches the booster on or off.
    pub fn set_booster_enabled(&mut self, enabled: bool)
        ensures
            final(self)@ == old(self)@.set_booster(enabled),
            old(self).wf() ==> final(self).wf(),
    {
        self.booster_mode = enabled;
    }

    /// Switches the ultimate boost on or off.
    pub fn set_ultimate_boost_enabled(&mut self, enabled: bool)
        ensures
            final(self)@ == old(self)@.set_ultimate_boost(enabled),
            old(self).wf() ==> final(self).wf(),
    {
        self.ultimate_boost = enabled;
    }

    /// Switches Flash support on or off. The choice between plugin and
    /// emulator stays as it was made.
    pub fn set_flash_enabled(&mut self, enabled: bool)
        ensures
            final(self)@ == (CoreView {
                flash: FlashView { enabled, ..old(self)@.flash },
                ..old(self)@
            }),
            old(self).wf() ==> final(self).wf(),
    {
        self.flash_handler.set_enabled(enabled);
    }

    /// Names the state of Flash support in words.
    pub fn get_flash_status(&self) -> (r: String)
        ensures
            r@ == self@.flash.status(),
    {
        self.flash_handler.status()
    }

    /// The script that gives a page Flash support; empty while Flash support
    /// is switched off.
    pub fn get_flash_script(&self) -> (r: String)
        ensures
            r@ == self@.flash.script(),
    {
        self.flash_handler.get_injection_script()
    }
}

} // verus!
