//! What a window keeps besides the native window and its web view: its
//! tabs, the active one, the booster switch and the address-bar text.

use vstd::prelude::*;
use vstd::string::StringExecFns;
use crate::address::{NEW_TAB_TITLE, NEW_TAB_URL};
use crate::pages::{builtin_pages, builtin_table, BrowserPage};

verus! {

/// What the window evaluates in its page when the booster comes on.
pub const BOOSTER_ON_SCRIPT: &'static str = r#"
                if (window.gc) window.gc();
                console.log('Booster mode activated');
            "#;

/// The pages that a window serves by itself: the new-tab page, the
/// settings and the error page, which answers every other request.
pub open spec fn window_table() -> Seq<BrowserPage> {
    seq![builtin_table()[0], builtin_table()[1], builtin_table()[4]]
}

/// The pages that a window serves by itself.
pub fn window_pages() -> (r: Vec<BrowserPage>)
    ensures
        r@ == window_table(),
{
    let all = builtin_pages();
    let mut r: Vec<BrowserPage> = Vec::new();
    r.push(all[0]);
    r.push(all[1]);
    r.push(all[4]);
    assert(r@ =~= window_table());
    r
}

/// A tab as the window lists it.
pub struct TabData {
    pub id: usize,
    pub title: String,
    pub url: String,
}

/// The window's own state.
pub struct WindowState {
    pub tabs: Vec<TabData>,
    pub active_tab: usize,
    pub booster_active: bool,
    pub url_bar_text: String,
}

impl WindowState {
    /// The state of a fresh window: one tab with the new-tab page, which is
    /// active, the booster off and an empty address bar.
    pub fn new() -> (r: WindowState)
        ensures
            r.tabs@.len() == 1,
            r.tabs@[0].id == 0,
            r.tabs@[0].title@ == NEW_TAB_TITLE@,
            r.tabs@[0].url@ == NEW_TAB_URL@,
            r.active_tab == 0,
            !r.booster_active,
            r.url_bar_text@ == Seq::<char>::empty(),
    {
        let mut tabs: Vec<TabData> = Vec::new();
        tabs.push(
            TabData {
                id: 0,
                title: String::from_str(NEW_TAB_TITLE),
                url: String::from_str(NEW_TAB_URL),
            },
        );
        WindowState { tabs, active_tab: 0, booster_active: false, url_bar_text: String::new() }
    }

    /// Flips the booster. Where that switches it on, returns the script that
    /// the page has to run; nothing else changes.
    pub fn toggle_booster(&mut self) -> (script: Option<&'static str>)
        ensures
            final(self).booster_active == !old(self).booster_active,
            final(self).tabs == old(self).tabs,
            final(self).active_tab == old(self).active_tab,
            final(self).url_bar_text == old(self).url_bar_text,
            match script {
                Some(text) => final(self).booster_active && text@ == BOOSTER_ON_SCRIPT@,
                None => !final(self).booster_active,
            },
    {
        self.booster_active = !self.booster_active;
        if self.booster_active {
            Some(BOOSTER_ON_SCRIPT)
        } else {
            None
        }
    }
}

} // verus!
