//! The built-in pages and the router that finds one for a route.

use vstd::prelude::*;
use vstd::string::StrSliceExecFns;
use crate::markup::{
    pages_have_content, ERROR_HTML, FLASH_TEST_HTML, MEMORY_STATS_HTML, NEW_TAB_HTML,
    SETTINGS_HTML,
};
use crate::text::same_text;

verus! {

/// Route of the page that stands in for every unknown route.
pub const ERROR_KEY: &'static str = "error";

/// Request path of the browser's own chrome.
pub const SHELL_PATH: &'static str = "/shell";

/// Content type of every built-in page.
pub const HTML_CONTENT_TYPE: &'static str = "text/html; charset=utf-8";

/// A built-in page: the route under which it is served, its title, its
/// content and the content type to announce.
#[derive(Clone, Copy, Debug)]
pub struct BrowserPage {
    pub key: &'static str,
    pub title: &'static str,
    pub content: &'static str,
    pub content_type: &'static str,
}

/// A page as plain mathematical values.
pub struct PageView {
    pub key: Seq<char>,
    pub title: Seq<char>,
    pub content: Seq<char>,
    pub content_type: Seq<char>,
}

impl View for BrowserPage {
    type V = PageView;

    open spec fn view(&self) -> PageView {
        PageView {
            key: self.key@,
            title: self.title@,
            content: self.content@,
            content_type: self.content_type@,
        }
    }
}

/// Some page in `pages` is served under `key`.
pub open spec fn has_key(pages: Seq<PageView>, key: Seq<char>) -> bool {
    exists|i: int| 0 <= i < pages.len() && pages[i].key == key
}

/// The page at `i` is served under `key`, and no page before it is.
pub open spec fn is_first_with_key(pages: Seq<PageView>, key: Seq<char>, i: int) -> bool {
    &&& 0 <= i < pages.len()
    &&& pages[i].key == key
    &&& forall|j: int| 0 <= j < i ==> (#[trigger] pages[j]).key != key
}

/// The place of the first page in `pages` that is served under `key`.
pub open spec fn first_with_key(pages: Seq<PageView>, key: Seq<char>) -> int {
    choose|i: int| is_first_with_key(pages, key, i)
}

/// The page for a route: the first page served under it, or else the error
/// page. The match is exact.
pub open spec fn resolve_spec(pages: Seq<PageView>, route: Seq<char>) -> PageView {
    if has_key(pages, route) {
        pages[first_with_key(pages, route)]
    } else {
        pages[first_with_key(pages, ERROR_KEY@)]
    }
}

/// There is one first page under a key.
pub proof fn first_with_key_is(pages: Seq<PageView>, key: Seq<char>, i: int)
    requires
        is_first_with_key(pages, key, i),
    ensures
        has_key(pages, key),
        first_with_key(pages, key) == i,
{
    let k = first_with_key(pages, key);
    assert(is_first_with_key(pages, key, k));
    if k < i {
        assert(pages[k].key != key);
    } else if i < k {
        assert(pages[i].key != key);
    }
}

/// What a request for a path is answered with.
pub enum Route<'a> {
    /// The browser's own chrome, which is built for each request.
    Shell,
    /// A built-in page.
    Page(&'a BrowserPage),
}

/// The views of the pages in a list.
pub open spec fn page_views(pages: Seq<BrowserPage>) -> Seq<PageView> {
    Seq::new(pages.len(), |i: int| pages[i]@)
}

/// Finds the first page in `pages` that is served under `key`.
pub fn find_page(pages: &Vec<BrowserPage>, key: &str) -> (r: Option<usize>)
    ensures
        match r {
            Some(i) => is_first_with_key(page_views(pages@), key@, i as int),
            None => !has_key(page_views(pages@), key@),
        },
{
    let ghost views = page_views(pages@);
    let mut i: usize = 0;
    while i < pages.len()
        invariant
            i <= pages@.len(),
            views == page_views(pages@),
            forall|j: int| 0 <= j < i ==> (#[trigger] views[j]).key != key@,
        decreases pages@.len() - i,
    {
        if same_text(pages[i].key, key) {
            assert(views[i as int].key == key@);
            return Some(i);
        }
        assert(views[i as int].key != key@);
        i += 1;
    }
    None
}

/// The table of built-in pages, with the place of its error page.
pub struct PageRouter {
    pages: Vec<BrowserPage>,
    error_index: usize,
}

impl View for PageRouter {
    type V = Seq<PageView>;

    closed spec fn view(&self) -> Seq<PageView> {
        page_views(self.pages@)
    }
}

impl PageRouter {
    /// The table holds an error page, and the router knows where.
    pub closed spec fn wf(&self) -> bool {
        is_first_with_key(self@, ERROR_KEY@, self.error_index as int)
    }

    /// A router over `pages`. A table without an error page is refused: that
    /// is a fault of the configuration, not of a request.
    pub fn new(pages: Vec<BrowserPage>) -> (r: Option<PageRouter>)
        ensures
            r is Some <==> has_key(page_views(pages@), ERROR_KEY@),
            r matches Some(router) ==> router.wf() && router@ == page_views(pages@),
    {
        match find_page(&pages, ERROR_KEY) {
            Some(error_index) => {
                proof {
                    first_with_key_is(page_views(pages@), ERROR_KEY@, error_index as int);
                }
                Some(PageRouter { pages, error_index })
            },
            None => None,
        }
    }

    /// The page for a route: the page served under exactly that route, or
    /// the error page. Every route gets a page.
    pub fn resolve(&self, route: &str) -> (r: &BrowserPage)
        requires
            self.wf(),
        ensures
            r@ == resolve_spec(self@, route@),
            r@.key == route@ || r@.key == ERROR_KEY@,
            has_key(self@, route@) ==> r@.key == route@,
    {
        proof {
            first_with_key_is(self@, ERROR_KEY@, self.error_index as int);
        }
        match find_page(&self.pages, route) {
            Some(i) => {
                proof {
                    first_with_key_is(self@, route@, i as int);
                }
                &self.pages[i]
            },
            None => &self.pages[self.error_index],
        }
    }

    /// The page for a request path: a path names a route after its leading
    /// slash, and a path without one names no route.
    pub fn page_for(&self, path: &str) -> (r: &BrowserPage)
        requires
            self.wf(),
        ensures
            r@ == resolve_spec(self@, route_of(path@)),
    {
        let n = path.unicode_len();
        if n > 0 && path.get_char(0) == '/' {
            let key = path.substring_char(1, n);
            self.resolve(key)
        } else {
            self.resolve(ERROR_KEY)
        }
    }

    /// The answer to a request path where the chrome is served too. The
    /// chrome's own path is recognised first; any other path gets its page.
    pub fn route(&self, path: &str) -> (r: Route<'_>)
        requires
            self.wf(),
        ensures
            match r {
                Route::Shell => path@ == SHELL_PATH@,
                Route::Page(page) => path@ != SHELL_PATH@ && page@ == resolve_spec(
                    self@,
                    route_of(path@),
                ),
            },
    {
        if same_text(path, SHELL_PATH) {
            Route::Shell
        } else {
            Route::Page(self.page_for(path))
        }
    }
}

/// The route that a request path names: what follows its leading slash. A
/// path without a leading slash names the error route.
pub open spec fn route_of(path: Seq<char>) -> Seq<char> {
    if path.len() > 0 && path[0] == '/' {
        path.subrange(1, path.len() as int)
    } else {
        ERROR_KEY@
    }
}

/// The table of built-in pages: the new-tab page, the settings, the memory
/// statistics, the Flash test and, last, the error page.
pub open spec fn builtin_table() -> Seq<BrowserPage> {
    seq![
        BrowserPage {
            key: "newtab",
            title: "New Tab",
            content: NEW_TAB_HTML,
            content_type: HTML_CONTENT_TYPE,
        },
        BrowserPage {
            key: "settings",
            title: "Settings",
            content: SETTINGS_HTML,
            content_type: HTML_CONTENT_TYPE,
        },
        BrowserPage {
            key: "memory",
            title: "Memory Statistics",
            content: MEMORY_STATS_HTML,
            content_type: HTML_CONTENT_TYPE,
        },
        BrowserPage {
            key: "flash",
            title: "Flash Test",
            content: FLASH_TEST_HTML,
            content_type: HTML_CONTENT_TYPE,
        },
        BrowserPage {
            key: ERROR_KEY,
            title: "Error",
            content: ERROR_HTML,
            content_type: HTML_CONTENT_TYPE,
        },
    ]
}

/// The built-in pages as the router sees them.
pub open spec fn builtin_views() -> Seq<PageView> {
    page_views(builtin_table())
}

/// Over the built-in pages every route gets a page that is not empty and
/// has the one content type. The settings route gets the settings page, and
/// a route that is the key of no page gets the error page.
pub proof fn builtin_resolution(route: Seq<char>)
    ensures
        resolve_spec(builtin_views(), route).content.len() > 0,
        resolve_spec(builtin_views(), route).content_type == HTML_CONTENT_TYPE@,
        resolve_spec(builtin_views(), route).key == route || resolve_spec(
            builtin_views(),
            route,
        ).key == ERROR_KEY@,
        !has_key(builtin_views(), route) ==> resolve_spec(builtin_views(), route)
            == builtin_views()[4],
        resolve_spec(builtin_views(), "settings"@) == builtin_views()[1],
{
    let pages = builtin_views();
    pages_have_content();
    reveal_strlit("newtab");
    reveal_strlit("settings");
    reveal_strlit("memory");
    reveal_strlit("flash");
    reveal_strlit("error");
    assert(pages[0].key[0] != "settings"@[0]);
    assert(is_first_with_key(pages, "settings"@, 1));
    first_with_key_is(pages, "settings"@, 1);
    assert(pages[0].key[0] != ERROR_KEY@[0]);
    assert(pages[1].key[0] != ERROR_KEY@[0]);
    assert(pages[2].key[0] != ERROR_KEY@[0]);
    assert(pages[3].key[0] != ERROR_KEY@[0]);
    assert(is_first_with_key(pages, ERROR_KEY@, 4));
    first_with_key_is(pages, ERROR_KEY@, 4);
    if has_key(pages, route) {
        let at = choose|at: int| 0 <= at < pages.len() && pages[at].key == route;
        first_key_exists(pages, route, at);
        assert(is_first_with_key(pages, route, first_with_key(pages, route)));
    }
}

/// Where a page is served under a key, there is a first such page.
pub proof fn first_key_exists(pages: Seq<PageView>, key: Seq<char>, at: int)
    requires
        0 <= at < pages.len(),
        pages[at].key == key,
    ensures
        exists|i: int| is_first_with_key(pages, key, i),
    decreases at,
{
    if exists|j: int| 0 <= j < at && (#[trigger] pages[j]).key == key {
        let j = choose|j: int| 0 <= j < at && (#[trigger] pages[j]).key == key;
        first_key_exists(pages, key, j);
    } else {
        assert(is_first_with_key(pages, key, at));
    }
}

/// The built-in pages, in the order of the table.
pub fn builtin_pages() -> (r: Vec<BrowserPage>)
    ensures
        r@ == builtin_table(),
{
    let mut r: Vec<BrowserPage> = Vec::new();
    r.push(
        BrowserPage {
            key: "newtab",
            title: "New Tab",
            content: NEW_TAB_HTML,
            content_type: HTML_CONTENT_TYPE,
        },
    );
    r.push(
        BrowserPage {
            key: "settings",
            title: "Settings",
            content: SETTINGS_HTML,
            content_type: HTML_CONTENT_TYPE,
        },
    );
    r.push(
        BrowserPage {
            key: "memory",
            title: "Memory Statistics",
            content: MEMORY_STATS_HTML,
            content_type: HTML_CONTENT_TYPE,
        },
    );
    r.push(
        BrowserPage {
            key: "flash",
            title: "Flash Test",
            content: FLASH_TEST_HTML,
            content_type: HTML_CONTENT_TYPE,
        },
    );
    r.push(
        BrowserPage {
            key: ERROR_KEY,
            title: "Error",
            content: ERROR_HTML,
            content_type: HTML_CONTENT_TYPE,
        },
    );
    assert(r@ =~= builtin_table());
    r
}

/// The router over the built-in pages.
pub fn builtin_router() -> (r: PageRouter)
    ensures
        r.wf(),
        r@ == builtin_views(),
{
    let pages = builtin_pages();
    proof {
        assert(page_views(pages@)[4].key == ERROR_KEY@);
    }
    match PageRouter::new(pages) {
        Some(router) => router,
        None => {
            proof {
                assert(false);
            }
            PageRouter { pages: Vec::new(), error_index: 0 }
        },
    }
}

} // verus!
