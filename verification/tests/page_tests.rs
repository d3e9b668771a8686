use minimalist_browser::main_window::window_pages;
use minimalist_browser::pages::{
    builtin_pages, builtin_router, find_page, BrowserPage, PageRouter, Route, ERROR_KEY,
};

fn page(key: &'static str, title: &'static str) -> BrowserPage {
    BrowserPage { key, title, content: "<p>x</p>", content_type: "text/html" }
}

#[test]
fn builtin_table() {
    let pages = builtin_pages();
    let keys: Vec<&str> = pages.iter().map(|p| p.key).collect();
    assert_eq!(keys, vec!["newtab", "settings", "memory", "flash", "error"]);
    let titles: Vec<&str> = pages.iter().map(|p| p.title).collect();
    assert_eq!(titles, vec!["New Tab", "Settings", "Memory Statistics", "Flash Test", "Error"]);
    for p in pages.iter() {
        assert_eq!(p.content_type, "text/html; charset=utf-8");
        assert!(p.content.starts_with("<!doctype html>"));
        assert!(p.content.ends_with("</html>"));
    }
}

#[test]
fn builtin_router_serves_the_builtin_table() {
    let router = builtin_router();
    for p in builtin_pages().iter() {
        let served = router.resolve(p.key);
        assert_eq!(served.key, p.key);
        assert_eq!(served.title, p.title);
        assert_eq!(served.content, p.content);
        assert_eq!(served.content_type, p.content_type);
    }
    assert!(router.resolve("newtab").content.contains("<title>New Tab</title>"));
    assert_ne!(router.resolve("newtab").content, router.resolve("error").content);
    assert_ne!(router.resolve("memory").content, router.resolve("flash").content);
}

#[test]
fn settings_resolves_to_settings() {
    let router = builtin_router();
    let p = router.resolve("settings");
    assert_eq!(p.key, "settings");
    assert_eq!(p.title, "Settings");
    assert!(!p.content.is_empty());
    assert_eq!(p.content_type, "text/html; charset=utf-8");
    assert!(p.content.contains("<title>Settings</title>"));
}

#[test]
fn unknown_route_resolves_to_the_error_page() {
    let router = builtin_router();
    let p = router.resolve("nonexistent-route");
    assert_eq!(p.key, ERROR_KEY);
    assert_eq!(p.key, "error");
    assert!(!p.content.is_empty());
    assert_eq!(p.content_type, "text/html; charset=utf-8");
}

#[test]
fn every_known_route_resolves_to_itself() {
    let router = builtin_router();
    for key in ["newtab", "settings", "memory", "flash", "error"] {
        assert_eq!(router.resolve(key).key, key);
    }
}

#[test]
fn routes_without_a_page_resolve_to_the_error_page() {
    let router = builtin_router();
    for key in ["history", "downloads", "about", "shell", "", "Settings", "settings/", " settings"] {
        assert_eq!(router.resolve(key).key, "error");
    }
}

#[test]
fn request_paths() {
    let router = builtin_router();
    assert!(matches!(router.route("/shell"), Route::Shell));
    match router.route("/newtab") {
        Route::Page(p) => assert_eq!(p.key, "newtab"),
        Route::Shell => panic!("the new-tab page is not the chrome"),
    }
    match router.route("/memory") {
        Route::Page(p) => assert_eq!(p.title, "Memory Statistics"),
        Route::Shell => panic!("the memory page is not the chrome"),
    }
    for path in ["/", "", "newtab", "shell", "//newtab", "/nothing", "/shell/", "/Shell"] {
        match router.route(path) {
            Route::Page(p) => assert_eq!(p.key, "error", "{}", path),
            Route::Shell => panic!("{} is not the chrome", path),
        }
    }
}

#[test]
fn table_without_error_page_is_refused() {
    assert!(PageRouter::new(vec![]).is_none());
    assert!(PageRouter::new(vec![page("newtab", "New Tab")]).is_none());
    assert!(PageRouter::new(vec![page("Error", "E")]).is_none());
    assert!(PageRouter::new(vec![page("error", "E")]).is_some());
}

#[test]
fn first_page_under_a_key_counts() {
    let router = PageRouter::new(vec![
        page("a", "first"),
        page("error", "E1"),
        page("a", "second"),
        page("error", "E2"),
    ])
    .unwrap();
    assert_eq!(router.resolve("a").title, "first");
    assert_eq!(router.resolve("b").title, "E1");
    assert_eq!(router.resolve("error").title, "E1");
}

#[test]
fn finding_a_page() {
    let pages = vec![page("a", "1"), page("b", "2"), page("a", "3")];
    assert_eq!(find_page(&pages, "a"), Some(0));
    assert_eq!(find_page(&pages, "b"), Some(1));
    assert_eq!(find_page(&pages, "c"), None);
    assert_eq!(find_page(&vec![], "a"), None);
}

#[test]
fn pages_by_request_path() {
    let router = builtin_router();
    assert_eq!(router.page_for("/newtab").key, "newtab");
    assert_eq!(router.page_for("/settings").title, "Settings");
    assert_eq!(router.page_for("/error").key, "error");
    for path in ["/shell", "/", "", "newtab", "//newtab", "/nothing", "/settings/"] {
        assert_eq!(router.page_for(path).key, "error", "{}", path);
    }
}

#[test]
fn a_window_serves_three_pages() {
    let pages = window_pages();
    let keys: Vec<&str> = pages.iter().map(|p| p.key).collect();
    assert_eq!(keys, vec!["newtab", "settings", "error"]);
    let all = builtin_pages();
    assert_eq!(pages[0].content, all[0].content);
    assert_eq!(pages[1].content, all[1].content);
    assert_eq!(pages[2].content, all[4].content);
    let router = PageRouter::new(pages).unwrap();
    assert_eq!(router.page_for("/newtab").title, "New Tab");
    assert_eq!(router.page_for("/settings").title, "Settings");
    for path in ["/memory", "/flash", "/shell", "/history", ""] {
        assert_eq!(router.page_for(path).title, "Error", "{}", path);
    }
}
