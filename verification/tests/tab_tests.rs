use minimalist_browser::browser_core::{BrowserCore, FlashHandler, MemoryStats, TabData};
use minimalist_browser::scripts::{
    ASYNC_DECODING, CACHE_CLEARING, GC_HINT, LAZY_LOADING, LOCAL_STORAGE_CLEARING, MEMORY_SAMPLE,
    NO_ANIMATION, NO_TRANSITION, SESSION_STORAGE_CLEARING, STOP_AUDIO, STOP_VIDEO, SUSPEND_AUDIO,
    UNLOAD_AUDIO, UNLOAD_VIDEO,
};
use minimalist_browser::tabs::TabRegistry;

fn browser() -> BrowserCore {
    BrowserCore::with_flash(FlashHandler::with_plugin(None))
}

fn ids(tabs: &Vec<&TabData>) -> Vec<usize> {
    tabs.iter().map(|t| t.id).collect()
}

#[test]
fn fresh_browser_has_no_tabs() {
    let b = browser();
    assert!(b.get_tabs().is_empty());
    assert!(b.get_active_tab().is_none());
}

#[test]
fn first_tab_gets_id_zero_and_is_active() {
    let mut b = browser();
    let tab = b.create_tab("minimalist://newtab");
    assert_eq!(tab.id, 0);
    assert_eq!(tab.title, "New Tab");
    assert_eq!(tab.url, "minimalist://newtab");
    assert_eq!(tab.display_url, "minimalist://newtab");
    assert!(!tab.can_go_back);
    assert!(!tab.can_go_forward);
    let active = b.get_active_tab().unwrap();
    assert_eq!(active.id, 0);
    assert_eq!(active.url, "minimalist://newtab");
}

#[test]
fn ids_grow_and_the_newest_tab_is_active() {
    let mut b = browser();
    assert_eq!(b.create_tab("a.com").id, 0);
    assert_eq!(b.create_tab("b.com").id, 1);
    assert_eq!(b.create_tab("c.com").id, 2);
    assert_eq!(b.get_active_tab().unwrap().id, 2);
    assert_eq!(ids(&b.get_tabs()), vec![0, 1, 2]);
}

#[test]
fn empty_address_opens_the_new_tab_page() {
    let mut b = browser();
    let tab = b.create_tab("");
    assert_eq!(tab.url, "minimalist://newtab");
    assert_eq!(tab.display_url, "minimalist://newtab");
    assert_eq!(tab.title, "New Tab");
}

#[test]
fn tab_of_a_full_url_is_titled_by_its_host() {
    let mut b = browser();
    let tab = b.create_tab("https://example.com/docs?page=2");
    assert_eq!(tab.url, "https://example.com/docs?page=2");
    assert_eq!(tab.display_url, "https://example.com/docs?page=2");
    assert_eq!(tab.title, "example.com");
}

#[test]
fn tab_of_a_bare_domain_is_titled_by_its_host() {
    let mut b = browser();
    let tab = b.create_tab("example.com");
    assert_eq!(tab.url, "https://example.com");
    assert_eq!(tab.display_url, "example.com");
    assert_eq!(tab.title, "example.com");
}

#[test]
fn tab_of_a_bare_domain_with_a_path_is_titled_by_the_host_of_its_target() {
    let mut b = BrowserCore::new();
    let tab = b.create_tab("example.com/path");
    assert_eq!(tab.url, "https://example.com/path");
    assert_eq!(tab.display_url, "example.com/path");
    assert_eq!(tab.title, "example.com");
    let tab = b.create_tab("Docs.Example.COM:8443/a/b");
    assert_eq!(tab.url, "https://Docs.Example.COM:8443/a/b");
    assert_eq!(tab.display_url, "Docs.Example.COM:8443/a/b");
    assert_eq!(tab.title, "docs.example.com");
}

#[test]
fn tab_of_a_local_host() {
    let mut b = browser();
    let tab = b.create_tab("localhost:3000");
    assert_eq!(tab.url, "http://localhost:3000");
    assert_eq!(tab.display_url, "localhost:3000");
    assert_eq!(tab.title, "localhost");
    let tab = b.create_tab("127.0.0.1:8080/status");
    assert_eq!(tab.url, "http://127.0.0.1:8080/status");
    assert_eq!(tab.display_url, "127.0.0.1:8080/status");
    assert_eq!(tab.title, "127.0.0.1");
}

#[test]
fn tab_whose_target_has_no_host_is_titled_by_the_address_bar_text() {
    let mut b = browser();
    let tab = b.create_tab("example.com:99999999");
    assert_eq!(tab.url, "https://example.com:99999999");
    assert_eq!(tab.display_url, "example.com:99999999");
    assert_eq!(tab.title, "example.com:99999999");
    let tab = b.create_tab("localhost:port");
    assert_eq!(tab.url, "http://localhost:port");
    assert_eq!(tab.title, "localhost:port");
    let tab = b.create_tab("file:///tmp/x.html");
    assert_eq!(tab.url, "file:///tmp/x.html");
    assert_eq!(tab.title, "file:///tmp/x.html");
}

#[test]
fn tab_of_a_built_in_page_other_than_the_new_tab_page() {
    let mut b = browser();
    let tab = b.create_tab("minimalist://settings");
    assert_eq!(tab.url, "minimalist://settings");
    assert_eq!(tab.title, "settings");
    let tab = b.create_tab("  MINIMALIST://newtab ");
    assert_eq!(tab.url, "MINIMALIST://newtab");
    assert_eq!(tab.title, "newtab");
}

#[test]
fn tab_of_a_search_is_titled_by_the_search_host() {
    let mut b = browser();
    let tab = b.create_tab("hello world");
    assert_eq!(tab.url, "https://www.google.com/search?q=hello%20world");
    assert_eq!(tab.display_url, "https://www.google.com/search?q=hello%20world");
    assert_eq!(tab.title, "www.google.com");
}

#[test]
fn closing_the_active_tab_activates_the_lowest_id() {
    let mut b = browser();
    b.create_tab("a.com");
    b.create_tab("b.com");
    b.create_tab("c.com");
    b.close_tab(2);
    assert_eq!(b.get_active_tab().unwrap().id, 0);
    assert_eq!(ids(&b.get_tabs()), vec![0, 1]);
    b.close_tab(0);
    assert_eq!(b.get_active_tab().unwrap().id, 1);
    b.close_tab(1);
    assert!(b.get_active_tab().is_none());
    assert!(b.get_tabs().is_empty());
}

#[test]
fn closing_another_tab_keeps_the_active_one() {
    let mut b = browser();
    b.create_tab("a.com");
    b.create_tab("b.com");
    b.create_tab("c.com");
    b.close_tab(1);
    assert_eq!(b.get_active_tab().unwrap().id, 2);
    assert_eq!(ids(&b.get_tabs()), vec![0, 2]);
    b.close_tab(0);
    assert_eq!(b.get_active_tab().unwrap().id, 2);
}

#[test]
fn closing_an_unknown_id_changes_nothing() {
    let mut b = browser();
    b.close_tab(0);
    assert!(b.get_tabs().is_empty());
    b.create_tab("a.com");
    b.create_tab("b.com");
    b.close_tab(7);
    b.close_tab(usize::MAX);
    assert_eq!(ids(&b.get_tabs()), vec![0, 1]);
    assert_eq!(b.get_active_tab().unwrap().id, 1);
}

#[test]
fn closing_twice_is_closing_once() {
    let mut b = browser();
    b.create_tab("a.com");
    b.create_tab("b.com");
    b.close_tab(1);
    b.close_tab(1);
    assert_eq!(ids(&b.get_tabs()), vec![0]);
    assert_eq!(b.get_active_tab().unwrap().id, 0);
}

#[test]
fn ids_are_not_used_again() {
    let mut b = browser();
    b.create_tab("a.com");
    b.close_tab(0);
    assert_eq!(b.create_tab("b.com").id, 1);
    b.close_tab(1);
    b.close_tab(0);
    assert_eq!(b.create_tab("c.com").id, 2);
    assert_eq!(ids(&b.get_tabs()), vec![2]);
}

#[test]
fn open_then_close_restores_the_tabs() {
    let mut b = browser();
    b.create_tab("a.com");
    let before: Vec<(usize, String)> =
        b.get_tabs().iter().map(|t| (t.id, t.url.clone())).collect();
    let active_before = b.get_active_tab().map(|t| t.id);
    let tab = b.create_tab("https://example.org");
    b.close_tab(tab.id);
    let after: Vec<(usize, String)> = b.get_tabs().iter().map(|t| (t.id, t.url.clone())).collect();
    assert_eq!(before, after);
    assert_eq!(b.get_active_tab().map(|t| t.id), active_before);
    assert_eq!(b.create_tab("x.com").id, 2);
}

#[test]
fn open_then_close_on_an_empty_registry() {
    let mut b = browser();
    let tab = b.create_tab("a.com");
    b.close_tab(tab.id);
    assert!(b.get_tabs().is_empty());
    assert!(b.get_active_tab().is_none());
}

#[test]
fn open_then_close_falls_back_to_the_oldest_tab() {
    let mut b = browser();
    b.create_tab("a.com");
    b.create_tab("b.com");
    let tab = b.create_tab("c.com");
    b.close_tab(tab.id);
    assert_eq!(ids(&b.get_tabs()), vec![0, 1]);
    assert_eq!(b.get_active_tab().unwrap().id, 0);
}

#[test]
fn a_tab_is_active_exactly_when_one_is_open() {
    let mut b = browser();
    let steps: [(bool, usize); 12] = [
        (true, 0),
        (true, 0),
        (false, 1),
        (false, 5),
        (true, 0),
        (false, 0),
        (false, 2),
        (false, 2),
        (true, 0),
        (true, 0),
        (false, 4),
        (false, 3),
    ];
    for (open, id) in steps {
        if open {
            b.create_tab("example.com");
        } else {
            b.close_tab(id);
        }
        let open_ids = ids(&b.get_tabs());
        match b.get_active_tab() {
            Some(t) => assert!(open_ids.contains(&t.id)),
            None => assert!(open_ids.is_empty()),
        }
        assert_eq!(b.get_active_tab().is_some(), !open_ids.is_empty());
    }
    assert!(b.get_tabs().is_empty());
}

#[test]
fn update_changes_title_and_address() {
    let mut b = browser();
    b.create_tab("a.com");
    b.create_tab("b.com");
    b.update_tab(0, Some("Alpha".to_string()), None);
    b.update_tab(1, None, Some("https://b.com/next".to_string()));
    let tabs = b.get_tabs();
    assert_eq!(tabs[0].title, "Alpha");
    assert_eq!(tabs[0].url, "https://a.com");
    assert_eq!(tabs[0].display_url, "a.com");
    assert_eq!(tabs[1].title, "b.com");
    assert_eq!(tabs[1].url, "https://b.com/next");
    assert_eq!(tabs[1].display_url, "b.com");
}

#[test]
fn update_of_both_fields_and_of_none() {
    let mut b = browser();
    b.create_tab("a.com");
    b.update_tab(0, Some("T".to_string()), Some("u".to_string()));
    assert_eq!(b.get_tabs()[0].title, "T");
    assert_eq!(b.get_tabs()[0].url, "u");
    b.update_tab(0, None, None);
    assert_eq!(b.get_tabs()[0].title, "T");
    assert_eq!(b.get_tabs()[0].url, "u");
    assert_eq!(b.get_active_tab().unwrap().id, 0);
}

#[test]
fn update_of_an_unknown_id_changes_nothing() {
    let mut b = browser();
    b.create_tab("a.com");
    b.update_tab(3, Some("x".to_string()), Some("y".to_string()));
    assert_eq!(b.get_tabs()[0].title, "a.com");
    assert_eq!(b.get_tabs()[0].url, "https://a.com");
    assert_eq!(b.get_tabs().len(), 1);
}

#[test]
fn try_create_tab_opens_a_tab() {
    let mut b = browser();
    let tab = b.try_create_tab("a.com").unwrap();
    assert_eq!(tab.id, 0);
    assert_eq!(b.get_active_tab().unwrap().id, 0);
}

#[test]
fn duplicate_is_a_copy() {
    let mut b = browser();
    let tab = b.create_tab("https://example.com");
    let copy = tab.duplicate();
    assert_eq!(copy.id, tab.id);
    assert_eq!(copy.title, tab.title);
    assert_eq!(copy.url, tab.url);
    assert_eq!(copy.display_url, tab.display_url);
    assert_eq!(copy.can_go_back, tab.can_go_back);
    assert_eq!(copy.can_go_forward, tab.can_go_forward);
}

#[test]
fn registry_on_its_own() {
    let mut r = TabRegistry::new();
    assert_eq!(r.len(), 0);
    assert!(r.can_open());
    assert!(r.active().is_none());
    let t = r.open("  https://example.com  ");
    assert_eq!(t.id, 0);
    assert_eq!(t.url, "https://example.com");
    r.open("rust lang");
    assert_eq!(r.len(), 2);
    assert_eq!(r.active().unwrap().id, 1);
    assert_eq!(r.all().len(), 2);
    r.update(1, Some("Rust".to_string()), None);
    assert_eq!(r.active().unwrap().title, "Rust");
    r.close(1);
    assert_eq!(r.active().unwrap().id, 0);
    r.close(0);
    assert!(r.active().is_none());
    assert_eq!(r.len(), 0);
}

#[test]
fn memory_report_counts_the_tabs() {
    let mut b = browser();
    assert_eq!(b.get_memory_stats(None).tab_count, 0);
    b.create_tab("a.com");
    b.create_tab("b.com");
    assert_eq!(b.get_memory_stats(None).tab_count, b.get_tabs().len());
    b.close_tab(0);
    assert_eq!(b.get_memory_stats(Some(3)).tab_count, 1);
    assert_eq!(b.get_memory_stats(Some(3)).tab_count, b.get_tabs().len());
}

#[test]
fn memory_report_of_a_fresh_browser() {
    let b = browser();
    assert_eq!(
        b.get_memory_stats(Some(120)),
        MemoryStats {
            total_mb: 120,
            tab_count: 0,
            booster_active: false,
            ultimate_boost_active: false,
            limit_mb: 512,
        }
    );
}

#[test]
fn memory_report_uses_the_fixed_value() {
    let b = browser();
    assert_eq!(b.get_memory_stats(None).total_mb, 45);
    assert_eq!(b.get_memory_stats(Some(0)).total_mb, 0);
}

#[test]
fn memory_report_shows_the_modes() {
    let mut b = browser();
    b.set_booster_enabled(true);
    let s = b.get_memory_stats(None);
    assert!(s.booster_active);
    assert!(!s.ultimate_boost_active);
    b.set_ultimate_boost_enabled(true);
    b.set_booster_enabled(false);
    let s = b.get_memory_stats(None);
    assert!(!s.booster_active);
    assert!(s.ultimate_boost_active);
}

#[test]
fn booster_script_follows_the_switch() {
    let mut b = browser();
    assert_eq!(b.get_booster_script(), "");
    b.toggle_booster_mode();
    let on = b.get_booster_script().to_string();
    assert!(on.contains("window.gc"));
    assert!(on.contains("30000"));
    assert!(on.contains("caches.delete"));
    assert!(on.contains("img.loading = 'lazy'"));
    assert!(on.contains("img.decoding = 'async'"));
    b.toggle_booster_mode();
    assert_eq!(b.get_booster_script(), "");
}

#[test]
fn booster_set_is_idempotent() {
    let mut b = browser();
    b.set_booster_enabled(true);
    b.set_booster_enabled(true);
    assert!(!b.get_booster_script().is_empty());
    b.set_booster_enabled(false);
    b.set_booster_enabled(false);
    assert_eq!(b.get_booster_script(), "");
}

#[test]
fn ultimate_boost_script_covers_the_booster_and_more() {
    let mut b = browser();
    assert_eq!(b.get_ultimate_boost_script(), "");
    b.toggle_ultimate_boost();
    let s = b.get_ultimate_boost_script().to_string();
    assert!(s.contains("window.gc"));
    assert!(s.contains("if ('caches' in window)"));
    assert!(s.contains("caches.keys()"));
    assert!(s.contains("caches.delete(name)"));
    assert!(s.contains("el.loading = 'lazy'"));
    assert!(s.contains("el.decoding = 'async'"));
    assert!(s.contains("el.style.animation = 'none'"));
    assert!(s.contains("el.style.transition = 'none'"));
    assert!(s.contains("querySelectorAll('video')"));
    assert!(s.contains("querySelectorAll('audio')"));
    assert!(s.contains("v.pause()"));
    assert!(s.contains("a.pause()"));
    assert!(s.contains("ctx.suspend()"));
    assert!(s.contains("localStorage.clear()"));
    assert!(s.contains("sessionStorage.clear()"));
    assert!(s.contains("usedJSHeapSize"));
    assert!(s.contains("2000"));
    b.toggle_ultimate_boost();
    assert_eq!(b.get_ultimate_boost_script(), "");
}

#[test]
fn ultimate_boost_script_holds_each_booster_instruction() {
    let mut b = browser();
    b.toggle_booster_mode();
    b.toggle_ultimate_boost();
    let booster = b.get_booster_script().to_string();
    let ultimate = b.get_ultimate_boost_script().to_string();
    for instruction in [GC_HINT, CACHE_CLEARING, LAZY_LOADING, ASYNC_DECODING] {
        assert!(booster.contains(instruction), "{}", instruction);
        assert!(ultimate.contains(instruction), "{}", instruction);
    }
    for instruction in [
        NO_ANIMATION,
        NO_TRANSITION,
        STOP_VIDEO,
        STOP_AUDIO,
        SUSPEND_AUDIO,
        UNLOAD_VIDEO,
        UNLOAD_AUDIO,
        LOCAL_STORAGE_CLEARING,
        SESSION_STORAGE_CLEARING,
        MEMORY_SAMPLE,
    ] {
        assert!(ultimate.contains(instruction), "{}", instruction);
        assert!(!booster.contains(instruction), "{}", instruction);
    }
    assert_eq!(GC_HINT, "if (window.gc) window.gc();");
    assert!(CACHE_CLEARING.starts_with("if ('caches' in window) {"));
    assert!(CACHE_CLEARING.contains("names.forEach(name => caches.delete(name));"));
    assert_eq!(ultimate.matches("caches.delete").count(), 1);
}

#[test]
fn a_fresh_browser_with_the_ultimate_boost_clears_the_page_caches() {
    let mut c = BrowserCore::new();
    c.toggle_ultimate_boost();
    let s = c.get_ultimate_boost_script();
    assert!(!s.is_empty());
    assert!(s.contains("window.gc"));
    assert!(s.contains("caches"));
    assert!(s.contains("loading = 'lazy'"));
    assert!(s.contains("animation = 'none'"));
    assert!(s.contains("transition = 'none'"));
    assert!(s.contains(".pause()"));
    assert!(s.contains("ctx.suspend()"));
}

#[test]
fn the_two_modes_are_independent() {
    let mut b = browser();
    b.toggle_booster_mode();
    assert_eq!(b.get_ultimate_boost_script(), "");
    assert!(!b.get_booster_script().is_empty());
    b.toggle_ultimate_boost();
    assert!(!b.get_booster_script().is_empty());
    assert!(!b.get_ultimate_boost_script().is_empty());
    b.toggle_booster_mode();
    assert_eq!(b.get_booster_script(), "");
    assert!(!b.get_ultimate_boost_script().is_empty());
}

#[test]
fn modes_leave_the_tabs_alone() {
    let mut b = browser();
    b.create_tab("a.com");
    b.toggle_booster_mode();
    b.toggle_ultimate_boost();
    b.set_flash_enabled(false);
    assert_eq!(b.get_tabs().len(), 1);
    assert_eq!(b.get_active_tab().unwrap().id, 0);
}

#[test]
fn process_url_classifies() {
    let b = browser();
    assert_eq!(
        b.process_url("example.com"),
        ("https://example.com".to_string(), "example.com".to_string())
    );
    assert_eq!(
        b.process_url(""),
        ("minimalist://newtab".to_string(), "minimalist://newtab".to_string())
    );
}

#[test]
fn looks_like_domain_checks_dot_and_characters() {
    let b = browser();
    assert!(b.looks_like_domain("example.com"));
    assert!(b.looks_like_domain("a.b:80/c-d"));
    assert!(!b.looks_like_domain("example"));
    assert!(!b.looks_like_domain("exa mple.com"));
    assert!(!b.looks_like_domain("example.com\n"));
    assert!(!b.looks_like_domain("example.com?x"));
    assert!(!b.looks_like_domain(""));
}

#[test]
fn new_browser_probes_the_machine() {
    let b = BrowserCore::new();
    let status = b.get_flash_status();
    assert!(status == "Native Flash" || status == "Ruffle Emulator");
    assert!(!b.get_flash_script().is_empty());
    assert!(b.get_tabs().is_empty());
    assert_eq!(b.get_memory_stats(None).limit_mb, 512);
}
