//! The helper scripts that are handed to a page.

use vstd::prelude::*;
use crate::text::{found_at, occurs_in};

verus! {

/// Loads the Ruffle emulator from its public address and, once it is there,
/// replaces every embedded Flash object on the page by an emulated player. A
/// failure to load is logged and nothing more.
pub const RUFFLE_SCRIPT: &'static str = r#"
            (function() {
                try {
                    const script = document.createElement('script');
                    script.src = 'https://unpkg.com/@ruffle-rs/ruffle@latest/ruffle.js';
                    script.async = true;
                    script.onerror = () => console.warn('Ruffle failed to load');
                    script.onload = () => {
                        console.log('âœ… Ruffle Flash emulator ready');
                        const player = window.RufflePlayer?.newest?.();
                        if (player) {
                            document.querySelectorAll('embed[type="application/x-shockwave-flash"]').forEach(el => {
                                try {
                                    player.createPlayer().replaceChild(el);
                                } catch(e) {}
                            });
                        }
                    };
                    document.head.appendChild(script);
                } catch(e) {
                    console.log('Flash support via Ruffle');
                }
            })();
            "#;

/// Tells the page that the native Flash plugin is available.
pub const NATIVE_FLASH_SCRIPT: &'static str = r#"
            (function() {
                window.__flashEnabled = true;
                console.log('âœ… Native Flash Player plugin enabled');
            })();
            "#;

/// Page script of the ultimate boost: all that the booster's script does
/// (collection hints, now more frequent; page caches cleared; images loaded
/// lazily), and beyond it no animations or transitions, video and audio
/// stopped, audio contexts suspended, storage cleared at intervals and the
/// heap size logged.
pub const ULTIMATE_BOOST_SCRIPT: &'static str = r#"
            (function() {
                console.log('ðŸš€ ULTIMATE BOOST: Aggressive Memory Optimization');
                
                // Force garbage collection every 2 seconds
                setInterval(() => {
                    if (window.gc) {
                        window.gc();
                        console.log('ðŸ§¹ GC');
                    }
                }, 2000);
                
                // Disable hardware acceleration
                const canvas = document.createElement('canvas');
                const ctx = canvas.getContext('2d');
                if (ctx) ctx.canvas.width = 0;
                
                // Remove all animations
                document.querySelectorAll('*').forEach(el => {
                    const style = window.getComputedStyle(el);
                    if (style.animation || style.transition) {
                        el.style.animation = 'none';
                        el.style.transition = 'none';
                    }
                });
                
                // Lazy load everything
                document.querySelectorAll('img, iframe').forEach(el => {
                    el.loading = 'lazy';
                    if (el.tagName === 'IMG') el.decoding = 'async';
                });
                
                // Stop all videos
                document.querySelectorAll('video').forEach(v => {
                    v.pause();
                    v.src = '';
                });
                
                // Reduce audio
                document.querySelectorAll('audio').forEach(a => {
                    a.pause();
                    a.src = '';
                });
                
                // Kill background sounds
                const AudioContext = window.AudioContext || window.webkitAudioContext;
                if (AudioContext) {
                    const ctx = new AudioContext();
                    if (ctx.state === 'running') ctx.suspend();
                }
                
                // Clear event listeners on unused elements
                const walker = document.createTreeWalker(
                    document.body,
                    NodeFilter.SHOW_ELEMENT,
                    null,
                    false
                );
                
                let node;
                let count = 0;
                while (node = walker.nextNode()) {
                    if (count++ % 100 === 0) {
                        if (window.gc) window.gc();
                    }
                }
                
                // Monitor memory
                setInterval(() => {
                    if (performance.memory) {
                        const mb = (performance.memory.usedJSHeapSize / 1048576).toFixed(1);
                        console.log(`ðŸ“Š Memory: ${mb}MB`);
                    }
                }, 5000);
                
                // Clear the page caches
                if ('caches' in window) {
                    caches.keys().then(names => {
                        names.forEach(name => caches.delete(name));
                    });
                }
                
                // Clear local storage periodically
                setInterval(() => {
                    try {
                        localStorage.clear();
                        sessionStorage.clear();
                    } catch(e) {}
                }, 10000);
                
                console.log('âœ… Ultimate Boost: Memory at MINIMUM');
            })();
            "#;

/// Page script of the booster: a collection hint every thirty seconds, page
/// caches cleared, images loaded lazily and decoded off the main path.
pub const BOOSTER_SCRIPT: &'static str = r#"
            (function() {
                setInterval(() => {
                    if (window.gc) window.gc();
                }, 30000);
                
                if ('caches' in window) {
                    caches.keys().then(names => {
                        names.forEach(name => caches.delete(name));
                    });
                }
                
                document.querySelectorAll('img').forEach(img => {
                    img.loading = 'lazy';
                    img.decoding = 'async';
                });
                
                console.log('Booster mode active');
            })();
            "#;

/// Names the address from which the emulator is loaded.
pub const EMULATOR_SOURCE: &'static str =
    "script.src = 'https://unpkg.com/@ruffle-rs/ruffle@latest/ruffle.js';";

/// Makes the emulator load beside the page, not before it.
pub const ASYNC_LOAD: &'static str = "script.async = true;";

/// Has a failure to load the emulator logged, and nothing more.
pub const LOAD_FAILURE: &'static str =
    "script.onerror = () => console.warn('Ruffle failed to load');";

/// Finds the elements of the page that embed Flash content.
pub const FLASH_EMBEDS: &'static str =
    r#"document.querySelectorAll('embed[type="application/x-shockwave-flash"]')"#;

/// Puts an emulated player in the place of an embedding element.
pub const EMBED_SWAP: &'static str = "player.createPlayer().replaceChild(el);";

/// Tells the page that the native plugin is there.
pub const NATIVE_SIGNAL: &'static str = "window.__flashEnabled = true;";

/// The emulator's script loads the emulator from its address beside the
/// page, swaps the page's Flash embeddings for emulated players and has a
/// failure to load logged. The native script signals the plugin. Neither is
/// empty.
///
/// The characters of a text are known from the literal alone, so the proof
/// writes the scripts out once more; it would fail if they differed.
pub proof fn flash_instructions()
    ensures
        occurs_in(RUFFLE_SCRIPT@, EMULATOR_SOURCE@),
        occurs_in(RUFFLE_SCRIPT@, ASYNC_LOAD@),
        occurs_in(RUFFLE_SCRIPT@, LOAD_FAILURE@),
        occurs_in(RUFFLE_SCRIPT@, FLASH_EMBEDS@),
        occurs_in(RUFFLE_SCRIPT@, EMBED_SWAP@),
        occurs_in(NATIVE_FLASH_SCRIPT@, NATIVE_SIGNAL@),
        RUFFLE_SCRIPT@.len() > 0,
        NATIVE_FLASH_SCRIPT@.len() > 0,
{
    reveal_strlit(r#"
            (function() {
                try {
                    const script = document.createElement('script');
                    script.src = 'https://unpkg.com/@ruffle-rs/ruffle@latest/ruffle.js';
                    script.async = true;
                    script.onerror = () => console.warn('Ruffle failed to load');
                    script.onload = () => {
                        console.log('âœ… Ruffle Flash emulator ready');
                        const player = window.RufflePlayer?.newest?.();
                        if (player) {
                            document.querySelectorAll('embed[type="application/x-shockwave-flash"]').forEach(el => {
                                try {
                                    player.createPlayer().replaceChild(el);
                                } catch(e) {}
                            });
                        }
                    };
                    document.head.appendChild(script);
                } catch(e) {
                    console.log('Flash support via Ruffle');
                }
            })();
            "#);
    reveal_strlit(r#"
            (function() {
                window.__flashEnabled = true;
                console.log('âœ… Native Flash Player plugin enabled');
            })();
            "#);
    reveal_strlit("script.src = 'https://unpkg.com/@ruffle-rs/ruffle@latest/ruffle.js';");
    reveal_strlit("script.async = true;");
    reveal_strlit("script.onerror = () => console.warn('Ruffle failed to load');");
    reveal_strlit(r#"document.querySelectorAll('embed[type="application/x-shockwave-flash"]')"#);
    reveal_strlit("player.createPlayer().replaceChild(el);");
    reveal_strlit("window.__flashEnabled = true;");
    found_at(RUFFLE_SCRIPT@, EMULATOR_SOURCE@, 138);
    found_at(RUFFLE_SCRIPT@, ASYNC_LOAD@, 227);
    found_at(RUFFLE_SCRIPT@, LOAD_FAILURE@, 268);
    found_at(RUFFLE_SCRIPT@, FLASH_EMBEDS@, 584);
    found_at(RUFFLE_SCRIPT@, EMBED_SWAP@, 747);
    found_at(NATIVE_FLASH_SCRIPT@, NATIVE_SIGNAL@, 43);
}

/// Asks the engine to collect garbage, where the engine offers that.
pub const GC_HINT: &'static str = "if (window.gc) window.gc();";

/// Deletes every cache that the page has opened.
pub const CACHE_CLEARING: &'static str = r#"if ('caches' in window) {
                    caches.keys().then(names => {
                        names.forEach(name => caches.delete(name));
                    });
                }"#;

/// Makes an element load only when it comes into view.
pub const LAZY_LOADING: &'static str = ".loading = 'lazy';";

/// Makes an image decode off the main path.
pub const ASYNC_DECODING: &'static str = ".decoding = 'async';";

/// Switches an element's animation off.
pub const NO_ANIMATION: &'static str = "el.style.animation = 'none';";

/// Switches an element's transition off.
pub const NO_TRANSITION: &'static str = "el.style.transition = 'none';";

/// Stops a video.
pub const STOP_VIDEO: &'static str = "v.pause();";

/// Stops an audio element.
pub const STOP_AUDIO: &'static str = "a.pause();";

/// Suspends a running audio context.
pub const SUSPEND_AUDIO: &'static str = "ctx.suspend();";

/// Takes a video's source away.
pub const UNLOAD_VIDEO: &'static str = "v.src = '';";

/// Takes an audio element's source away.
pub const UNLOAD_AUDIO: &'static str = "a.src = '';";

/// Empties the page's local storage.
pub const LOCAL_STORAGE_CLEARING: &'static str = "localStorage.clear();";

/// Empties the page's session storage.
pub const SESSION_STORAGE_CLEARING: &'static str = "sessionStorage.clear();";

/// Reads the size of the heap that the page's scripts use.
pub const MEMORY_SAMPLE: &'static str = "performance.memory.usedJSHeapSize";

/// The booster's script asks for a collection, clears the page caches, and
/// makes images load lazily and decode off the main path. It is not empty.
///
/// As above, the proof writes the script out once more.
pub proof fn booster_instructions()
    ensures
        occurs_in(BOOSTER_SCRIPT@, GC_HINT@),
        occurs_in(BOOSTER_SCRIPT@, CACHE_CLEARING@),
        occurs_in(BOOSTER_SCRIPT@, LAZY_LOADING@),
        occurs_in(BOOSTER_SCRIPT@, ASYNC_DECODING@),
        BOOSTER_SCRIPT@.len() > 0,
{
    reveal_strlit(r#"
            (function() {
                setInterval(() => {
                    if (window.gc) window.gc();
                }, 30000);
                
                if ('caches' in window) {
                    caches.keys().then(names => {
                        names.forEach(name => caches.delete(name));
                    });
                }
                
                document.querySelectorAll('img').forEach(img => {
                    img.loading = 'lazy';
                    img.decoding = 'async';
                });
                
                console.log('Booster mode active');
            })();
            "#);
    reveal_strlit("if (window.gc) window.gc();");
    reveal_strlit(r#"if ('caches' in window) {
                    caches.keys().then(names => {
                        names.forEach(name => caches.delete(name));
                    });
                }"#);
    reveal_strlit(".loading = 'lazy';");
    reveal_strlit(".decoding = 'async';");
    found_at(BOOSTER_SCRIPT@, GC_HINT@, 83);
    found_at(BOOSTER_SCRIPT@, CACHE_CLEARING@, 171);
    found_at(BOOSTER_SCRIPT@, LAZY_LOADING@, 463);
    found_at(BOOSTER_SCRIPT@, ASYNC_DECODING@, 505);
}

/// The ultimate boost's script holds every instruction of the booster's,
/// and beside them those that switch animations and transitions off, stop
/// and unload video and audio, suspend a running audio context, empty the
/// page's storage and sample its memory. It is not empty.
///
/// As above, the proof writes the script out once more.
pub proof fn ultimate_boost_covers_booster()
    ensures
        occurs_in(ULTIMATE_BOOST_SCRIPT@, GC_HINT@),
        occurs_in(ULTIMATE_BOOST_SCRIPT@, CACHE_CLEARING@),
        occurs_in(ULTIMATE_BOOST_SCRIPT@, LAZY_LOADING@),
        occurs_in(ULTIMATE_BOOST_SCRIPT@, ASYNC_DECODING@),
        occurs_in(ULTIMATE_BOOST_SCRIPT@, NO_ANIMATION@),
        occurs_in(ULTIMATE_BOOST_SCRIPT@, NO_TRANSITION@),
        occurs_in(ULTIMATE_BOOST_SCRIPT@, STOP_VIDEO@),
        occurs_in(ULTIMATE_BOOST_SCRIPT@, STOP_AUDIO@),
        occurs_in(ULTIMATE_BOOST_SCRIPT@, SUSPEND_AUDIO@),
        occurs_in(ULTIMATE_BOOST_SCRIPT@, UNLOAD_VIDEO@),
        occurs_in(ULTIMATE_BOOST_SCRIPT@, UNLOAD_AUDIO@),
        occurs_in(ULTIMATE_BOOST_SCRIPT@, LOCAL_STORAGE_CLEARING@),
        occurs_in(ULTIMATE_BOOST_SCRIPT@, SESSION_STORAGE_CLEARING@),
        occurs_in(ULTIMATE_BOOST_SCRIPT@, MEMORY_SAMPLE@),
        ULTIMATE_BOOST_SCRIPT@.len() > 0,
{
    reveal_strlit(r#"
            (function() {
                console.log('ðŸš€ ULTIMATE BOOST: Aggressive Memory Optimization');
                
                // Force garbage collection every 2 seconds
                setInterval(() => {
                    if (window.gc) {
                        window.gc();
                        console.log('ðŸ§¹ GC');
                    }
                }, 2000);
                
                // Disable hardware acceleration
                const canvas = document.createElement('canvas');
                const ctx = canvas.getContext('2d');
                if (ctx) ctx.canvas.width = 0;
                
                // Remove all animations
                document.querySelectorAll('*').forEach(el => {
                    const style = window.getComputedStyle(el);
                    if (style.animation || style.transition) {
                        el.style.animation = 'none';
                        el.style.transition = 'none';
                    }
                });
                
                // Lazy load everything
                document.querySelectorAll('img, iframe').forEach(el => {
                    el.loading = 'lazy';
                    if (el.tagName === 'IMG') el.decoding = 'async';
                });
                
                // Stop all videos
                document.querySelectorAll('video').forEach(v => {
                    v.pause();
                    v.src = '';
                });
                
                // Reduce audio
                document.querySelectorAll('audio').forEach(a => {
                    a.pause();
                    a.src = '';
                });
                
                // Kill background sounds
                const AudioContext = window.AudioContext || window.webkitAudioContext;
                if (AudioContext) {
                    const ctx = new AudioContext();
                    if (ctx.state === 'running') ctx.suspend();
                }
                
                // Clear event listeners on unused elements
                const walker = document.createTreeWalker(
                    document.body,
                    NodeFilter.SHOW_ELEMENT,
                    null,
                    false
                );
                
                let node;
                let count = 0;
                while (node = walker.nextNode()) {
                    if (count++ % 100 === 0) {
                        if (window.gc) window.gc();
                    }
                }
                
                // Monitor memory
                setInterval(() => {
                    if (performance.memory) {
                        const mb = (performance.memory.usedJSHeapSize / 1048576).toFixed(1);
                        console.log(`ðŸ“Š Memory: ${mb}MB`);
                    }
                }, 5000);
                
                // Clear the page caches
                if ('caches' in window) {
                    caches.keys().then(names => {
                        names.forEach(name => caches.delete(name));
                    });
                }
                
                // Clear local storage periodically
                setInterval(() => {
                    try {
                        localStorage.clear();
                        sessionStorage.clear();
                    } catch(e) {}
                }, 10000);
                
                console.log('âœ… Ultimate Boost: Memory at MINIMUM');
            })();
            "#);
    reveal_strlit("if (window.gc) window.gc();");
    reveal_strlit(r#"if ('caches' in window) {
                    caches.keys().then(names => {
                        names.forEach(name => caches.delete(name));
                    });
                }"#);
    reveal_strlit(".loading = 'lazy';");
    reveal_strlit(".decoding = 'async';");
    reveal_strlit("el.style.animation = 'none';");
    reveal_strlit("el.style.transition = 'none';");
    reveal_strlit("v.pause();");
    reveal_strlit("a.pause();");
    reveal_strlit("ctx.suspend();");
    reveal_strlit("v.src = '';");
    reveal_strlit("a.src = '';");
    reveal_strlit("localStorage.clear();");
    reveal_strlit("sessionStorage.clear();");
    reveal_strlit("performance.memory.usedJSHeapSize");
    found_at(ULTIMATE_BOOST_SCRIPT@, GC_HINT@, 2478);
    found_at(ULTIMATE_BOOST_SCRIPT@, CACHE_CLEARING@, 2955);
    found_at(ULTIMATE_BOOST_SCRIPT@, LAZY_LOADING@, 1173);
    found_at(ULTIMATE_BOOST_SCRIPT@, ASYNC_DECODING@, 1240);
    found_at(ULTIMATE_BOOST_SCRIPT@, NO_ANIMATION@, 896);
    found_at(ULTIMATE_BOOST_SCRIPT@, NO_TRANSITION@, 949);
    found_at(ULTIMATE_BOOST_SCRIPT@, STOP_VIDEO@, 1419);
    found_at(ULTIMATE_BOOST_SCRIPT@, STOP_AUDIO@, 1617);
    found_at(ULTIMATE_BOOST_SCRIPT@, SUSPEND_AUDIO@, 1963);
    found_at(ULTIMATE_BOOST_SCRIPT@, UNLOAD_VIDEO@, 1450);
    found_at(ULTIMATE_BOOST_SCRIPT@, UNLOAD_AUDIO@, 1648);
    found_at(ULTIMATE_BOOST_SCRIPT@, LOCAL_STORAGE_CLEARING@, 3296);
    found_at(ULTIMATE_BOOST_SCRIPT@, SESSION_STORAGE_CLEARING@, 3342);
    found_at(ULTIMATE_BOOST_SCRIPT@, MEMORY_SAMPLE@, 2715);
}

} // verus!
