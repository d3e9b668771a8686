//! Chooses between the native Flash plugin and the Ruffle emulator.

use vstd::prelude::*;
use vstd::string::StringExecFns;
use crate::address::opt_view;
use crate::scripts::{
    flash_instructions, EMBED_SWAP, EMULATOR_SOURCE, FLASH_EMBEDS, LOAD_FAILURE,
    NATIVE_FLASH_SCRIPT, NATIVE_SIGNAL, RUFFLE_SCRIPT,
};
use crate::text::occurs_in;

verus! {

/// Status text when the native plugin was found.
pub const NATIVE_STATUS: &'static str = "Native Flash";

/// Status text when the emulator stands in for the plugin.
pub const EMULATED_STATUS: &'static str = "Ruffle Emulator";

/// The places where the native plugin is looked for, in this order.
pub open spec fn candidates() -> Seq<Seq<char>> {
    seq![
        "plugins/pepflashplayer32_32_0_0_465.dll"@,
        "plugins/libpepflashplayer.so"@,
        "/usr/lib/pepflashplayer.so"@,
        "/usr/local/lib/pepflashplayer.so"@,
    ]
}

/// The places where the native plugin is looked for, in this order.
pub fn candidate_paths() -> (r: Vec<&'static str>)
    ensures
        r@.len() == candidates().len(),
        forall|i: int| 0 <= i < r@.len() ==> r@[i]@ == candidates()[i],
{
    let mut r: Vec<&'static str> = Vec::new();
    r.push("plugins/pepflashplayer32_32_0_0_465.dll");
    r.push("plugins/libpepflashplayer.so");
    r.push("/usr/lib/pepflashplayer.so");
    r.push("/usr/local/lib/pepflashplayer.so");
    r
}

/// The first place in `present` that holds `true`, if any does.
pub open spec fn first_true(present: Seq<bool>) -> Option<int> {
    if exists|i: int| 0 <= i < present.len() && present[i] {
        Some(choose|i: int| 0 <= i < present.len() && present[i] && forall|j: int| 0 <= j < i ==> !present[j])
    } else {
        None
    }
}

/// The candidate that wins when `present` tells, place by place, which
/// candidates exist: the first that does. Answers beyond the list of
/// candidates are not looked at.
pub open spec fn chosen_plugin(present: Seq<bool>) -> Option<Seq<char>> {
    let n = if present.len() < candidates().len() {
        present.len()
    } else {
        candidates().len()
    };
    match first_true(present.take(n as int)) {
        Some(i) => Some(candidates()[i]),
        None => None,
    }
}

/// The first `true` is at `i` when `i` holds `true` and nothing before it
/// does.
pub proof fn first_true_is(present: Seq<bool>, i: int)
    requires
        0 <= i < present.len(),
        present[i],
        forall|j: int| 0 <= j < i ==> !present[j],
    ensures
        first_true(present) == Some(i),
{
    let k = choose|k: int|
        0 <= k < present.len() && present[k] && forall|j: int| 0 <= j < k ==> !present[j];
    if k < i {
        assert(!present[k]);
    } else if i < k {
        assert(!present[i]);
    }
}

/// Calls `std::path::Path::exists` on `path`. What it returns depends on the
/// file system at the moment of the call, so nothing is claimed of it.
#[verifier::external_body]
pub(crate) fn path_exists(path: &str) -> bool {
    std::path::Path::new(path).exists()
}

/// Which plugin path was chosen, whether the emulator is used, and whether
/// Flash support is switched on.
pub struct FlashView {
    pub plugin: Option<Seq<char>>,
    pub emulated: bool,
    pub enabled: bool,
}

/// Flash support: the native plugin where one was found, else the emulator.
/// The choice is made once, when the handler is built.
pub struct FlashHandler {
    plugin_path: Option<String>,
    use_ruffle: bool,
    pub enabled: bool,
}

impl View for FlashHandler {
    type V = FlashView;

    closed spec fn view(&self) -> FlashView {
        FlashView {
            plugin: opt_view(self.plugin_path),
            emulated: self.use_ruffle,
            enabled: self.enabled,
        }
    }
}

impl FlashView {
    /// The emulator is used exactly when no plugin was found.
    pub open spec fn wf(self) -> bool {
        self.emulated <==> self.plugin is None
    }

    /// The script that goes to the page.
    pub open spec fn script(self) -> Seq<char> {
        if !self.enabled {
            Seq::empty()
        } else if self.emulated {
            RUFFLE_SCRIPT@
        } else {
            NATIVE_FLASH_SCRIPT@
        }
    }

    /// The words that describe the state.
    pub open spec fn status(self) -> Seq<char> {
        if self.plugin is Some {
            NATIVE_STATUS@
        } else {
            EMULATED_STATUS@
        }
    }
}

/// Where no candidate exists, none is chosen.
pub proof fn nothing_present_nothing_chosen(present: Seq<bool>)
    requires
        forall|i: int| 0 <= i < present.len() ==> !present[i],
    ensures
        chosen_plugin(present) is None,
{
}

impl FlashView {
    /// Without a plugin the state is the emulated one: the status names the
    /// emulator, and the script is the emulator's while Flash support is
    /// switched on: it loads the emulator from its address and swaps the
    /// page's Flash embeddings. Switched off, the script is empty in either
    /// state.
    pub proof fn emulated_without_plugin(self)
        requires
            self.wf(),
        ensures
            self.plugin is None ==> self.status() == EMULATED_STATUS@,
            self.plugin is None && self.enabled ==> self.script() == RUFFLE_SCRIPT@,
            self.plugin is Some ==> self.status() == NATIVE_STATUS@,
            self.plugin is Some && self.enabled ==> self.script() == NATIVE_FLASH_SCRIPT@,
            !self.enabled ==> self.script() == Seq::<char>::empty(),
            self.enabled ==> self.script().len() > 0,
            self.plugin is None && self.enabled ==> {
                &&& occurs_in(self.script(), EMULATOR_SOURCE@)
                &&& occurs_in(self.script(), FLASH_EMBEDS@)
                &&& occurs_in(self.script(), EMBED_SWAP@)
                &&& occurs_in(self.script(), LOAD_FAILURE@)
            },
            self.plugin is Some && self.enabled ==> occurs_in(self.script(), NATIVE_SIGNAL@),
    {
        flash_instructions();
    }
}

impl FlashHandler {
    /// The handler's invariant, stated on its view.
    pub open spec fn wf(&self) -> bool {
        self@.wf()
    }

    /// A handler for a known outcome of the search: native where a path is
    /// given, emulated where none is. Flash support starts switched on.
    pub fn with_plugin(plugin_path: Option<String>) -> (r: FlashHandler)
        ensures
            r.wf(),
            r@ == (FlashView {
                plugin: opt_view(plugin_path),
                emulated: plugin_path is None,
                enabled: true,
            }),
    {
        let use_ruffle = plugin_path.is_none();
        FlashHandler { plugin_path, use_ruffle, enabled: true }
    }

    /// A handler for a known outcome of probing the candidates in order:
    /// `present` says of each whether it exists.
    pub fn from_probe(present: &Vec<bool>) -> (r: FlashHandler)
        ensures
            r.wf(),
            r@.plugin == chosen_plugin(present@),
            r@.emulated == (chosen_plugin(present@) is None),
            r@.enabled,
    {
        FlashHandler::with_plugin(choose_plugin(present))
    }

    /// Looks for the native plugin on this machine and builds the handler
    /// for what was found.
    pub fn new() -> (r: FlashHandler)
        ensures
            r.wf(),
            r@.enabled,
            r@.plugin matches Some(p) ==> candidates().contains(p),
    {
        FlashHandler::with_plugin(FlashHandler::find_flash_plugin())
    }

    /// Probes the candidates in order, up to the first that exists, and
    /// returns that one.
    pub fn find_flash_plugin() -> (r: Option<String>)
        ensures
            r matches Some(p) ==> candidates().contains(p@),
    {
        let paths = candidate_paths();
        let mut present: Vec<bool> = Vec::new();
        let mut found: bool = false;
        while !found && present.len() < paths.len()
            invariant
                present@.len() <= paths@.len(),
            decreases paths@.len() - present@.len(),
        {
            found = path_exists(paths[present.len()]);
            present.push(found);
        }
        choose_plugin(&present)
    }

    /// Switches Flash support on or off. The choice between plugin and
    /// emulator stays as it was made.
    pub fn set_enabled(&mut self, enabled: bool)
        ensures
            final(self)@ == (FlashView { enabled, ..old(self)@ }),
    {
        self.enabled = enabled;
    }

    /// The script that gives the page Flash support; empty while Flash
    /// support is switched off.
    pub fn get_injection_script(&self) -> (r: String)
        ensures
            r@ == self@.script(),
            !self@.enabled ==> r@.len() == 0,
    {
        if !self.enabled {
            return String::new();
        }
        if self.use_ruffle {
            String::from_str(RUFFLE_SCRIPT)
        } else {
            String::from_str(NATIVE_FLASH_SCRIPT)
        }
    }

    /// Names the state in words.
    pub fn status(&self) -> (r: String)
        ensures
            r@ == self@.status(),
    {
        if self.plugin_path.is_some() {
            String::from_str(NATIVE_STATUS)
        } else {
            String::from_str(EMULATED_STATUS)
        }
    }
}

/// The candidate that wins for a known outcome of the probes.
pub fn choose_plugin(present: &Vec<bool>) -> (r: Option<String>)
    ensures
        opt_view(r) == chosen_plugin(present@),
        r matches Some(p) ==> candidates().contains(p@),
{
    let paths = candidate_paths();
    let n = if present.len() < paths.len() {
        present.len()
    } else {
        paths.len()
    };
    let ghost cut = present@.take(n as int);
    let mut i: usize = 0;
    while i < n
        invariant
            i <= n,
            n <= present@.len(),
            n <= paths@.len(),
            cut == present@.take(n as int),
            paths@.len() == candidates().len(),
            forall|j: int| 0 <= j < paths@.len() ==> paths@[j]@ == candidates()[j],
            forall|j: int| 0 <= j < i ==> !cut[j],
        decreases n - i,
    {
        if present[i] {
            let found = String::from_str(paths[i]);
            proof {
                assert(cut[i as int]);
                first_true_is(cut, i as int);
                assert(candidates()[i as int] == found@);
            }
            return Some(found);
        }
        assert(!cut[i as int]);
        i += 1;
    }
    None
}

} // verus!
