//! The messages that the user interface sends, and what each of them does.

use vstd::prelude::*;
use crate::address::{classify, classify_spec, opt_view, NEW_TAB_URL};
use crate::browser_core::{BrowserCore, CoreView};
use crate::text::same_text;

verus! {

/// A message as it arrives: its type and the fields that may come with it.
pub struct Message {
    pub kind: String,
    pub url: Option<String>,
    pub id: Option<i64>,
    pub enabled: Option<bool>,
}

/// What a message asks for.
pub enum Command {
    /// Go to what was typed.
    Navigate(String),
    /// Open a tab with the new-tab page.
    NewTab,
    /// Close the tab with this id.
    CloseTab(i64),
    /// Switch the ultimate boost on or off.
    BoostMode(bool),
    /// Open the developer tools.
    InspectElement,
    /// A message of an unknown type, or one without the field it needs.
    Ignored,
}

/// What the window has to do once the state has changed.
pub enum Action {
    /// Nothing.
    Nothing,
    /// Load this address.
    Load(String),
    /// Open the developer tools.
    OpenDevTools,
}

/// A command with its text as a mathematical value.
pub enum CommandView {
    Navigate(Seq<char>),
    NewTab,
    CloseTab(int),
    BoostMode(bool),
    InspectElement,
    Ignored,
}

impl View for Command {
    type V = CommandView;

    open spec fn view(&self) -> CommandView {
        match *self {
            Command::Navigate(url) => CommandView::Navigate(url@),
            Command::NewTab => CommandView::NewTab,
            Command::CloseTab(id) => CommandView::CloseTab(id as int),
            Command::BoostMode(on) => CommandView::BoostMode(on),
            Command::InspectElement => CommandView::InspectElement,
            Command::Ignored => CommandView::Ignored,
        }
    }
}

/// What a message asks for, by its type. A message of an unknown type, or
/// without the field that its type needs, asks for nothing.
pub open spec fn decode_spec(
    kind: Seq<char>,
    url: Option<Seq<char>>,
    id: Option<i64>,
    enabled: Option<bool>,
) -> CommandView {
    if kind == "navigate"@ {
        match url {
            Some(u) => CommandView::Navigate(u),
            None => CommandView::Ignored,
        }
    } else if kind == "new_tab"@ {
        CommandView::NewTab
    } else if kind == "close_tab"@ {
        match id {
            Some(i) => CommandView::CloseTab(i as int),
            None => CommandView::Ignored,
        }
    } else if kind == "inspect_element"@ {
        CommandView::InspectElement
    } else if kind == "boost_mode"@ {
        match enabled {
            Some(on) => CommandView::BoostMode(on),
            None => CommandView::Ignored,
        }
    } else {
        CommandView::Ignored
    }
}

/// Reads a message.
pub fn decode(message: Message) -> (r: Command)
    ensures
        r@ == decode_spec(message.kind@, opt_view(message.url), message.id, message.enabled),
{
    let kind = message.kind.as_str();
    if same_text(kind, "navigate") {
        match message.url {
            Some(u) => Command::Navigate(u),
            None => Command::Ignored,
        }
    } else if same_text(kind, "new_tab") {
        Command::NewTab
    } else if same_text(kind, "close_tab") {
        match message.id {
            Some(i) => Command::CloseTab(i),
            None => Command::Ignored,
        }
    } else if same_text(kind, "inspect_element") {
        Command::InspectElement
    } else if same_text(kind, "boost_mode") {
        match message.enabled {
            Some(on) => Command::BoostMode(on),
            None => Command::Ignored,
        }
    } else {
        Command::Ignored
    }
}

impl CoreView {
    /// The state after a command. Navigation changes no state; a new tab
    /// shows the new-tab page, and is not opened once the ids have run out;
    /// a tab id below zero names no tab.
    pub open spec fn after(self, command: CommandView) -> CoreView {
        match command {
            CommandView::NewTab => if self.registry.next_id < usize::MAX {
                self.create_tab(NEW_TAB_URL@)
            } else {
                self
            },
            CommandView::CloseTab(id) => if id >= 0 {
                self.close_tab(id as nat)
            } else {
                self
            },
            CommandView::BoostMode(on) => self.set_ultimate_boost(on),
            _ => self,
        }
    }

    /// No command breaks the state's invariant.
    pub proof fn after_keeps_wf(self, command: CommandView)
        requires
            self.wf(),
        ensures
            self.after(command).wf(),
    {
        match command {
            CommandView::NewTab => {
                self.registry.open_keeps_wf(NEW_TAB_URL@);
            },
            CommandView::CloseTab(id) => {
                if id >= 0 {
                    self.registry.close_keeps_wf(id as nat);
                }
            },
            _ => {},
        }
    }
}

impl BrowserCore {
    /// Carries out a command and tells the window what is left for it to
    /// do: to load the target of a navigation, to open the developer tools,
    /// or nothing.
    pub fn apply(&mut self, command: &Command) -> (action: Action)
        requires
            old(self).wf(),
        ensures
            final(self).wf(),
            final(self)@ == old(self)@.after(command@),
            match action {
                Action::Load(target) => command@ matches CommandView::Navigate(typed)
                    && target@ == classify_spec(typed).0,
                Action::OpenDevTools => command@ is InspectElement,
                Action::Nothing => !(command@ is Navigate) && !(command@ is InspectElement),
            },
    {
        match command {
            Command::Navigate(typed) => {
                let (target, _) = classify(typed.as_str());
                Action::Load(target)
            },
            Command::NewTab => {
                let _ = self.try_create_tab(NEW_TAB_URL);
                Action::Nothing
            },
            Command::CloseTab(id) => {
                let id: i64 = *id;
                if id >= 0 {
                    if id as u64 <= usize::MAX as u64 {
                        self.close_tab(id as usize);
                    } else {
                        proof {
                            old(self).id_out_of_reach(id as nat);
                        }
                    }
                }
                Action::Nothing
            },
            Command::BoostMode(on) => {
                self.set_ultimate_boost_enabled(*on);
                Action::Nothing
            },
            Command::InspectElement => Action::OpenDevTools,
            Command::Ignored => Action::Nothing,
        }
    }
}

} // verus!
