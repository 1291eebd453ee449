use vstd::prelude::*;
use vstd::string::*;

use crate::app::{self, Shortcut};

verus! {

/// Whether the settings window is capturing a new toggle shortcut.
#[derive(Debug, PartialEq, Eq)]
pub enum ShortcutSelectionState {
    /// Capturing; the shortcut held is the one that leaving would commit.
    Listening(Shortcut),
    NotListening,
}

/// The state of the settings window.
#[derive(Debug, PartialEq, Eq)]
pub struct State {
    pub toggle_shortcut: Shortcut,
    pub shortcut_selection_state: ShortcutSelectionState,
}

/// What the settings window asks of its own state.
#[derive(Clone, Debug, PartialEq, Eq)]
pub enum Message {
    /// A key was struck in the window, with the modifiers then held.
    NewShortcutInput(Shortcut),
    /// The shortcut button was pressed.
    ToggleShortcutSelection,
}

impl State {
    /// A freshly opened settings window showing `toggle_shortcut`.
    pub open spec fn initial(toggle_shortcut: Shortcut) -> State {
        State { toggle_shortcut, shortcut_selection_state: ShortcutSelectionState::NotListening }
    }

    /// The state after `message`, and the request that it hands to the
    /// application. While listening, every key struck replaces the pending
    /// shortcut. The button enters listening with the current shortcut
    /// pending; pressed again, it commits the pending one, here and for the
    /// whole application.
    pub open spec fn after(self, message: Message) -> (State, Option<app::Message>) {
        match message {
            Message::NewShortcutInput(new_shortcut) => match self.shortcut_selection_state {
                ShortcutSelectionState::Listening(_) => (
                    State {
                        shortcut_selection_state: ShortcutSelectionState::Listening(new_shortcut),
                        ..self
                    },
                    None,
                ),
                ShortcutSelectionState::NotListening => (self, None),
            },
            Message::ToggleShortcutSelection => match self.shortcut_selection_state {
                ShortcutSelectionState::Listening(pending) => (
                    State {
                        toggle_shortcut: pending,
                        shortcut_selection_state: ShortcutSelectionState::NotListening,
                    },
                    Some(app::Message::UpdateToggleShortcut(pending)),
                ),
                ShortcutSelectionState::NotListening => (
                    State {
                        shortcut_selection_state: ShortcutSelectionState::Listening(
                            self.toggle_shortcut,
                        ),
                        ..self
                    },
                    None,
                ),
            },
        }
    }

    pub fn new(toggle_shortcut: Shortcut) -> (r: State)
        ensures
            r == State::initial(toggle_shortcut),
    {
        State { toggle_shortcut, shortcut_selection_state: ShortcutSelectionState::NotListening }
    }

    /// Handles one event of the settings window.
    pub fn update(&mut self, message: Message) -> (r: Option<app::Message>)
        ensures
            (*final(self), r) == old(self).after(message),
    {
        match message {
            Message::NewShortcutInput(new_shortcut) => {
                if let ShortcutSelectionState::Listening(_) = self.shortcut_selection_state {
                    self.shortcut_selection_state = ShortcutSelectionState::Listening(
                        new_shortcut,
                    );
                }
                None
            },
            Message::ToggleShortcutSelection => {
                let mut previous = ShortcutSelectionState::NotListening;
                std::mem::swap(&mut self.shortcut_selection_state, &mut previous);
                match previous {
                    ShortcutSelectionState::Listening(pending) => {
                        self.toggle_shortcut = pending.duplicate();
                        Some(app::Message::UpdateToggleShortcut(pending))
                    },
                    ShortcutSelectionState::NotListening => {
                        self.shortcut_selection_state = ShortcutSelectionState::Listening(
                            self.toggle_shortcut.duplicate(),
                        );
                        None
                    },
                }
            },
        }
    }
}

/// `name` when `on`, else nothing.
pub open spec fn flag_text(on: bool, name: Seq<char>) -> Seq<char> {
    if on {
        name
    } else {
        Seq::empty()
    }
}

/// How a shortcut is shown: each held modifier in the order SHIFT, CTRL, ALT,
/// LOGO, each followed by " + ", then the key's label ("CTRL + ALT + K").
pub open spec fn shortcut_text(shortcut: Shortcut) -> Seq<char> {
    flag_text(shortcut.modifiers.shift, "SHIFT + "@) + flag_text(
        shortcut.modifiers.ctrl,
        "CTRL + "@,
    ) + flag_text(shortcut.modifiers.alt, "ALT + "@) + flag_text(
        shortcut.modifiers.meta,
        "LOGO + "@,
    ) + shortcut.logical_key@
}

/// The label of a shortcut for display.
pub fn shortcut_string(shortcut: &Shortcut) -> (r: String)
    ensures
        r@ == shortcut_text(*shortcut),
{
    let mut text = String::new();
    if shortcut.modifiers.shift {
        text.append("SHIFT + ");
    }
    if shortcut.modifiers.ctrl {
        text.append("CTRL + ");
    }
    if shortcut.modifiers.alt {
        text.append("ALT + ");
    }
    if shortcut.modifiers.meta {
        text.append("LOGO + ");
    }
    text.append(shortcut.logical_key.as_str());
    text
}

} // verus!
