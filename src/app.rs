use vstd::prelude::*;

use crate::entry::Entry;
use crate::keys::{GlobalEvent, Key, ModifierSet};
use crate::utils::{iced_event_to_shortcut, shortcut_of};
use crate::window::{history, settings, Window};

verus! {

/// Identifies a platform window that the application opened.
pub type WindowId = u64;

/// A keyboard shortcut: the modifiers held, the physical key struck, and the
/// key's label for display.
#[derive(Clone, Debug, PartialEq, Eq)]
pub struct Shortcut {
    pub modifiers: ModifierSet,
    pub logical_key: String,
    pub key: Key,
}

impl Shortcut {
    /// The shortcut fires on a press of its key while exactly its modifiers
    /// are held: an extra modifier held stops it.
    pub open spec fn fires(self, modifiers: ModifierSet, event: GlobalEvent) -> bool {
        event == GlobalEvent::KeyPress(self.key) && modifiers == self.modifiers
    }

    /// Whether `event`, with `modifiers` held after it, fires this shortcut.
    pub fn is_triggered_by(&self, modifiers: ModifierSet, event: &GlobalEvent) -> (r: bool)
        ensures
            r == self.fires(modifiers, *event),
    {
        match *event {
            GlobalEvent::KeyPress(k) => k == self.key && modifiers == self.modifiers,
            _ => false,
        }
    }

    /// A copy of this shortcut, equal to it.
    pub fn duplicate(&self) -> (r: Shortcut)
        ensures
            r == *self,
    {
        Shortcut { modifiers: self.modifiers, logical_key: self.logical_key.clone(), key: self.key }
    }

    /// The toggle shortcut that the application starts with: Alt+F9.
    pub fn default_toggle() -> (r: Shortcut)
        ensures
            r.modifiers == (ModifierSet { ctrl: false, alt: true, shift: false, meta: false }),
            r.key == Key::F9,
            r.logical_key@ == "F9"@,
    {
        Shortcut {
            modifiers: ModifierSet { ctrl: false, alt: true, shift: false, meta: false },
            logical_key: "F9".to_owned(),
            key: Key::F9,
        }
    }
}

/// An event that a window of the application received while it had focus.
#[derive(Clone, Debug, PartialEq, Eq)]
pub enum WindowEvent {
    /// A key was pressed: its physical key, the modifiers held, its label.
    KeyPressed { key: Key, modifiers: ModifierSet, logical_key: String },
    /// The window lost the focus.
    Unfocused,
    Other,
}

/// What the application reacts to.
#[derive(Clone, Debug, PartialEq, Eq)]
pub enum Message {
    /// A raw event of the input hook, with the modifiers held after it.
    GlobalEvent(ModifierSet, GlobalEvent),
    /// An event that a window of the application received.
    AppEvent(WindowId, WindowEvent),
    /// Close this window.
    RequestWindowClose(WindowId),
    /// The platform closed this window.
    WindowClose(WindowId),
    /// This window lost the focus.
    LooseFocus(WindowId),
    /// A fatal failure, with its description.
    Panic(String),
    ExitApp,
    /// The clipboard changed; its text, or `None` if it could not be read.
    ClipboardEvent(Option<String>),
    /// Paste this record into the application that had the focus.
    RequestPaste(Entry),
    RequestOpenHistoryWindow,
    RequestCloseHistoryWindow,
    /// The records for the history popup with this id have been loaded.
    HistoryWindowLoaded(WindowId, Vec<Entry>),
    HistoryWindowEvent(WindowId, history::Message),
    OpenSettingsWindow,
    SettingsWindowEvent(WindowId, settings::Message),
    /// Make this the toggle shortcut.
    UpdateToggleShortcut(Shortcut),
}

/// The two kinds of window.
#[derive(Clone, Copy, Debug, PartialEq, Eq, Structural)]
pub enum WindowKind {
    /// The history popup: fixed size, undecorated, always on top, centred,
    /// closed by the application and not by the platform's close request.
    History,
    /// The settings window: resizable and decorated.
    Settings,
}

/// Work that the application hands to its surroundings, in order.
#[derive(Clone, Debug, PartialEq, Eq)]
pub enum Action {
    /// Open a platform window of this kind under this id.
    OpenWindow(WindowId, WindowKind),
    /// Give this window the focus.
    FocusWindow(WindowId),
    /// Close this window.
    CloseWindow(WindowId),
    /// Load the records from storage and answer with `HistoryWindowLoaded`.
    LoadHistory(WindowId),
    /// Store this text as a new record.
    AddItem(String),
    /// Put this text on the clipboard.
    SetClipboard(String),
    /// Delete the record with this id from storage.
    DeleteItem(i32),
    /// Run the paste keystroke sequence.
    SimulatePaste,
    /// Report this fatal failure.
    Fatal(String),
    /// End the process.
    Exit,
}

/// The live windows and the active toggle shortcut. At most one window of
/// each kind is live; ids are handed out in increasing order.
#[derive(Debug)]
pub struct App {
    pub history_window: Option<(WindowId, history::State)>,
    pub settings_window: Option<(WindowId, settings::State)>,
    pub toggle_shortcut: Shortcut,
    pub next_window_id: WindowId,
}

impl App {
    pub open spec fn history_id(self) -> Option<WindowId> {
        match self.history_window {
            Some((id, _)) => Some(id),
            None => None,
        }
    }

    pub open spec fn settings_id(self) -> Option<WindowId> {
        match self.settings_window {
            Some((id, _)) => Some(id),
            None => None,
        }
    }

    /// Live ids were handed out before `next_window_id`, the two windows have
    /// distinct ids, and the history cursor stays in range.
    pub open spec fn wf(self) -> bool {
        &&& (self.history_id() matches Some(id) ==> id < self.next_window_id)
        &&& (self.settings_id() matches Some(id) ==> id < self.next_window_id)
        &&& (self.history_id() is Some && self.settings_id() is Some ==> self.history_id()
            != self.settings_id())
        &&& (self.history_window matches Some((_, state)) ==> state.wf())
    }

    /// The application at start: no window, `toggle_shortcut` active.
    pub open spec fn initial(toggle_shortcut: Shortcut) -> App {
        App { history_window: None, settings_window: None, toggle_shortcut, next_window_id: 0 }
    }

    /// Opening the history popup: only when none is live (and an id is left).
    /// It is opened, focused, put in `Loading`, and its records are asked for.
    pub open spec fn opened_history(self) -> (App, Seq<Action>) {
        if self.history_window is Some || self.next_window_id == u64::MAX {
            (self, seq![])
        } else {
            let id = self.next_window_id;
            (
                App {
                    history_window: Some((id, history::State::Loading)),
                    next_window_id: (id + 1) as u64,
                    ..self
                },
                seq![
                    Action::OpenWindow(id, WindowKind::History),
                    Action::FocusWindow(id),
                    Action::LoadHistory(id),
                ],
            )
        }
    }

    /// Closing the history popup removes it; with none live, nothing happens.
    pub open spec fn closed_history(self) -> (App, Seq<Action>) {
        match self.history_window {
            Some((id, _)) => (App { history_window: None, ..self }, seq![Action::CloseWindow(id)]),
            None => (self, seq![]),
        }
    }

    /// Opening the settings window, or focusing the one that is live.
    pub open spec fn opened_settings(self) -> (App, Seq<Action>) {
        match self.settings_window {
            Some((id, _)) => (self, seq![Action::FocusWindow(id)]),
            None => if self.next_window_id == u64::MAX {
                (self, seq![])
            } else {
                let id = self.next_window_id;
                (
                    App {
                        settings_window: Some(
                            (id, settings::State::initial(self.toggle_shortcut)),
                        ),
                        next_window_id: (id + 1) as u64,
                        ..self
                    },
                    seq![Action::OpenWindow(id, WindowKind::Settings), Action::FocusWindow(id)],
                )
            },
        }
    }

    /// Closing the window with this id, of whichever kind; an id that is not
    /// live changes nothing.
    pub open spec fn closed(self, id: WindowId) -> (App, Seq<Action>) {
        if self.history_id() == Some(id) {
            (App { history_window: None, ..self }, seq![Action::CloseWindow(id)])
        } else if self.settings_id() == Some(id) {
            (App { settings_window: None, ..self }, seq![Action::CloseWindow(id)])
        } else {
            (self, seq![])
        }
    }

    /// Forgetting the window with this id, which the platform already closed.
    pub open spec fn forgot(self, id: WindowId) -> App {
        App {
            history_window: if self.history_id() == Some(id) {
                None
            } else {
                self.history_window
            },
            settings_window: if self.settings_id() == Some(id) {
                None
            } else {
                self.settings_window
            },
            ..self
        }
    }

    /// Pasting a record: the popup closes first, then the clipboard is set to
    /// the record's text, the record is deleted, and the keystroke runs.
    pub open spec fn pasted(self, entry: Entry) -> (App, Seq<Action>) {
        let (app, actions) = self.closed_history();
        (
            app,
            actions + seq![
                Action::SetClipboard(entry.data),
                Action::DeleteItem(entry.id),
                Action::SimulatePaste,
            ],
        )
    }

    /// Records arriving for the popup with this id: taken only while that very
    /// popup is live and loading; otherwise they change nothing.
    pub open spec fn loaded(self, id: WindowId, items: Vec<Entry>) -> App {
        match self.history_window {
            Some((live, history::State::Loading)) => if live == id {
                App {
                    history_window: Some(
                        (id, history::State::Loaded { selected_item_cursor: 0, items }),
                    ),
                    ..self
                }
            } else {
                self
            },
            _ => self,
        }
    }

    /// An event of the history popup with this id, then the request it makes.
    pub open spec fn on_history_event(self, id: WindowId, message: history::Message) -> (
        App,
        Seq<Action>,
    ) {
        match self.history_window {
            Some((live, state)) => if live == id {
                let (next, request) = state.after(message);
                let app = App { history_window: Some((id, next)), ..self };
                match request {
                    Some(Message::RequestPaste(entry)) => app.pasted(entry),
                    Some(Message::OpenSettingsWindow) => app.opened_settings(),
                    _ => (app, seq![]),
                }
            } else {
                (self, seq![])
            },
            None => (self, seq![]),
        }
    }

    /// An event of the settings window with this id; a committed shortcut
    /// becomes the toggle shortcut at once.
    pub open spec fn on_settings_event(self, id: WindowId, message: settings::Message) -> (
        App,
        Seq<Action>,
    ) {
        match self.settings_window {
            Some((live, state)) => if live == id {
                let (next, request) = state.after(message);
                let app = App { settings_window: Some((id, next)), ..self };
                match request {
                    Some(Message::UpdateToggleShortcut(shortcut)) => (
                        App { toggle_shortcut: shortcut, ..app },
                        seq![],
                    ),
                    _ => (app, seq![]),
                }
            } else {
                (self, seq![])
            },
            None => (self, seq![]),
        }
    }

    /// An event received by the window with this id. In the history popup the
    /// toggle shortcut and Escape close it, losing the focus closes it, the
    /// arrow keys move the cursor and Return pastes. In the settings window
    /// every key press is a shortcut input. Other ids are ignored.
    pub open spec fn on_window_event(self, id: WindowId, event: WindowEvent) -> (App, Seq<Action>) {
        if self.history_id() == Some(id) {
            match event {
                WindowEvent::KeyPressed { key, modifiers, .. } => if key
                    == self.toggle_shortcut.key && modifiers == self.toggle_shortcut.modifiers {
                    self.closed_history()
                } else if key == Key::DownArrow {
                    self.on_history_event(id, history::Message::MoveHistoryCursor(1i32))
                } else if key == Key::UpArrow {
                    self.on_history_event(id, history::Message::MoveHistoryCursor(-1i32))
                } else if key == Key::Escape {
                    self.closed_history()
                } else if key == Key::Return {
                    self.on_history_event(id, history::Message::Paste)
                } else {
                    (self, seq![])
                },
                WindowEvent::Unfocused => self.closed_history(),
                WindowEvent::Other => (self, seq![]),
            }
        } else if self.settings_id() == Some(id) {
            match shortcut_of(event) {
                Some(shortcut) => self.on_settings_event(
                    id,
                    settings::Message::NewShortcutInput(shortcut),
                ),
                None => (self, seq![]),
            }
        } else {
            (self, seq![])
        }
    }

    /// The application after `message`, and the work it hands out, in order.
    pub open spec fn step(self, message: Message) -> (App, Seq<Action>) {
        match message {
            Message::GlobalEvent(modifiers, event) => if self.toggle_shortcut.fires(
                modifiers,
                event,
            ) {
                self.opened_history()
            } else {
                (self, seq![])
            },
            Message::AppEvent(id, event) => self.on_window_event(id, event),
            Message::RequestWindowClose(id) => self.closed(id),
            Message::WindowClose(id) => (self.forgot(id), seq![]),
            Message::LooseFocus(id) => if self.history_id() == Some(id) {
                self.closed_history()
            } else {
                (self, seq![])
            },
            Message::Panic(description) => (self, seq![Action::Fatal(description), Action::Exit]),
            Message::ExitApp => (self, seq![Action::Exit]),
            Message::ClipboardEvent(text) => match text {
                Some(text) => (self, seq![Action::AddItem(text)]),
                None => (self, seq![]),
            },
            Message::RequestPaste(entry) => self.pasted(entry),
            Message::RequestOpenHistoryWindow => self.opened_history(),
            Message::RequestCloseHistoryWindow => self.closed_history(),
            Message::HistoryWindowLoaded(id, items) => (self.loaded(id, items), seq![]),
            Message::HistoryWindowEvent(id, message) => self.on_history_event(id, message),
            Message::OpenSettingsWindow => self.opened_settings(),
            Message::SettingsWindowEvent(id, message) => self.on_settings_event(id, message),
            Message::UpdateToggleShortcut(shortcut) => (
                App { toggle_shortcut: shortcut, ..self },
                seq![],
            ),
        }
    }
}

impl App {
    /// The application at start: no window, Alt+F9 as toggle shortcut.
    pub fn new() -> (r: App)
        ensures
            r == App::initial(r.toggle_shortcut),
            r.wf(),
            r.toggle_shortcut.modifiers == (ModifierSet {
                ctrl: false,
                alt: true,
                shift: false,
                meta: false,
            }),
            r.toggle_shortcut.key == Key::F9,
            r.toggle_shortcut.logical_key@ == "F9"@,
    {
        App {
            history_window: None,
            settings_window: None,
            toggle_shortcut: Shortcut::default_toggle(),
            next_window_id: 0,
        }
    }

    fn is_history(&self, id: WindowId) -> (r: bool)
        ensures
            r == (self.history_id() == Some(id)),
    {
        match &self.history_window {
            Some((live, _)) => *live == id,
            None => false,
        }
    }

    fn is_settings(&self, id: WindowId) -> (r: bool)
        ensures
            r == (self.settings_id() == Some(id)),
    {
        match &self.settings_window {
            Some((live, _)) => *live == id,
            None => false,
        }
    }

    /// The id of the live history popup, if any.
    pub fn get_history_window_id(&self) -> (r: Option<WindowId>)
        ensures
            r == self.history_id(),
    {
        match &self.history_window {
            Some((id, _)) => Some(*id),
            None => None,
        }
    }

    /// The live window with this id, with its state.
    pub fn window(&self, id: WindowId) -> (r: Option<Window<'_>>)
        ensures
            match r {
                Some(Window::History(state)) => self.history_window == Some((id, *state)),
                Some(Window::Settings(state)) => self.settings_window == Some((id, *state)),
                None => self.history_id() != Some(id) && self.settings_id() != Some(id),
            },
    {
        match &self.history_window {
            Some((live, state)) => {
                if *live == id {
                    return Some(Window::History(state));
                }
            },
            None => {},
        }
        match &self.settings_window {
            Some((live, state)) => {
                if *live == id {
                    return Some(Window::Settings(state));
                }
            },
            None => {},
        }
        None
    }

    fn open_history(&mut self) -> (r: Vec<Action>)
        requires
            old(self).wf(),
        ensures
            final(self).wf(),
            (*final(self), r@) == old(self).opened_history(),
    {
        if self.history_window.is_some() || self.next_window_id == u64::MAX {
            return Vec::new();
        }
        let id = self.next_window_id;
        self.history_window = Some((id, history::State::Loading));
        self.next_window_id = id + 1;
        let r = vec![
            Action::OpenWindow(id, WindowKind::History),
            Action::FocusWindow(id),
            Action::LoadHistory(id),
        ];
        assert(r@ =~= seq![
            Action::OpenWindow(id, WindowKind::History),
            Action::FocusWindow(id),
            Action::LoadHistory(id),
        ]);
        r
    }

    fn close_history(&mut self) -> (r: Vec<Action>)
        requires
            old(self).wf(),
        ensures
            final(self).wf(),
            (*final(self), r@) == old(self).closed_history(),
    {
        match self.get_history_window_id() {
            Some(id) => self.close(id),
            None => Vec::new(),
        }
    }

    fn open_settings(&mut self) -> (r: Vec<Action>)
        requires
            old(self).wf(),
        ensures
            final(self).wf(),
            (*final(self), r@) == old(self).opened_settings(),
    {
        match &self.settings_window {
            Some((id, _)) => {
                let r = vec![Action::FocusWindow(*id)];
                assert(r@ =~= seq![Action::FocusWindow(*id)]);
                return r;
            },
            None => {},
        }
        if self.next_window_id == u64::MAX {
            return Vec::new();
        }
        let id = self.next_window_id;
        let state = settings::State::new(self.toggle_shortcut.duplicate());
        self.settings_window = Some((id, state));
        self.next_window_id = id + 1;
        let r = vec![Action::OpenWindow(id, WindowKind::Settings), Action::FocusWindow(id)];
        assert(r@ =~= seq![Action::OpenWindow(id, WindowKind::Settings), Action::FocusWindow(id)]);
        r
    }

    fn close(&mut self, id: WindowId) -> (r: Vec<Action>)
        requires
            old(self).wf(),
        ensures
            final(self).wf(),
            (*final(self), r@) == old(self).closed(id),
    {
        if self.is_history(id) {
            self.history_window = None;
        } else if self.is_settings(id) {
            self.settings_window = None;
        } else {
            return Vec::new();
        }
        let r = vec![Action::CloseWindow(id)];
        assert(r@ =~= seq![Action::CloseWindow(id)]);
        r
    }

    fn forget(&mut self, id: WindowId)
        requires
            old(self).wf(),
        ensures
            final(self).wf(),
            *final(self) == old(self).forgot(id),
    {
        if self.is_history(id) {
            self.history_window = None;
        }
        if self.is_settings(id) {
            self.settings_window = None;
        }
    }

    fn paste(&mut self, entry: Entry) -> (r: Vec<Action>)
        requires
            old(self).wf(),
        ensures
            final(self).wf(),
            (*final(self), r@) == old(self).pasted(entry),
    {
        let mut actions = self.close_history();
        let ghost closing = actions@;
        actions.push(Action::SetClipboard(entry.data));
        actions.push(Action::DeleteItem(entry.id));
        actions.push(Action::SimulatePaste);
        assert(actions@ =~= closing + seq![
            Action::SetClipboard(entry.data),
            Action::DeleteItem(entry.id),
            Action::SimulatePaste,
        ]);
        actions
    }

    fn load(&mut self, id: WindowId, items: Vec<Entry>)
        requires
            old(self).wf(),
        ensures
            final(self).wf(),
            *final(self) == old(self).loaded(id, items),
    {
        let loading = match &self.history_window {
            Some((live, history::State::Loading)) => *live == id,
            _ => false,
        };
        if loading {
            self.history_window = Some(
                (id, history::State::Loaded { selected_item_cursor: 0, items }),
            );
        }
    }

    fn history_event(&mut self, id: WindowId, message: history::Message) -> (r: Vec<Action>)
        requires
            old(self).wf(),
        ensures
            final(self).wf(),
            (*final(self), r@) == old(self).on_history_event(id, message),
    {
        if !self.is_history(id) {
            return Vec::new();
        }
        match self.history_window.take() {
            Some((live, mut state)) => {
                let request = state.update(message);
                self.history_window = Some((live, state));
                match request {
                    Some(Message::RequestPaste(entry)) => self.paste(entry),
                    Some(Message::OpenSettingsWindow) => self.open_settings(),
                    _ => Vec::new(),
                }
            },
            None => Vec::new(),
        }
    }

    fn settings_event(&mut self, id: WindowId, message: settings::Message) -> (r: Vec<Action>)
        requires
            old(self).wf(),
        ensures
            final(self).wf(),
            (*final(self), r@) == old(self).on_settings_event(id, message),
    {
        if !self.is_settings(id) {
            return Vec::new();
        }
        match self.settings_window.take() {
            Some((live, mut state)) => {
                let request = state.update(message);
                self.settings_window = Some((live, state));
                match request {
                    Some(Message::UpdateToggleShortcut(shortcut)) => {
                        self.toggle_shortcut = shortcut;
                    },
                    _ => {},
                }
                Vec::new()
            },
            None => Vec::new(),
        }
    }

    fn window_event(&mut self, id: WindowId, event: WindowEvent) -> (r: Vec<Action>)
        requires
            old(self).wf(),
        ensures
            final(self).wf(),
            (*final(self), r@) == old(self).on_window_event(id, event),
    {
        if self.is_history(id) {
            match event {
                WindowEvent::KeyPressed { key, modifiers, .. } => {
                    if key == self.toggle_shortcut.key && modifiers
                        == self.toggle_shortcut.modifiers {
                        self.close_history()
                    } else if key == Key::DownArrow {
                        self.history_event(id, history::Message::MoveHistoryCursor(1))
                    } else if key == Key::UpArrow {
                        self.history_event(id, history::Message::MoveHistoryCursor(-1))
                    } else if key == Key::Escape {
                        self.close_history()
                    } else if key == Key::Return {
                        self.history_event(id, history::Message::Paste)
                    } else {
                        Vec::new()
                    }
                },
                WindowEvent::Unfocused => self.close_history(),
                WindowEvent::Other => Vec::new(),
            }
        } else if self.is_settings(id) {
            match iced_event_to_shortcut(event) {
                Some(shortcut) => self.settings_event(
                    id,
                    settings::Message::NewShortcutInput(shortcut),
                ),
                None => Vec::new(),
            }
        } else {
            Vec::new()
        }
    }

    /// Handles one message: the state moves as `step` says, and the work to
    /// hand out comes back in order.
    pub fn update(&mut self, message: Message) -> (r: Vec<Action>)
        requires
            old(self).wf(),
        ensures
            final(self).wf(),
            (*final(self), r@) == old(self).step(message),
    {
        match message {
            Message::GlobalEvent(modifiers, event) => {
                if self.toggle_shortcut.is_triggered_by(modifiers, &event) {
                    self.open_history()
                } else {
                    Vec::new()
                }
            },
            Message::AppEvent(id, event) => self.window_event(id, event),
            Message::RequestWindowClose(id) => self.close(id),
            Message::WindowClose(id) => {
                self.forget(id);
                Vec::new()
            },
            Message::LooseFocus(id) => {
                if self.is_history(id) {
                    self.close_history()
                } else {
                    Vec::new()
                }
            },
            Message::Panic(description) => {
                let r = vec![Action::Fatal(description), Action::Exit];
                assert(r@ =~= seq![Action::Fatal(description), Action::Exit]);
                r
            },
            Message::ExitApp => {
                let r = vec![Action::Exit];
                assert(r@ =~= seq![Action::Exit]);
                r
            },
            Message::ClipboardEvent(text) => match text {
                Some(text) => {
                    let r = vec![Action::AddItem(text)];
                    assert(r@ =~= seq![Action::AddItem(text)]);
                    r
                },
                None => Vec::new(),
            },
            Message::RequestPaste(entry) => self.paste(entry),
            Message::RequestOpenHistoryWindow => self.open_history(),
            Message::RequestCloseHistoryWindow => self.close_history(),
            Message::HistoryWindowLoaded(id, items) => {
                self.load(id, items);
                Vec::new()
            },
            Message::HistoryWindowEvent(id, message) => self.history_event(id, message),
            Message::OpenSettingsWindow => self.open_settings(),
            Message::SettingsWindowEvent(id, message) => self.settings_event(id, message),
            Message::UpdateToggleShortcut(shortcut) => {
                self.toggle_shortcut = shortcut;
                Vec::new()
            },
        }
    }
}

/// The toggle shortcut opens the history popup exactly when the key pressed
/// and the modifiers held equal the shortcut's: with an extra modifier held,
/// or any other key, nothing opens.
pub proof fn lemma_toggle_opens_history_exactly(app: App, modifiers: ModifierSet, event: GlobalEvent)
    requires
        app.wf(),
        (app.history_window is None),
        app.next_window_id < u64::MAX,
    ensures
        app.step(Message::GlobalEvent(modifiers, event)).0.history_window is Some
            <==> app.toggle_shortcut.fires(modifiers, event),
        !app.toggle_shortcut.fires(modifiers, event) ==> app.step(
            Message::GlobalEvent(modifiers, event),
        ) == (app, Seq::<Action>::empty()),
{
}

/// Pasting from a history popup that has no selected record (empty, or still
/// loading) does nothing at all: no clipboard write, no deletion, no
/// keystroke, and the popup stays as it was.
pub proof fn lemma_paste_without_selection_is_noop(app: App, id: WindowId)
    requires
        app.wf(),
        (app.history_window matches Some((live, state)) && live == id && state.selected() is None),
    ensures
        app.step(Message::HistoryWindowEvent(id, history::Message::Paste)) == (
            app,
            Seq::<Action>::empty(),
        ),
{
}

/// Pasting the selected record closes the popup first, then puts the
/// record's text on the clipboard, deletes the record, and runs the keystroke.
pub proof fn lemma_paste_selected(app: App, id: WindowId)
    requires
        app.wf(),
        (app.history_window matches Some((live, state)) && live == id && state.selected() is Some),
    ensures
        ({
            let entry = app.history_window.unwrap().1.selected().unwrap();
            app.step(Message::HistoryWindowEvent(id, history::Message::Paste)) == (
                App { history_window: None, ..app },
                seq![
                    Action::CloseWindow(id),
                    Action::SetClipboard(entry.data),
                    Action::DeleteItem(entry.id),
                    Action::SimulatePaste,
                ],
            )
        }),
{
    let entry = app.history_window.unwrap().1.selected().unwrap();
    assert(seq![Action::CloseWindow(id)] + seq![
        Action::SetClipboard(entry.data),
        Action::DeleteItem(entry.id),
        Action::SimulatePaste,
    ] =~= seq![
        Action::CloseWindow(id),
        Action::SetClipboard(entry.data),
        Action::DeleteItem(entry.id),
        Action::SimulatePaste,
    ]);
}

/// Records addressed to a popup that is not live and loading change nothing.
pub proof fn lemma_stale_load_is_ignored(app: App, id: WindowId, items: Vec<Entry>)
    requires
        app.wf(),
        !(app.history_window matches Some((live, state)) && live == id && state is Loading),
    ensures
        app.step(Message::HistoryWindowLoaded(id, items)) == (app, Seq::<Action>::empty()),
{
}

/// Records that arrive after their popup was closed change nothing, neither
/// while no popup is live nor once a new popup has been opened.
pub proof fn lemma_load_after_close_is_ignored(app: App, items: Vec<Entry>)
    requires
        app.wf(),
        (app.history_window is Some),
    ensures
        ({
            let id = app.history_window.unwrap().0;
            let closed = app.step(Message::RequestCloseHistoryWindow).0;
            let reopened = closed.step(Message::RequestOpenHistoryWindow).0;
            &&& closed.step(Message::HistoryWindowLoaded(id, items)) == (
                closed,
                Seq::<Action>::empty(),
            )
            &&& reopened.step(Message::HistoryWindowLoaded(id, items)) == (
                reopened,
                Seq::<Action>::empty(),
            )
        }),
{
}

/// Closing a window by request is idempotent: a second request for the same
/// id changes nothing and hands out nothing.
pub proof fn lemma_close_request_idempotent(app: App, id: WindowId)
    requires
        app.wf(),
    ensures
        ({
            let once = app.step(Message::RequestWindowClose(id)).0;
            once.step(Message::RequestWindowClose(id)) == (once, Seq::<Action>::empty())
        }),
{
}

/// A close request and the platform's close event for one id leave the same
/// application, in either order and however often they repeat.
pub proof fn lemma_close_order_independent(app: App, id: WindowId)
    requires
        app.wf(),
    ensures
        ({
            let requested = app.step(Message::RequestWindowClose(id)).0;
            let forgotten = app.step(Message::WindowClose(id)).0;
            &&& requested.step(Message::WindowClose(id)) == (requested, Seq::<Action>::empty())
            &&& forgotten.step(Message::RequestWindowClose(id)) == (
                forgotten,
                Seq::<Action>::empty(),
            )
            &&& forgotten.step(Message::WindowClose(id)) == (forgotten, Seq::<Action>::empty())
            &&& requested == forgotten
        }),
{
}

/// Capturing a shortcut: in a settings window that is not listening, pressing
/// the shortcut button, striking a key with some modifiers held, and pressing
/// the button again makes that combination the toggle shortcut. It then fires
/// on that combination, and the previous shortcut, where it differs, no longer
/// fires.
pub proof fn lemma_shortcut_capture_round_trip(app: App, id: WindowId, shortcut: Shortcut)
    requires
        app.wf(),
        (app.settings_window matches Some((live, state)) && live == id
            && state.shortcut_selection_state is NotListening),
    ensures
        ({
            let listening = app.step(
                Message::SettingsWindowEvent(id, settings::Message::ToggleShortcutSelection),
            ).0;
            let struck = listening.step(
                Message::AppEvent(
                    id,
                    WindowEvent::KeyPressed {
                        key: shortcut.key,
                        modifiers: shortcut.modifiers,
                        logical_key: shortcut.logical_key,
                    },
                ),
            ).0;
            let committed = struck.step(
                Message::SettingsWindowEvent(id, settings::Message::ToggleShortcutSelection),
            ).0;
            let prior = app.toggle_shortcut;
            &&& committed.toggle_shortcut == shortcut
            &&& committed.toggle_shortcut.fires(
                shortcut.modifiers,
                GlobalEvent::KeyPress(shortcut.key),
            )
            &&& (prior.key != shortcut.key || prior.modifiers != shortcut.modifiers)
                ==> !committed.toggle_shortcut.fires(
                prior.modifiers,
                GlobalEvent::KeyPress(prior.key),
            )
        }),
{
}

} // verus!
