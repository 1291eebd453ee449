use joy_clippy::app::{Action, App, Message, WindowEvent};
use joy_clippy::entry::Entry;
use joy_clippy::keys::{Key, ModifierSet};
use joy_clippy::window::history::{Message as HistoryMessage, State};

fn entry(id: i32, data: &str, added_at: i64) -> Entry {
    Entry { id, data: data.to_string(), added_at }
}

fn five() -> Vec<Entry> {
    (1..=5).map(|i| entry(i, &format!("item {i}"), 100 - i as i64)).collect()
}

fn cursor(state: &State) -> usize {
    match state {
        State::Loaded { selected_item_cursor, .. } => *selected_item_cursor,
        State::Loading => panic!("still loading"),
    }
}

fn app_with_history(items: Vec<Entry>) -> (App, u64) {
    let mut app = App::new();
    app.update(Message::RequestOpenHistoryWindow);
    let id = app.history_window.as_ref().unwrap().0;
    app.update(Message::HistoryWindowLoaded(id, items));
    (app, id)
}

fn key(key: Key) -> WindowEvent {
    WindowEvent::KeyPressed { key, modifiers: ModifierSet::empty(), logical_key: String::new() }
}

#[test]
fn cursor_stays_at_first_row_moving_up() {
    let mut state = State::Loaded { selected_item_cursor: 0, items: five() };
    assert_eq!(state.update(HistoryMessage::MoveHistoryCursor(-1)), None);
    assert_eq!(cursor(&state), 0);
}

#[test]
fn cursor_stays_at_last_row_moving_down() {
    let mut state = State::Loaded { selected_item_cursor: 4, items: five() };
    assert_eq!(state.update(HistoryMessage::MoveHistoryCursor(1)), None);
    assert_eq!(cursor(&state), 4);
}

#[test]
fn cursor_moves_and_clamps_large_steps() {
    let mut state = State::Loaded { selected_item_cursor: 2, items: five() };
    state.update(HistoryMessage::MoveHistoryCursor(1));
    assert_eq!(cursor(&state), 3);
    state.update(HistoryMessage::MoveHistoryCursor(-2));
    assert_eq!(cursor(&state), 1);
    state.update(HistoryMessage::MoveHistoryCursor(i32::MAX));
    assert_eq!(cursor(&state), 4);
    state.update(HistoryMessage::MoveHistoryCursor(i32::MIN));
    assert_eq!(cursor(&state), 0);
}

#[test]
fn cursor_on_empty_history_stays_at_zero() {
    let mut state = State::Loaded { selected_item_cursor: 0, items: vec![] };
    state.update(HistoryMessage::MoveHistoryCursor(1));
    assert_eq!(cursor(&state), 0);
    state.update(HistoryMessage::MoveHistoryCursor(-1));
    assert_eq!(cursor(&state), 0);
}

#[test]
fn moving_while_loading_does_nothing() {
    let mut state = State::Loading;
    assert_eq!(state.update(HistoryMessage::MoveHistoryCursor(1)), None);
    assert_eq!(state, State::Loading);
}

#[test]
fn paste_asks_for_the_selected_record() {
    let mut state = State::Loaded { selected_item_cursor: 1, items: five() };
    assert_eq!(
        state.update(HistoryMessage::Paste),
        Some(Message::RequestPaste(entry(2, "item 2", 98)))
    );
    assert_eq!(state.update(HistoryMessage::OpenSettings), Some(Message::OpenSettingsWindow));
}

#[test]
fn paste_on_empty_history_is_a_noop() {
    let mut state = State::Loaded { selected_item_cursor: 0, items: vec![] };
    assert_eq!(state.update(HistoryMessage::Paste), None);

    let (mut app, id) = app_with_history(vec![]);
    let actions = app.update(Message::HistoryWindowEvent(id, HistoryMessage::Paste));
    assert!(actions.is_empty());
    let actions = app.update(Message::AppEvent(id, key(Key::Return)));
    assert!(actions.is_empty());
    assert_eq!(
        app.history_window,
        Some((id, State::Loaded { selected_item_cursor: 0, items: vec![] }))
    );
}

#[test]
fn paste_while_loading_is_a_noop() {
    let mut app = App::new();
    app.update(Message::RequestOpenHistoryWindow);
    let actions = app.update(Message::HistoryWindowEvent(0, HistoryMessage::Paste));
    assert!(actions.is_empty());
    assert_eq!(app.history_window, Some((0, State::Loading)));
}

#[test]
fn end_to_end_paste_of_the_first_record() {
    let (mut app, id) = app_with_history(vec![entry(1, "a", 10), entry(2, "b", 20)]);
    let actions = app.update(Message::HistoryWindowEvent(id, HistoryMessage::Paste));
    assert_eq!(
        actions,
        vec![
            Action::CloseWindow(id),
            Action::SetClipboard("a".to_string()),
            Action::DeleteItem(1),
            Action::SimulatePaste,
        ]
    );
    assert!(app.history_window.is_none());
}

#[test]
fn arrow_keys_and_return_in_the_popup() {
    let (mut app, id) = app_with_history(five());
    app.update(Message::AppEvent(id, key(Key::DownArrow)));
    app.update(Message::AppEvent(id, key(Key::DownArrow)));
    app.update(Message::AppEvent(id, key(Key::UpArrow)));
    assert_eq!(cursor(&app.history_window.as_ref().unwrap().1), 1);
    let actions = app.update(Message::AppEvent(id, key(Key::Return)));
    assert_eq!(
        actions,
        vec![
            Action::CloseWindow(id),
            Action::SetClipboard("item 2".to_string()),
            Action::DeleteItem(2),
            Action::SimulatePaste,
        ]
    );
}

#[test]
fn request_paste_without_popup_still_pastes() {
    let mut app = App::new();
    let actions = app.update(Message::RequestPaste(entry(7, "x", 1)));
    assert_eq!(
        actions,
        vec![Action::SetClipboard("x".to_string()), Action::DeleteItem(7), Action::SimulatePaste]
    );
}

#[test]
fn entry_duplicate_is_equal() {
    let e = entry(3, "text", 12);
    assert_eq!(e.duplicate(), e);
}
