use joy_clippy::app::Message;
use joy_clippy::idents::I;
use joy_clippy::keys::{GlobalEvent, Key};
use joy_clippy::paste::{paste_sequence, PasteStep, PASTE_DELAY_MS};
use joy_clippy::tray::MenuEntry;
use joy_clippy::utils::ASYNC_CHANNEL_SIZE;

#[test]
fn paste_keystroke_in_order() {
    let steps = paste_sequence();
    assert_eq!(steps.len(), 12);
    let sent: Vec<GlobalEvent> = steps
        .iter()
        .filter_map(|s| match s {
            PasteStep::Send(e) => Some(*e),
            PasteStep::Wait(_) => None,
        })
        .collect();
    assert_eq!(
        sent,
        vec![
            GlobalEvent::KeyPress(Key::ControlLeft),
            GlobalEvent::KeyPress(Key::KeyV),
            GlobalEvent::KeyRelease(Key::KeyV),
            GlobalEvent::KeyRelease(Key::ControlLeft),
        ]
    );
    assert_eq!(steps[0], PasteStep::Wait(20));
    assert_eq!(steps[2], PasteStep::Wait(40));
    assert_eq!(PASTE_DELAY_MS, 20);
}

#[test]
fn menu_ids_round_trip() {
    for entry in [MenuEntry::Open, MenuEntry::Settings, MenuEntry::Quit] {
        assert_eq!(MenuEntry::from_id(entry.id()), Some(entry));
    }
    assert_eq!(MenuEntry::Settings.id(), "Settings");
    assert_eq!(MenuEntry::from_id("Opn"), None);
    assert_eq!(MenuEntry::from_id("open"), None);
    assert_eq!(MenuEntry::from_id(""), None);
}

#[test]
fn menu_entries_map_to_requests() {
    assert_eq!(MenuEntry::Open.message(), Message::RequestOpenHistoryWindow);
    assert_eq!(MenuEntry::Settings.message(), Message::OpenSettingsWindow);
    assert_eq!(MenuEntry::Quit.message(), Message::ExitApp);
}

#[test]
fn schema_identifiers() {
    assert_eq!(I::Entry.name(), "entry");
    assert_eq!(I::Id.name(), "id");
    assert_eq!(I::Data.name(), "data");
    assert_eq!(I::AddedAt.name(), "added_at");
}

#[test]
fn channel_capacity() {
    assert_eq!(ASYNC_CHANNEL_SIZE, 10);
}
