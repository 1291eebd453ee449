use joy_clippy::app::{Action, App, Message, Shortcut, WindowKind};
use joy_clippy::keys::{modifier_key, GlobalEvent, Key, Modifier, ModifierSet};
use joy_clippy::listener::Listener;

fn replay(events: &[GlobalEvent]) -> ModifierSet {
    let mut modifiers = ModifierSet::empty();
    for event in events {
        modifiers.apply(event);
    }
    modifiers
}

fn set(ctrl: bool, alt: bool, shift: bool, meta: bool) -> ModifierSet {
    ModifierSet { ctrl, alt, shift, meta }
}

#[test]
fn empty_set_holds_nothing() {
    let m = ModifierSet::empty();
    for kind in [Modifier::Ctrl, Modifier::Alt, Modifier::Shift, Modifier::Meta] {
        assert!(!m.contains(kind));
    }
}

#[test]
fn press_then_release_leaves_no_stuck_flag() {
    let m = replay(&[
        GlobalEvent::KeyPress(Key::ControlLeft),
        GlobalEvent::KeyPress(Key::ShiftRight),
        GlobalEvent::KeyRelease(Key::ControlLeft),
        GlobalEvent::KeyRelease(Key::ShiftRight),
    ]);
    assert_eq!(m, ModifierSet::empty());
}

#[test]
fn repeated_presses_of_both_variants_set_one_flag() {
    let m = replay(&[
        GlobalEvent::KeyPress(Key::ControlLeft),
        GlobalEvent::KeyPress(Key::ControlLeft),
        GlobalEvent::KeyPress(Key::ControlRight),
    ]);
    assert_eq!(m, set(true, false, false, false));
    let m = replay(&[
        GlobalEvent::KeyPress(Key::ControlLeft),
        GlobalEvent::KeyPress(Key::ControlRight),
        GlobalEvent::KeyRelease(Key::ControlRight),
    ]);
    assert_eq!(m, ModifierSet::empty());
}

#[test]
fn every_modifier_kind_is_tracked() {
    let m = replay(&[
        GlobalEvent::KeyPress(Key::ControlRight),
        GlobalEvent::KeyPress(Key::AltGr),
        GlobalEvent::KeyPress(Key::ShiftLeft),
        GlobalEvent::KeyPress(Key::MetaRight),
    ]);
    assert_eq!(m, set(true, true, true, true));
    let m = replay(&[
        GlobalEvent::KeyPress(Key::Alt),
        GlobalEvent::KeyPress(Key::MetaLeft),
        GlobalEvent::KeyRelease(Key::AltGr),
    ]);
    assert_eq!(m, set(false, false, false, true));
}

#[test]
fn other_keys_and_events_leave_modifiers_alone() {
    let m = replay(&[
        GlobalEvent::KeyPress(Key::Alt),
        GlobalEvent::KeyPress(Key::KeyA),
        GlobalEvent::KeyRelease(Key::KeyA),
        GlobalEvent::Other,
        GlobalEvent::KeyRelease(Key::Unknown(42)),
    ]);
    assert_eq!(m, set(false, true, false, false));
}

#[test]
fn modifier_keys_map_to_their_kind() {
    assert_eq!(modifier_key(Key::ControlLeft), Some(Modifier::Ctrl));
    assert_eq!(modifier_key(Key::AltGr), Some(Modifier::Alt));
    assert_eq!(modifier_key(Key::ShiftRight), Some(Modifier::Shift));
    assert_eq!(modifier_key(Key::MetaLeft), Some(Modifier::Meta));
    assert_eq!(modifier_key(Key::F9), None);
}

#[test]
fn insert_and_remove_touch_one_flag() {
    let mut m = ModifierSet::empty();
    m.insert(Modifier::Shift);
    m.insert(Modifier::Meta);
    m.remove(Modifier::Shift);
    assert_eq!(m, set(false, false, false, true));
}

#[test]
fn default_toggle_is_alt_f9() {
    let s = Shortcut::default_toggle();
    assert_eq!(s.modifiers, set(false, true, false, false));
    assert_eq!(s.key, Key::F9);
    assert_eq!(s.logical_key, "F9");
}

#[test]
fn toggle_needs_exact_modifiers() {
    let shortcut = Shortcut::default_toggle();
    let mut m = ModifierSet::empty();
    m.apply(&GlobalEvent::KeyPress(Key::ControlLeft));
    m.apply(&GlobalEvent::KeyPress(Key::Alt));
    let f9 = GlobalEvent::KeyPress(Key::F9);
    m.apply(&f9);
    assert!(!shortcut.is_triggered_by(m, &f9));
    m.apply(&GlobalEvent::KeyRelease(Key::F9));
    m.apply(&GlobalEvent::KeyRelease(Key::ControlLeft));
    m.apply(&f9);
    assert!(shortcut.is_triggered_by(m, &f9));
}

#[test]
fn toggle_ignores_releases_and_other_keys() {
    let shortcut = Shortcut::default_toggle();
    let alt = set(false, true, false, false);
    assert!(!shortcut.is_triggered_by(alt, &GlobalEvent::KeyRelease(Key::F9)));
    assert!(!shortcut.is_triggered_by(alt, &GlobalEvent::KeyPress(Key::F8)));
    assert!(!shortcut.is_triggered_by(ModifierSet::empty(), &GlobalEvent::KeyPress(Key::F9)));
    assert!(!shortcut.is_triggered_by(alt, &GlobalEvent::Other));
}

#[test]
fn global_toggle_opens_the_history_popup_only_on_exact_match() {
    let mut app = App::new();
    let ctrl_alt = set(true, true, false, false);
    let actions = app.update(Message::GlobalEvent(ctrl_alt, GlobalEvent::KeyPress(Key::F9)));
    assert!(actions.is_empty());
    assert!(app.history_window.is_none());
    let alt = set(false, true, false, false);
    let actions = app.update(Message::GlobalEvent(alt, GlobalEvent::KeyPress(Key::F9)));
    assert_eq!(
        actions,
        vec![
            Action::OpenWindow(0, WindowKind::History),
            Action::FocusWindow(0),
            Action::LoadHistory(0),
        ]
    );
    assert!(app.history_window.is_some());
}

#[test]
fn listener_reports_modifiers_after_each_event() {
    let mut listener = Listener::new();
    assert_eq!(listener.modifiers, ModifierSet::empty());
    let message = listener.on_event(GlobalEvent::KeyPress(Key::Alt));
    assert_eq!(message, Message::GlobalEvent(set(false, true, false, false), GlobalEvent::KeyPress(Key::Alt)));
    let message = listener.on_event(GlobalEvent::KeyPress(Key::F9));
    assert_eq!(message, Message::GlobalEvent(set(false, true, false, false), GlobalEvent::KeyPress(Key::F9)));
    let mut app = App::new();
    assert_eq!(app.update(message).len(), 3);
    let message = listener.on_event(GlobalEvent::KeyRelease(Key::Alt));
    assert_eq!(message, Message::GlobalEvent(ModifierSet::empty(), GlobalEvent::KeyRelease(Key::Alt)));
}
