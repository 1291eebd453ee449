use vstd::prelude::*;

use crate::app::{Action, App, Message};
use crate::keys::{held, lemma_replay_is_held, replay, GlobalEvent, Modifier, ModifierSet};

verus! {

/// The producer side of the input hook. It mirrors which modifiers are held
/// and turns each raw event into the message for the event loop, carrying the
/// modifiers as they are after the event.
#[derive(Debug)]
pub struct Listener {
    pub modifiers: ModifierSet,
}

impl Listener {
    /// A listener at hook start: no modifier held.
    pub fn new() -> (r: Listener)
        ensures
            r.modifiers == ModifierSet::empty_set(),
    {
        Listener { modifiers: ModifierSet::empty() }
    }

    /// Tracks one raw event and gives the message to deliver.
    pub fn on_event(&mut self, event: GlobalEvent) -> (r: Message)
        ensures
            final(self).modifiers == old(self).modifiers.after(event),
            r == Message::GlobalEvent(final(self).modifiers, event),
    {
        self.modifiers.apply(&event);
        Message::GlobalEvent(self.modifiers, event)
    }
}

/// Two modifier sets are equal when they hold the same kinds.
proof fn lemma_modifier_set_ext(a: ModifierSet, b: ModifierSet)
    requires
        forall|m: Modifier| #[trigger] a.has(m) == b.has(m),
    ensures
        a == b,
{
    assert(a.has(Modifier::Ctrl) == b.has(Modifier::Ctrl));
    assert(a.has(Modifier::Alt) == b.has(Modifier::Alt));
    assert(a.has(Modifier::Shift) == b.has(Modifier::Shift));
    assert(a.has(Modifier::Meta) == b.has(Modifier::Meta));
}

/// From hook start, after any run of raw events, the last event opens the
/// history popup exactly when it is a press of the toggle key and the keys
/// held at that moment are of exactly the toggle's modifier kinds.
pub proof fn lemma_listener_toggle(app: App, earlier: Seq<GlobalEvent>, last: GlobalEvent)
    requires
        app.wf(),
        (app.history_window is None),
        app.next_window_id < u64::MAX,
    ensures
        ({
            let events = earlier.push(last);
            let modifiers = replay(ModifierSet::empty_set(), events);
            app.step(Message::GlobalEvent(modifiers, last)).0.history_window is Some <==> (
            last == GlobalEvent::KeyPress(app.toggle_shortcut.key) && forall|m: Modifier|
                #[trigger] held(events, m) == app.toggle_shortcut.modifiers.has(m))
        }),
{
    let events = earlier.push(last);
    let modifiers = replay(ModifierSet::empty_set(), events);
    lemma_replay_is_held(events);
    if forall|m: Modifier| #[trigger] held(events, m) == app.toggle_shortcut.modifiers.has(m) {
        assert forall|m: Modifier| #[trigger] modifiers.has(m) == app.toggle_shortcut.modifiers.has(
            m,
        ) by {
            assert(held(events, m) == app.toggle_shortcut.modifiers.has(m));
        }
        lemma_modifier_set_ext(modifiers, app.toggle_shortcut.modifiers);
    }
}

} // verus!
