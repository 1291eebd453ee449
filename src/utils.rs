use vstd::prelude::*;

use crate::app::{Shortcut, WindowEvent};

verus! {

/// Capacity of the bounded queues between the input threads and the event loop.
pub const ASYNC_CHANNEL_SIZE: usize = 10;

/// The shortcut that a window event spells, if it is a key press: the key
/// struck with the modifiers then held.
pub open spec fn shortcut_of(event: WindowEvent) -> Option<Shortcut> {
    match event {
        WindowEvent::KeyPressed { key, modifiers, logical_key } => Some(
            Shortcut { modifiers, logical_key, key },
        ),
        _ => None,
    }
}

/// Reads a window event as a shortcut definition.
pub fn iced_event_to_shortcut(event: WindowEvent) -> (r: Option<Shortcut>)
    ensures
        r == shortcut_of(event),
{
    match event {
        WindowEvent::KeyPressed { key, modifiers, logical_key } => Some(
            Shortcut { modifiers, logical_key, key },
        ),
        _ => None,
    }
}

} // verus!
