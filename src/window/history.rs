use vstd::prelude::*;

use crate::app;
use crate::entry::Entry;

verus! {

/// The state of the history popup.
#[derive(Debug, PartialEq, Eq)]
pub enum State {
    /// The records have arrived; `selected_item_cursor` indexes `items`.
    Loaded { selected_item_cursor: usize, items: Vec<Entry> },
    /// The popup is open and its records are still being loaded.
    Loading,
}

/// What the history popup asks of its own state.
#[derive(Clone, Copy, Debug, PartialEq, Eq, Structural)]
pub enum Message {
    /// Move the selection by this many rows (down is positive).
    MoveHistoryCursor(i32),
    /// Paste the selected record.
    Paste,
    /// Open the settings window.
    OpenSettings,
}

/// `cursor + direction` held within `0 ..= len - 1`; 0 when there is no row.
pub open spec fn clamp_cursor(cursor: int, direction: int, len: int) -> int {
    if len <= 0 {
        0
    } else if cursor + direction < 0 {
        0
    } else if cursor + direction >= len {
        len - 1
    } else {
        cursor + direction
    }
}

impl State {
    /// The cursor stays on a row, or at 0 when there are no rows.
    pub open spec fn wf(self) -> bool {
        match self {
            State::Loaded { selected_item_cursor, items } => selected_item_cursor < items.len()
                || (items.len() == 0 && selected_item_cursor == 0),
            State::Loading => true,
        }
    }

    /// The record under the cursor, if the records are loaded and not empty.
    pub open spec fn selected(self) -> Option<Entry> {
        match self {
            State::Loaded { selected_item_cursor, items } => if selected_item_cursor
                < items.len() {
                Some(items@[selected_item_cursor as int])
            } else {
                None
            },
            State::Loading => None,
        }
    }

    /// The state after `event`, and the request that it hands to the
    /// application. Moving the cursor clamps it and does nothing while loading;
    /// pasting asks for the selected record to be pasted, and does nothing
    /// when there is none.
    pub open spec fn after(self, event: Message) -> (State, Option<app::Message>) {
        match event {
            Message::MoveHistoryCursor(direction) => match self {
                State::Loaded { selected_item_cursor, items } => (
                    State::Loaded {
                        selected_item_cursor: clamp_cursor(
                            selected_item_cursor as int,
                            direction as int,
                            items.len() as int,
                        ) as usize,
                        items,
                    },
                    None,
                ),
                State::Loading => (self, None),
            },
            Message::Paste => match self.selected() {
                Some(e) => (self, Some(app::Message::RequestPaste(e))),
                None => (self, None),
            },
            Message::OpenSettings => (self, Some(app::Message::OpenSettingsWindow)),
        }
    }

    /// Handles one event of the popup.
    pub fn update(&mut self, event: Message) -> (r: Option<app::Message>)
        requires
            old(self).wf(),
        ensures
            final(self).wf(),
            (*final(self), r) == old(self).after(event),
    {
        match event {
            Message::MoveHistoryCursor(direction) => {
                if let State::Loaded { selected_item_cursor, items } = self {
                    let len = items.len();
                    let cursor = *selected_item_cursor;
                    let next: usize = if len == 0 {
                        0
                    } else if direction < 0 {
                        let back: u32 = if direction == i32::MIN {
                            2147483648u32
                        } else {
                            (-direction) as u32
                        };
                        if back as usize >= cursor {
                            0
                        } else {
                            cursor - back as usize
                        }
                    } else {
                        let forward = direction as u32 as usize;
                        if forward >= len - 1 - cursor {
                            len - 1
                        } else {
                            cursor + forward
                        }
                    };
                    *selected_item_cursor = next;
                }
                None
            },
            Message::Paste => {
                if let State::Loaded { selected_item_cursor, items } = self {
                    if *selected_item_cursor < items.len() {
                        return Some(
                            app::Message::RequestPaste(items[*selected_item_cursor].duplicate()),
                        );
                    }
                }
                None
            },
            Message::OpenSettings => Some(app::Message::OpenSettingsWindow),
        }
    }
}

/// Moving past either end leaves the cursor at that end: up from the first
/// row stays on the first row, down from the last row stays on the last.
pub proof fn lemma_cursor_held_at_ends(items: Vec<Entry>, up: i32, down: i32)
    requires
        items.len() > 0,
        up < 0,
        down > 0,
    ensures
        (State::Loaded { selected_item_cursor: 0, items }).after(
            Message::MoveHistoryCursor(up),
        ).0 == (State::Loaded { selected_item_cursor: 0, items }),
        (State::Loaded { selected_item_cursor: (items.len() - 1) as usize, items }).after(
            Message::MoveHistoryCursor(down),
        ).0 == (State::Loaded { selected_item_cursor: (items.len() - 1) as usize, items }),
{
}

} // verus!
