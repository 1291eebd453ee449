use vstd::prelude::*;

verus! {

/// A physical key, as the operating system's input hook reports it.
///
/// `AltGr` is the right-hand Alt key; `Unknown` carries a platform key code
/// that has no name here.
#[derive(Clone, Copy, Debug, PartialEq, Eq, Hash, Structural)]
pub enum Key {
    Alt,
    AltGr,
    Backspace,
    CapsLock,
    ControlLeft,
    ControlRight,
    Delete,
    DownArrow,
    End,
    Escape,
    F1,
    F10,
    F11,
    F12,
    F2,
    F3,
    F4,
    F5,
    F6,
    F7,
    F8,
    F9,
    Home,
    LeftArrow,
    MetaLeft,
    MetaRight,
    PageDown,
    PageUp,
    Return,
    RightArrow,
    ShiftLeft,
    ShiftRight,
    Space,
    Tab,
    UpArrow,
    PrintScreen,
    ScrollLock,
    Pause,
    NumLock,
    BackQuote,
    Num1,
    Num2,
    Num3,
    Num4,
    Num5,
    Num6,
    Num7,
    Num8,
    Num9,
    Num0,
    Minus,
    Equal,
    KeyQ,
    KeyW,
    KeyE,
    KeyR,
    KeyT,
    KeyY,
    KeyU,
    KeyI,
    KeyO,
    KeyP,
    LeftBracket,
    RightBracket,
    KeyA,
    KeyS,
    KeyD,
    KeyF,
    KeyG,
    KeyH,
    KeyJ,
    KeyK,
    KeyL,
    SemiColon,
    Quote,
    BackSlash,
    IntlBackslash,
    KeyZ,
    KeyX,
    KeyC,
    KeyV,
    KeyB,
    KeyN,
    KeyM,
    Comma,
    Dot,
    Slash,
    Insert,
    KpReturn,
    KpMinus,
    KpPlus,
    KpMultiply,
    KpDivide,
    Kp0,
    Kp1,
    Kp2,
    Kp3,
    Kp4,
    Kp5,
    Kp6,
    Kp7,
    Kp8,
    Kp9,
    KpDelete,
    Function,
    Unknown(u32),
}

/// One of the four modifier kinds. Left and right keys of a kind count as one.
#[derive(Clone, Copy, Debug, PartialEq, Eq, Hash, Structural)]
pub enum Modifier {
    Ctrl,
    Alt,
    Shift,
    Meta,
}

/// The modifier kind that a key belongs to, if it is a modifier key.
pub open spec fn modifier_of(k: Key) -> Option<Modifier> {
    match k {
        Key::ControlLeft | Key::ControlRight => Some(Modifier::Ctrl),
        Key::Alt | Key::AltGr => Some(Modifier::Alt),
        Key::ShiftLeft | Key::ShiftRight => Some(Modifier::Shift),
        Key::MetaLeft | Key::MetaRight => Some(Modifier::Meta),
        _ => None,
    }
}

/// Executable form of `modifier_of`.
pub fn modifier_key(k: Key) -> (r: Option<Modifier>)
    ensures
        r == modifier_of(k),
{
    match k {
        Key::ControlLeft | Key::ControlRight => Some(Modifier::Ctrl),
        Key::Alt | Key::AltGr => Some(Modifier::Alt),
        Key::ShiftLeft | Key::ShiftRight => Some(Modifier::Shift),
        Key::MetaLeft | Key::MetaRight => Some(Modifier::Meta),
        _ => None,
    }
}

/// A raw event of the process-wide input hook, reduced to what the
/// application reads: key presses and releases. Mouse movement, buttons and
/// wheel are `Other`.
#[derive(Clone, Copy, Debug, PartialEq, Eq, Structural)]
pub enum GlobalEvent {
    KeyPress(Key),
    KeyRelease(Key),
    Other,
}

/// The set of modifier keys currently held down, one flag per kind.
#[derive(Clone, Copy, Debug, PartialEq, Eq, Hash, Structural)]
pub struct ModifierSet {
    pub ctrl: bool,
    pub alt: bool,
    pub shift: bool,
    pub meta: bool,
}

impl ModifierSet {
    /// The empty set, in specifications.
    pub open spec fn empty_set() -> ModifierSet {
        ModifierSet { ctrl: false, alt: false, shift: false, meta: false }
    }

    /// Whether the flag of kind `m` is set.
    pub open spec fn has(self, m: Modifier) -> bool {
        match m {
            Modifier::Ctrl => self.ctrl,
            Modifier::Alt => self.alt,
            Modifier::Shift => self.shift,
            Modifier::Meta => self.meta,
        }
    }

    /// This set with the flag of kind `m` set to `on`, the others kept.
    pub open spec fn with(self, m: Modifier, on: bool) -> ModifierSet {
        match m {
            Modifier::Ctrl => ModifierSet { ctrl: on, ..self },
            Modifier::Alt => ModifierSet { alt: on, ..self },
            Modifier::Shift => ModifierSet { shift: on, ..self },
            Modifier::Meta => ModifierSet { meta: on, ..self },
        }
    }

    /// The set after one raw event: a press of a modifier key sets its flag,
    /// a release clears it, and every other event leaves the set as it is.
    pub open spec fn after(self, e: GlobalEvent) -> ModifierSet {
        match e {
            GlobalEvent::KeyPress(k) => match modifier_of(k) {
                Some(m) => self.with(m, true),
                None => self,
            },
            GlobalEvent::KeyRelease(k) => match modifier_of(k) {
                Some(m) => self.with(m, false),
                None => self,
            },
            GlobalEvent::Other => self,
        }
    }

    /// No modifier held.
    pub fn empty() -> (r: ModifierSet)
        ensures
            r == ModifierSet::empty_set(),
            forall|m: Modifier| !r.has(m),
    {
        ModifierSet { ctrl: false, alt: false, shift: false, meta: false }
    }

    /// Whether the flag of kind `m` is set.
    pub fn contains(&self, m: Modifier) -> (r: bool)
        ensures
            r == self.has(m),
    {
        match m {
            Modifier::Ctrl => self.ctrl,
            Modifier::Alt => self.alt,
            Modifier::Shift => self.shift,
            Modifier::Meta => self.meta,
        }
    }

    /// Sets the flag of kind `m`.
    pub fn insert(&mut self, m: Modifier)
        ensures
            *final(self) == old(self).with(m, true),
    {
        match m {
            Modifier::Ctrl => self.ctrl = true,
            Modifier::Alt => self.alt = true,
            Modifier::Shift => self.shift = true,
            Modifier::Meta => self.meta = true,
        }
    }

    /// Clears the flag of kind `m`.
    pub fn remove(&mut self, m: Modifier)
        ensures
            *final(self) == old(self).with(m, false),
    {
        match m {
            Modifier::Ctrl => self.ctrl = false,
            Modifier::Alt => self.alt = false,
            Modifier::Shift => self.shift = false,
            Modifier::Meta => self.meta = false,
        }
    }

    /// Tracks one raw event of the input hook.
    pub fn apply(&mut self, e: &GlobalEvent)
        ensures
            *final(self) == old(self).after(*e),
    {
        match *e {
            GlobalEvent::KeyPress(k) => {
                if let Some(m) = modifier_key(k) {
                    self.insert(m);
                }
            },
            GlobalEvent::KeyRelease(k) => {
                if let Some(m) = modifier_key(k) {
                    self.remove(m);
                }
            },
            GlobalEvent::Other => {},
        }
    }
}

/// The modifier set after tracking `events` in order, from `start`.
pub open spec fn replay(start: ModifierSet, events: Seq<GlobalEvent>) -> ModifierSet
    decreases events.len(),
{
    if events.len() == 0 {
        start
    } else {
        replay(start, events.drop_last()).after(events.last())
    }
}

/// The key that a raw event is about, if it is a key event.
pub open spec fn key_of(e: GlobalEvent) -> Option<Key> {
    match e {
        GlobalEvent::KeyPress(k) => Some(k),
        GlobalEvent::KeyRelease(k) => Some(k),
        GlobalEvent::Other => None,
    }
}

/// Whether a key of kind `m` is held after `events`: the last event on a key
/// of that kind was a press. No such event means not held.
pub open spec fn held(events: Seq<GlobalEvent>, m: Modifier) -> bool
    decreases events.len(),
{
    if events.len() == 0 {
        false
    } else {
        let e = events.last();
        match key_of(e) {
            Some(k) if modifier_of(k) == Some(m) => e is KeyPress,
            _ => held(events.drop_last(), m),
        }
    }
}

/// Tracking any sequence of raw events from the empty set ends with exactly
/// the modifier kinds that are held: no flag stays set after its key is
/// released, and repeated presses, of one key or of its left and right
/// variants, leave one flag set.
pub proof fn lemma_replay_is_held(events: Seq<GlobalEvent>)
    ensures
        forall|m: Modifier| #[trigger] replay(ModifierSet::empty_set(), events).has(m) == held(events, m),
    decreases events.len(),
{
    if events.len() > 0 {
        let prev = events.drop_last();
        lemma_replay_is_held(prev);
        assert forall|m: Modifier| #[trigger]
            replay(ModifierSet::empty_set(), events).has(m) == held(events, m) by {
            assert(replay(ModifierSet::empty_set(), prev).has(m) == held(prev, m));
        }
    }
}

} // verus!
