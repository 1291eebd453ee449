use vstd::prelude::*;
use vstd::string::*;

use crate::app::Message;

verus! {

/// The entries of the tray menu.
#[derive(Clone, Copy, Debug, PartialEq, Eq, Structural)]
pub enum MenuEntry {
    Open,
    Settings,
    Quit,
}

/// Whether two strings hold the same characters.
fn same_text(a: &str, b: &str) -> (r: bool)
    ensures
        r == (a@ == b@),
{
    let n = a.unicode_len();
    if n != b.unicode_len() {
        return false;
    }
    let mut i: usize = 0;
    while i < n
        invariant
            n == a@.len(),
            n == b@.len(),
            0 <= i <= n,
            forall|j: int| 0 <= j < i ==> a@[j] == b@[j],
        decreases n - i,
    {
        if a.get_char(i) != b.get_char(i) {
            return false;
        }
        i = i + 1;
    }
    assert(a@ =~= b@);
    true
}

impl MenuEntry {
    /// The id under which the entry stands in the menu: its name.
    pub open spec fn id_text(self) -> Seq<char> {
        match self {
            MenuEntry::Open => "Open"@,
            MenuEntry::Settings => "Settings"@,
            MenuEntry::Quit => "Quit"@,
        }
    }

    /// The entry whose id is `text`, if any.
    pub open spec fn from_text(text: Seq<char>) -> Option<MenuEntry> {
        if text == "Open"@ {
            Some(MenuEntry::Open)
        } else if text == "Settings"@ {
            Some(MenuEntry::Settings)
        } else if text == "Quit"@ {
            Some(MenuEntry::Quit)
        } else {
            None
        }
    }

    pub fn id(&self) -> (r: &'static str)
        ensures
            r@ == self.id_text(),
    {
        match self {
            MenuEntry::Open => "Open",
            MenuEntry::Settings => "Settings",
            MenuEntry::Quit => "Quit",
        }
    }

    /// Reads a menu id back as its entry.
    pub fn from_id(text: &str) -> (r: Option<MenuEntry>)
        ensures
            r == MenuEntry::from_text(text@),
    {
        if same_text(text, "Open") {
            Some(MenuEntry::Open)
        } else if same_text(text, "Settings") {
            Some(MenuEntry::Settings)
        } else if same_text(text, "Quit") {
            Some(MenuEntry::Quit)
        } else {
            None
        }
    }

    /// The request that choosing the entry makes: open the history popup,
    /// open the settings window, or quit.
    pub fn message(self) -> (r: Message)
        ensures
            self == MenuEntry::Open ==> r is RequestOpenHistoryWindow,
            self == MenuEntry::Settings ==> r is OpenSettingsWindow,
            self == MenuEntry::Quit ==> r is ExitApp,
    {
        match self {
            MenuEntry::Open => Message::RequestOpenHistoryWindow,
            MenuEntry::Settings => Message::OpenSettingsWindow,
            MenuEntry::Quit => Message::ExitApp,
        }
    }
}

/// Reading an entry's own id gives the entry back.
pub proof fn lemma_menu_id_round_trip(entry: MenuEntry)
    ensures
        MenuEntry::from_text(entry.id_text()) == Some(entry),
{
    reveal_strlit("Open");
    reveal_strlit("Settings");
    reveal_strlit("Quit");
    assert("Open"@.len() != "Settings"@.len());
    assert("Open"@[0] != "Quit"@[0]);
    assert("Settings"@.len() != "Quit"@.len());
}

} // verus!
