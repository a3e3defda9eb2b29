//! The tray menu: its entries in display order, and the identifier by which
//! a selection is told.

use vstd::prelude::*;

verus! {

/// One entry of the tray menu.
#[derive(Clone, Copy, Debug, PartialEq, Eq, Structural)]
pub enum MenuEntry {
    /// Reveals the window.
    Show,
    /// Flips the always-on-top flag.
    ToggleAlwaysOnTop,
    /// A line between groups of entries. It cannot be selected.
    Separator,
    /// Ends the process.
    Quit,
}

/// The text of an optional string literal.
pub open spec fn text_of(text: Option<&'static str>) -> Option<Seq<char>> {
    match text {
        Some(t) => Some(t@),
        None => None,
    }
}

impl MenuEntry {
    /// The identifier under which a selection of this entry is reported. The
    /// separator has none.
    pub open spec fn spec_id(self) -> Option<Seq<char>> {
        match self {
            MenuEntry::Show => Some("show"@),
            MenuEntry::ToggleAlwaysOnTop => Some("always_on_top"@),
            MenuEntry::Separator => None,
            MenuEntry::Quit => Some("quit"@),
        }
    }

    /// The text shown for this entry. The separator has none.
    pub open spec fn spec_label(self) -> Option<Seq<char>> {
        match self {
            MenuEntry::Show => Some("Show MIDI Controller"@),
            MenuEntry::ToggleAlwaysOnTop => Some("Always on Top"@),
            MenuEntry::Separator => None,
            MenuEntry::Quit => Some("Quit"@),
        }
    }

    /// The keyboard accelerator of this entry, where it has one.
    pub open spec fn spec_accelerator(self) -> Option<Seq<char>> {
        match self {
            MenuEntry::ToggleAlwaysOnTop => Some("always-on-top"@),
            MenuEntry::Quit => Some("q"@),
            _ => None,
        }
    }

    /// The entry that a selection reported under `id` stands for, if any.
    pub open spec fn with_id(id: Seq<char>) -> Option<MenuEntry> {
        if id == "show"@ {
            Some(MenuEntry::Show)
        } else if id == "always_on_top"@ {
            Some(MenuEntry::ToggleAlwaysOnTop)
        } else if id == "quit"@ {
            Some(MenuEntry::Quit)
        } else {
            None
        }
    }

    /// The identifier under which a selection of this entry is reported.
    pub fn id(&self) -> (id: Option<&'static str>)
        ensures
            text_of(id) == self.spec_id(),
    {
        match self {
            MenuEntry::Show => Some("show"),
            MenuEntry::ToggleAlwaysOnTop => Some("always_on_top"),
            MenuEntry::Separator => None,
            MenuEntry::Quit => Some("quit"),
        }
    }

    /// The text shown for this entry.
    pub fn label(&self) -> (label: Option<&'static str>)
        ensures
            text_of(label) == self.spec_label(),
    {
        match self {
            MenuEntry::Show => Some("Show MIDI Controller"),
            MenuEntry::ToggleAlwaysOnTop => Some("Always on Top"),
            MenuEntry::Separator => None,
            MenuEntry::Quit => Some("Quit"),
        }
    }

    /// The keyboard accelerator of this entry.
    pub fn accelerator(&self) -> (accelerator: Option<&'static str>)
        ensures
            text_of(accelerator) == self.spec_accelerator(),
    {
        match self {
            MenuEntry::ToggleAlwaysOnTop => Some("always-on-top"),
            MenuEntry::Quit => Some("q"),
            _ => None,
        }
    }

    /// Whether the entry can be selected. Every entry but the separator can,
    /// whatever the state of the shell.
    pub fn enabled(&self) -> (enabled: bool)
        ensures
            enabled == !(self is Separator),
    {
        match self {
            MenuEntry::Separator => false,
            _ => true,
        }
    }

    /// The entry that a selection reported under `id` stands for. An
    /// identifier that the menu does not hold stands for none.
    pub fn find(id: &str) -> (entry: Option<MenuEntry>)
        ensures
            entry == MenuEntry::with_id(id@),
    {
        if same_text(id, "show") {
            Some(MenuEntry::Show)
        } else if same_text(id, "always_on_top") {
            Some(MenuEntry::ToggleAlwaysOnTop)
        } else if same_text(id, "quit") {
            Some(MenuEntry::Quit)
        } else {
            None
        }
    }
}

/// Whether two strings hold the same text.
fn same_text(a: &str, b: &str) -> (same: bool)
    ensures
        same == (a@ == b@),
{
    a.to_owned() == b.to_owned()
}

/// The entries of the tray menu, in display order.
pub open spec fn tray_entries() -> Seq<MenuEntry> {
    seq![MenuEntry::Show, MenuEntry::ToggleAlwaysOnTop, MenuEntry::Separator, MenuEntry::Quit]
}

/// The tray menu, in display order. It is the same at every call: no entry
/// depends on the state of the shell.
pub fn tray_menu() -> (menu: Vec<MenuEntry>)
    ensures
        menu@ == tray_entries(),
{
    vec![MenuEntry::Show, MenuEntry::ToggleAlwaysOnTop, MenuEntry::Separator, MenuEntry::Quit]
}

/// The three identifiers differ from one another.
pub proof fn lemma_ids_differ()
    ensures
        "show"@ != "always_on_top"@,
        "show"@ != "quit"@,
        "always_on_top"@ != "quit"@,
{
    reveal_strlit("show");
    reveal_strlit("always_on_top");
    reveal_strlit("quit");
    assert("show"@[0] == 's');
    assert("quit"@[0] == 'q');
}

/// A selection is told by its identifier: `id` stands for `entry` exactly
/// when `entry` is in the menu and `id` is its identifier. So each entry that
/// can be selected is found by its own identifier, and no two of them share
/// one.
pub proof fn lemma_dispatch_by_id(id: Seq<char>, entry: MenuEntry)
    ensures
        MenuEntry::with_id(id) == Some(entry) <==> tray_entries().contains(entry)
            && entry.spec_id() == Some(id),
{
    lemma_ids_differ();
}

} // verus!
