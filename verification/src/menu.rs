//! The tray menu: its items, their identifiers and labels, and their order.

use crate::ident::str_eq;
use vstd::prelude::*;

verus! {

/// The items a tray menu can hold. Every item has a stable identifier, under
/// which the host reports a click on it, and a label, which the user sees.
#[derive(Clone, Copy, Debug, PartialEq, Eq, Hash, Structural)]
pub enum MenuId {
    Show,
    Hide,
    Quit,
}

impl MenuId {
    /// The identifier of the item.
    pub open spec fn key(self) -> Seq<char> {
        match self {
            MenuId::Show => "show"@,
            MenuId::Hide => "hide"@,
            MenuId::Quit => "quit"@,
        }
    }

    /// The label of the item.
    pub open spec fn title(self) -> Seq<char> {
        match self {
            MenuId::Show => "Show"@,
            MenuId::Hide => "Hide"@,
            MenuId::Quit => "Quit"@,
        }
    }

    /// The item that an identifier names, if it names one.
    pub open spec fn lookup(id: Seq<char>) -> Option<MenuId> {
        if id == MenuId::Show.key() {
            Some(MenuId::Show)
        } else if id == MenuId::Hide.key() {
            Some(MenuId::Hide)
        } else if id == MenuId::Quit.key() {
            Some(MenuId::Quit)
        } else {
            None
        }
    }

    /// The identifier of the item, as the host reports it.
    pub fn as_str(self) -> (id: &'static str)
        ensures
            id@ == self.key(),
    {
        match self {
            MenuId::Show => "show",
            MenuId::Hide => "hide",
            MenuId::Quit => "quit",
        }
    }

    /// The label under which the item is shown.
    pub fn label(self) -> (label: &'static str)
        ensures
            label@ == self.title(),
    {
        match self {
            MenuId::Show => "Show",
            MenuId::Hide => "Hide",
            MenuId::Quit => "Quit",
        }
    }

    /// Finds the item that `id` names. An identifier that names no item
    /// gives `None`.
    pub fn from_id(id: &str) -> (found: Option<MenuId>)
        ensures
            found == MenuId::lookup(id@),
    {
        if str_eq(id, "show") {
            Some(MenuId::Show)
        } else if str_eq(id, "hide") {
            Some(MenuId::Hide)
        } else if str_eq(id, "quit") {
            Some(MenuId::Quit)
        } else {
            None
        }
    }

    /// Two items with the same identifier are the same item.
    pub proof fn lemma_keys_distinct(a: MenuId, b: MenuId)
        ensures
            a.key() == b.key() <==> a == b,
    {
        MenuId::lemma_key_chars();
    }

    /// Looking up an item's own identifier finds that item, and an
    /// identifier finds an item only if it is that item's identifier.
    pub proof fn lemma_lookup_inverts_key(id: Seq<char>, item: MenuId)
        ensures
            MenuId::lookup(item.key()) == Some(item),
            MenuId::lookup(id) == Some(item) <==> id == item.key(),
    {
        MenuId::lemma_key_chars();
    }

    /// The three identifiers differ in their second character.
    proof fn lemma_key_chars()
        ensures
            MenuId::Show.key()[1] == 'h',
            MenuId::Hide.key()[1] == 'i',
            MenuId::Quit.key()[1] == 'u',
    {
        reveal_strlit("show");
        reveal_strlit("hide");
        reveal_strlit("quit");
    }
}

/// One line of a tray menu.
#[derive(Clone, Copy, Debug, PartialEq, Eq, Hash, Structural)]
pub enum MenuEntry {
    /// An item the user can click.
    Item(MenuId),
    /// A visual separator between groups of items.
    Separator,
}

impl MenuEntry {
    /// The identifier of the entry; a separator has none.
    pub open spec fn key(self) -> Option<Seq<char>> {
        match self {
            MenuEntry::Item(item) => Some(item.key()),
            MenuEntry::Separator => None,
        }
    }

    /// The label of the entry; a separator has none.
    pub open spec fn title(self) -> Option<Seq<char>> {
        match self {
            MenuEntry::Item(item) => Some(item.title()),
            MenuEntry::Separator => None,
        }
    }

    /// The identifier of the entry; a separator has none.
    pub fn id(self) -> (id: Option<&'static str>)
        ensures
            id is Some <==> self is Item,
            id matches Some(s) ==> self.key() == Some(s@),
    {
        match self {
            MenuEntry::Item(item) => Some(item.as_str()),
            MenuEntry::Separator => None,
        }
    }

    /// The label of the entry; a separator has none.
    pub fn label(self) -> (label: Option<&'static str>)
        ensures
            label is Some <==> self is Item,
            label matches Some(s) ==> self.title() == Some(s@),
    {
        match self {
            MenuEntry::Item(item) => Some(item.label()),
            MenuEntry::Separator => None,
        }
    }
}

/// The menu of the tray icon: an ordered list of entries that is built once
/// and read from then on.
#[derive(Clone, Debug, PartialEq, Eq)]
pub struct TrayMenu {
    entries: Vec<MenuEntry>,
}

impl View for TrayMenu {
    type V = Seq<MenuEntry>;

    closed spec fn view(&self) -> Seq<MenuEntry> {
        self.entries@
    }
}

impl TrayMenu {
    /// No identifier stands on two lines of the menu.
    pub open spec fn ids_unique(entries: Seq<MenuEntry>) -> bool {
        forall|i: int, j: int|
            0 <= i < j < entries.len() && entries[i] is Item ==> #[trigger] entries[i].key()
                != #[trigger] entries[j].key()
    }

    /// The number of entries, separators included.
    pub fn len(&self) -> (n: usize)
        ensures
            n == self@.len(),
    {
        self.entries.len()
    }

    /// The entry on line `index`, counted from the top; `None` past the end.
    pub fn entry(&self, index: usize) -> (entry: Option<MenuEntry>)
        ensures
            index < self@.len() ==> entry == Some(self@[index as int]),
            index >= self@.len() ==> entry is None,
    {
        if index < self.entries.len() {
            Some(self.entries[index])
        } else {
            None
        }
    }
}

/// The entries of the application's tray menu, top to bottom.
pub open spec fn system_tray_entries() -> Seq<MenuEntry> {
    seq![
        MenuEntry::Item(MenuId::Show),
        MenuEntry::Item(MenuId::Hide),
        MenuEntry::Separator,
        MenuEntry::Item(MenuId::Quit),
    ]
}

/// Builds the application's tray menu: Show, Hide, a separator, then Quit,
/// with the identifiers `show`, `hide` and `quit`. Every call gives the same
/// menu, and no identifier occurs twice in it.
pub fn create_system_tray() -> (menu: TrayMenu)
    ensures
        menu@ == system_tray_entries(),
        menu@.len() == 4,
        menu@[0].key() == Some("show"@) && menu@[0].title() == Some("Show"@),
        menu@[1].key() == Some("hide"@) && menu@[1].title() == Some("Hide"@),
        menu@[2] is Separator,
        menu@[3].key() == Some("quit"@) && menu@[3].title() == Some("Quit"@),
        TrayMenu::ids_unique(menu@),
{
    let mut entries: Vec<MenuEntry> = Vec::new();
    entries.push(MenuEntry::Item(MenuId::Show));
    entries.push(MenuEntry::Item(MenuId::Hide));
    entries.push(MenuEntry::Separator);
    entries.push(MenuEntry::Item(MenuId::Quit));
    proof {
        assert(entries@ =~= system_tray_entries());
        MenuId::lemma_key_chars();
    }
    TrayMenu { entries }
}

} // verus!
