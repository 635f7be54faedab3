//! The tray menu controller: what a tray event asks of the host.

use crate::menu::MenuId;
use crate::ops::HostOp;
use vstd::prelude::*;

verus! {

/// An event of the tray icon, as the host reports it.
#[derive(Clone, Debug, PartialEq, Eq)]
pub enum TrayEvent {
    /// A click on the menu item with the given identifier.
    MenuItemClick { id: String },
    /// A left click on the icon.
    LeftClick,
    /// A right click on the icon.
    RightClick,
    /// A double click on the icon.
    DoubleClick,
    /// Any other interaction with the icon.
    Other,
}

impl TrayEvent {
    /// The identifier that was clicked, where the event is a menu click.
    pub open spec fn clicked(self) -> Option<Seq<char>> {
        match self {
            TrayEvent::MenuItemClick { id } => Some(id@),
            _ => None,
        }
    }
}

/// The operation that a menu item stands for.
pub open spec fn action_of(item: MenuId) -> HostOp {
    match item {
        MenuId::Show => HostOp::ShowWindow,
        MenuId::Hide => HostOp::HideWindow,
        MenuId::Quit => HostOp::Exit(0),
    }
}

/// The operations that answer a tray event: the action of the clicked item
/// where the event is a click on a known item, nothing otherwise.
pub open spec fn tray_response(event: TrayEvent) -> Seq<HostOp> {
    match event.clicked() {
        Some(id) => match MenuId::lookup(id) {
            Some(item) => seq![action_of(item)],
            None => Seq::empty(),
        },
        None => Seq::empty(),
    }
}

/// The operation that a menu item stands for: Show and Hide change the
/// visibility of the main window, Quit ends the process with exit code 0.
pub fn menu_action(item: MenuId) -> (op: HostOp)
    ensures
        op == action_of(item),
{
    match item {
        MenuId::Show => HostOp::ShowWindow,
        MenuId::Hide => HostOp::HideWindow,
        MenuId::Quit => HostOp::Exit(0),
    }
}

/// Answers a tray event with the operations the host has to carry out.
///
/// A click on `show`, `hide` or `quit` gives exactly the one operation of
/// that item: show the window, hide the window, end the process with exit
/// code 0. A click on an identifier that names no item, and every event
/// that is not a menu click, gives no operation at all: neither is an error.
pub fn on_system_tray_event(event: &TrayEvent) -> (ops: Vec<HostOp>)
    ensures
        ops@ == tray_response(*event),
        event.clicked() == Some("show"@) ==> ops@ == seq![HostOp::ShowWindow],
        event.clicked() == Some("hide"@) ==> ops@ == seq![HostOp::HideWindow],
        event.clicked() == Some("quit"@) ==> ops@ == seq![HostOp::Exit(0)],
        event.clicked() != Some("show"@) && event.clicked() != Some("hide"@) && event.clicked()
            != Some("quit"@) ==> ops@.len() == 0,
{
    let mut ops: Vec<HostOp> = Vec::new();
    match event {
        TrayEvent::MenuItemClick { id } => {
            match MenuId::from_id(id.as_str()) {
                Some(item) => {
                    ops.push(menu_action(item));
                },
                None => {},
            }
        },
        _ => {},
    }
    proof {
        assert(ops@ =~= tray_response(*event));
        lemma_click_response(*event);
    }
    ops
}

/// A click on an item is answered by the action of that item, and by
/// nothing else.
pub proof fn lemma_click_on_item(event: TrayEvent, item: MenuId)
    requires
        event.clicked() == Some(item.key()),
    ensures
        tray_response(event) == seq![action_of(item)],
{
    MenuId::lemma_lookup_inverts_key(item.key(), item);
}

/// Each menu item has an action of its own: two items with the same action
/// are the same item.
pub proof fn lemma_actions_distinct(a: MenuId, b: MenuId)
    ensures
        action_of(a) == action_of(b) <==> a == b,
{
}

/// The response to a tray event, read off the clicked identifier:
/// `show` asks for the window to be shown and for nothing else, `hide` for
/// it to be hidden and for nothing else, `quit` for the process to end with
/// exit code 0 and for nothing else. Any other identifier, and an event
/// that is no menu click, asks for nothing.
pub proof fn lemma_click_response(event: TrayEvent)
    ensures
        event.clicked() == Some("show"@) ==> tray_response(event) == seq![HostOp::ShowWindow],
        event.clicked() == Some("hide"@) ==> tray_response(event) == seq![HostOp::HideWindow],
        event.clicked() == Some("quit"@) ==> tray_response(event) == seq![HostOp::Exit(0)],
        event.clicked() != Some("show"@) && event.clicked() != Some("hide"@) && event.clicked()
            != Some("quit"@) ==> tray_response(event) == Seq::<HostOp>::empty(),
{
    match event.clicked() {
        Some(id) => {
            MenuId::lemma_lookup_inverts_key(id, MenuId::Show);
            MenuId::lemma_lookup_inverts_key(id, MenuId::Hide);
            MenuId::lemma_lookup_inverts_key(id, MenuId::Quit);
        },
        None => {},
    }
}

} // verus!
