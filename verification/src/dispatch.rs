//! From a click on the menu to what the user meant by it.

use vstd::prelude::*;
use crate::menu::{has_id, position_of_id, MenuItemView, MenuSlot};
use crate::presentation::PresentationTable;

verus! {

/// What the user asks of the indicator.
#[derive(Clone, Copy, Debug, PartialEq, Eq, Structural)]
pub enum UserIntent {
    /// Show the service's present state; leave the service alone.
    RefreshStatus,
    /// Stop the service if it runs, bring it up if it does not.
    ToggleService,
    /// Leave the indicator.
    Quit,
}

/// The kind of menu a selection came from.
#[derive(Clone, Copy, Debug, PartialEq, Eq, Structural)]
pub enum MenuOrigin {
    /// A window's menu bar.
    MenuBar,
    /// The tray's context menu.
    ContextMenu,
}

/// A selection as the toolkit reports it.
#[derive(Clone, Copy, Debug, PartialEq, Eq, Structural)]
pub struct Selection {
    pub origin: MenuOrigin,
    pub menu_id: u16,
}

/// What a click on the entry that fills `slot` asks for.
pub open spec fn intent_of(slot: MenuSlot) -> UserIntent {
    match slot {
        MenuSlot::Status => UserIntent::RefreshStatus,
        MenuSlot::Action => UserIntent::ToggleService,
        MenuSlot::Quit => UserIntent::Quit,
    }
}

/// What `selection` asks for on a menu of `items`: the intent of the entry it
/// names, and nothing where it comes from another menu than the tray's or
/// names no entry.
pub open spec fn dispatched(items: Seq<MenuItemView>, selection: Selection) -> Option<UserIntent> {
    if selection.origin == MenuOrigin::ContextMenu && has_id(items, selection.menu_id) {
        Some(intent_of(items[position_of_id(items, selection.menu_id)].slot))
    } else {
        None
    }
}

/// What a click on the entry that fills `slot` asks for.
pub fn intent_for(slot: MenuSlot) -> (intent: UserIntent)
    ensures
        intent == intent_of(slot),
{
    match slot {
        MenuSlot::Status => UserIntent::RefreshStatus,
        MenuSlot::Action => UserIntent::ToggleService,
        MenuSlot::Quit => UserIntent::Quit,
    }
}

/// Resolves a selection against the table. A selection that did not come from
/// the tray's context menu, or that names no entry of the table, asks for
/// nothing.
pub fn dispatch(table: &PresentationTable, selection: Selection) -> (intent: Option<UserIntent>)
    requires
        table.wf(),
    ensures
        intent == dispatched(table.entries(), selection),
{
    match selection.origin {
        MenuOrigin::MenuBar => None,
        MenuOrigin::ContextMenu => match table.slot_of(selection.menu_id) {
            Some(slot) => Some(intent_for(slot)),
            None => None,
        },
    }
}

} // verus!
