//! What the tray shows, and the table from which it is derived.
//!
//! A [`Presentation`] is a function of the service's state and of the table
//! alone: nothing that was shown before enters into it.

use vstd::prelude::*;
use vstd::string::*;
use crate::icon::IconId;
use crate::menu::{
    has_id, has_slot, ids_distinct, position_of_id, position_of_slot, slot_unique,
    ConfigurationError, MenuItemCollection, MenuItemView, MenuSlot,
};
use crate::service::ServiceState;

verus! {

/// What the tray shows, as contracts see it.
pub struct PresentationView {
    pub icon: IconId,
    pub status_label: Seq<char>,
    pub action_label: Seq<char>,
}

/// What the tray shows: its icon and the titles of the two entries that
/// depend on the service's state.
#[derive(Debug, PartialEq, Eq)]
pub struct Presentation {
    pub icon: IconId,
    pub status_label: String,
    pub action_label: String,
}

impl View for Presentation {
    type V = PresentationView;

    open spec fn view(&self) -> PresentationView {
        PresentationView {
            icon: self.icon,
            status_label: self.status_label@,
            action_label: self.action_label@,
        }
    }
}

impl Clone for Presentation {
    fn clone(&self) -> (copy: Presentation)
        ensures
            copy@ == self@,
    {
        Presentation {
            icon: self.icon,
            status_label: self.status_label.clone(),
            action_label: self.action_label.clone(),
        }
    }
}

/// What keeps `items` from serving `slot`, if anything: no entry fills it,
/// several do, or the one that does has titles its slot does not allow.
pub open spec fn slot_fault(items: Seq<MenuItemView>, slot: MenuSlot) -> Option<
    ConfigurationError,
> {
    if !has_slot(items, slot) {
        Some(ConfigurationError::MissingSlot(slot))
    } else if !slot_unique(items, slot) {
        Some(ConfigurationError::DuplicateSlot(slot))
    } else {
        items[position_of_slot(items, slot)].label_fault()
    }
}

/// The first fault of `items`, the slots taken in the order status, action,
/// quit; `None` where the tray can be drawn from them.
pub open spec fn table_fault(items: Seq<MenuItemView>) -> Option<ConfigurationError> {
    if slot_fault(items, MenuSlot::Status) is Some {
        slot_fault(items, MenuSlot::Status)
    } else if slot_fault(items, MenuSlot::Action) is Some {
        slot_fault(items, MenuSlot::Action)
    } else {
        slot_fault(items, MenuSlot::Quit)
    }
}

/// The title that `items` give `slot` while the service is in `state`.
pub open spec fn label_of(items: Seq<MenuItemView>, slot: MenuSlot, state: ServiceState) -> Seq<
    char,
> {
    items[position_of_slot(items, slot)].title_for(state)
}

/// What the tray shows for `state` when drawn from `items`.
pub open spec fn presentation_of(items: Seq<MenuItemView>, state: ServiceState) -> PresentationView {
    PresentationView {
        icon: IconId::spec_for_state(state),
        status_label: label_of(items, MenuSlot::Status, state),
        action_label: label_of(items, MenuSlot::Action, state),
    }
}

/// A menu found fit to draw the tray from: each of the three slots is filled
/// by exactly one entry, whose titles are as the slot demands. Built once and
/// never changed.
pub struct PresentationTable {
    menu: MenuItemCollection,
    status_at: usize,
    action_at: usize,
    quit_at: usize,
}

impl PresentationTable {
    /// The table's entries.
    pub closed spec fn entries(&self) -> Seq<MenuItemView> {
        self.menu@
    }

    /// The table remembers where each slot's entry stands.
    pub closed spec fn indexed(&self) -> bool {
        &&& self.status_at < self.menu@.len()
        &&& self.action_at < self.menu@.len()
        &&& self.quit_at < self.menu@.len()
        &&& self.menu@[self.status_at as int].slot == MenuSlot::Status
        &&& self.menu@[self.action_at as int].slot == MenuSlot::Action
        &&& self.menu@[self.quit_at as int].slot == MenuSlot::Quit
    }

    /// The table is what [`PresentationTable::build`] accepts.
    pub open spec fn wf(&self) -> bool {
        &&& ids_distinct(self.entries())
        &&& table_fault(self.entries()) is None
        &&& self.indexed()
    }

    /// Checks `menu` and makes it the table. Fails with the first fault that
    /// [`table_fault`] finds, and only then.
    pub fn build(menu: MenuItemCollection) -> (built: Result<PresentationTable, ConfigurationError>)
        requires
            menu.wf(),
        ensures
            match built {
                Ok(table) => table.wf() && table.entries() == menu@ && table_fault(menu@) is None,
                Err(fault) => table_fault(menu@) == Some(fault),
            },
    {
        let status_at = match Self::locate(&menu, MenuSlot::Status) {
            Ok(i) => i,
            Err(fault) => {
                return Err(fault);
            },
        };
        let action_at = match Self::locate(&menu, MenuSlot::Action) {
            Ok(i) => i,
            Err(fault) => {
                return Err(fault);
            },
        };
        let quit_at = match Self::locate(&menu, MenuSlot::Quit) {
            Ok(i) => i,
            Err(fault) => {
                return Err(fault);
            },
        };
        Ok(PresentationTable { menu, status_at, action_at, quit_at })
    }

    /// Where the one well-labelled entry for `slot` stands, or the slot's
    /// fault.
    fn locate(menu: &MenuItemCollection, slot: MenuSlot) -> (located: Result<
        usize,
        ConfigurationError,
    >)
        ensures
            match located {
                Ok(i) => slot_fault(menu@, slot) is None && i < menu@.len() && menu@[i as int].slot
                    == slot && i == position_of_slot(menu@, slot),
                Err(fault) => slot_fault(menu@, slot) == Some(fault),
            },
    {
        match menu.find_slot(slot, 0) {
            None => Err(ConfigurationError::MissingSlot(slot)),
            Some(i) => {
                assert(has_slot(menu@, slot));
                let n = menu.len();
                match menu.find_slot(slot, i + 1) {
                    Some(j) => {
                        assert(!slot_unique(menu@, slot));
                        Err(ConfigurationError::DuplicateSlot(slot))
                    },
                    None => {
                        assert(slot_unique(menu@, slot));
                        assert(position_of_slot(menu@, slot) == i);
                        match menu.item(i).check_labels() {
                            Ok(()) => Ok(i),
                            Err(fault) => Err(fault),
                        }
                    },
                }
            },
        }
    }

    /// The title of `slot` while the service is in `state`.
    pub fn label_for(&self, slot: MenuSlot, state: ServiceState) -> (label: String)
        requires
            self.wf(),
        ensures
            label@ == label_of(self.entries(), slot, state),
    {
        let at = match slot {
            MenuSlot::Status => self.status_at,
            MenuSlot::Action => self.action_at,
            MenuSlot::Quit => self.quit_at,
        };
        proof {
            self.slots_located();
        }
        String::from_str(self.menu.item(at).get_actual_title(state.is_active()))
    }

    /// The icon for `state`.
    pub fn icon_for(&self, state: ServiceState) -> (icon: IconId)
        ensures
            icon == IconId::spec_for_state(state),
    {
        IconId::for_state(state)
    }

    /// What the tray shows for `state`.
    pub fn compute_presentation(&self, state: ServiceState) -> (shown: Presentation)
        requires
            self.wf(),
        ensures
            shown@ == presentation_of(self.entries(), state),
    {
        Presentation {
            icon: self.icon_for(state),
            status_label: self.label_for(MenuSlot::Status, state),
            action_label: self.label_for(MenuSlot::Action, state),
        }
    }

    /// The slot of the entry known as `menu_id`, if the table has one.
    pub fn slot_of(&self, menu_id: u16) -> (slot: Option<MenuSlot>)
        requires
            self.wf(),
        ensures
            slot is Some <==> has_id(self.entries(), menu_id),
            slot is Some ==> slot->Some_0 == self.entries()[position_of_id(
                self.entries(),
                menu_id,
            )].slot,
    {
        self.menu.get_name(menu_id)
    }

    /// The title each entry is to show, given whether the service runs: one
    /// pair of identifier and title per entry, in the menu's order.
    pub fn switch_titles(&self, is_active: bool) -> (titles: Vec<(u16, String)>)
        ensures
            titles@.len() == self.entries().len(),
            forall|i: int|
                0 <= i < self.entries().len() ==> (#[trigger] titles@[i]).0
                    == self.entries()[i].menu_id && titles@[i].1@ == self.entries()[i].title_for(
                    ServiceState::spec_from_active(is_active),
                ),
    {
        self.menu.switch_titles(is_active)
    }

    /// In a well-formed table the remembered positions are those of the
    /// slots' entries.
    proof fn slots_located(&self)
        requires
            self.wf(),
        ensures
            self.status_at == position_of_slot(self.entries(), MenuSlot::Status),
            self.action_at == position_of_slot(self.entries(), MenuSlot::Action),
            self.quit_at == position_of_slot(self.entries(), MenuSlot::Quit),
    {
        let items = self.entries();
        assert(items[self.status_at as int].slot == MenuSlot::Status);
        assert(items[self.action_at as int].slot == MenuSlot::Action);
        assert(items[self.quit_at as int].slot == MenuSlot::Quit);
        assert(slot_fault(items, MenuSlot::Status) is None);
        assert(slot_fault(items, MenuSlot::Action) is None);
        assert(slot_fault(items, MenuSlot::Quit) is None);
    }
}

} // verus!
