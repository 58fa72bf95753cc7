//! The tray menu as plain data: which entries exist, under which identifier
//! the toolkit reports a click on each, and which title each shows in each
//! state of the service.

use vstd::prelude::*;
use vstd::string::*;
use crate::service::ServiceState;

verus! {

/// What a menu entry is for.
#[derive(Clone, Copy, Debug, PartialEq, Eq, Structural)]
pub enum MenuSlot {
    Status,
    Action,
    Quit,
}

impl MenuSlot {
    /// The entry's name.
    pub open spec fn spec_name(self) -> Seq<char> {
        match self {
            MenuSlot::Status => "status"@,
            MenuSlot::Action => "action"@,
            MenuSlot::Quit => "quit"@,
        }
    }

    /// The entry's name.
    pub fn name(self) -> (name: &'static str)
        ensures
            name@ == self.spec_name(),
    {
        match self {
            MenuSlot::Status => "status",
            MenuSlot::Action => "action",
            MenuSlot::Quit => "quit",
        }
    }
}

/// Why a menu cannot serve as the table from which the tray is drawn.
#[derive(Clone, Copy, Debug, PartialEq, Eq, Structural)]
pub enum ConfigurationError {
    /// No entry fills the slot.
    MissingSlot(MenuSlot),
    /// More than one entry fills the slot.
    DuplicateSlot(MenuSlot),
    /// The slot's entry has an empty title for one of the two states.
    MissingLabel(MenuSlot),
    /// The slot's entry shows the same title in both states, though it is
    /// there to tell them apart.
    IndistinctLabels(MenuSlot),
    /// The quit entry's title depends on the state.
    QuitVaries,
}

/// A menu entry as contracts see it.
pub struct MenuItemView {
    pub menu_id: u16,
    pub slot: MenuSlot,
    pub active_title: Seq<char>,
    pub inactive_title: Seq<char>,
}

impl MenuItemView {
    /// The title the entry shows while the service is in `state`.
    pub open spec fn title_for(self, state: ServiceState) -> Seq<char> {
        match state {
            ServiceState::Active => self.active_title,
            ServiceState::Inactive => self.inactive_title,
        }
    }

    /// What is wrong with the entry's two titles, if anything. Both must be
    /// there. The quit entry shows one title whatever the state; every other
    /// entry shows two different ones.
    pub open spec fn label_fault(self) -> Option<ConfigurationError> {
        if self.active_title.len() == 0 || self.inactive_title.len() == 0 {
            Some(ConfigurationError::MissingLabel(self.slot))
        } else if self.slot == MenuSlot::Quit {
            if self.active_title == self.inactive_title {
                None
            } else {
                Some(ConfigurationError::QuitVaries)
            }
        } else if self.active_title == self.inactive_title {
            Some(ConfigurationError::IndistinctLabels(self.slot))
        } else {
            None
        }
    }

    /// The entry's titles are as its slot demands.
    pub open spec fn well_labelled(self) -> bool {
        self.label_fault() is None
    }
}

/// One entry of the tray menu.
pub struct MenuItem {
    menu_id: u16,
    slot: MenuSlot,
    active_title: String,
    inactive_title: String,
}

impl View for MenuItem {
    type V = MenuItemView;

    closed spec fn view(&self) -> MenuItemView {
        MenuItemView {
            menu_id: self.menu_id,
            slot: self.slot,
            active_title: self.active_title@,
            inactive_title: self.inactive_title@,
        }
    }
}

impl MenuItem {
    /// An entry that the toolkit knows as `menu_id`, fills `slot`, and shows
    /// `active_title` while the service runs and `inactive_title` while it
    /// does not.
    pub fn new(menu_id: u16, slot: MenuSlot, active_title: &str, inactive_title: &str) -> (item:
        MenuItem)
        ensures
            item@ == (MenuItemView {
                menu_id,
                slot,
                active_title: active_title@,
                inactive_title: inactive_title@,
            }),
    {
        MenuItem {
            menu_id,
            slot,
            active_title: String::from_str(active_title),
            inactive_title: String::from_str(inactive_title),
        }
    }

    /// The identifier under which the toolkit reports a click on the entry.
    pub fn menu_id(&self) -> (menu_id: u16)
        ensures
            menu_id == self@.menu_id,
    {
        self.menu_id
    }

    /// The slot the entry fills.
    pub fn slot(&self) -> (slot: MenuSlot)
        ensures
            slot == self@.slot,
    {
        self.slot
    }

    /// The title to show, given whether the service runs.
    pub fn get_actual_title(&self, is_active: bool) -> (title: &str)
        ensures
            title@ == self@.title_for(ServiceState::spec_from_active(is_active)),
    {
        match is_active {
            true => self.active_title.as_str(),
            false => self.inactive_title.as_str(),
        }
    }

    /// Checks the entry's two titles against what its slot demands.
    pub fn check_labels(&self) -> (checked: Result<(), ConfigurationError>)
        ensures
            checked is Ok <==> self@.well_labelled(),
            checked is Err ==> self@.label_fault() == Some(checked->Err_0),
    {
        if self.active_title.as_str().is_empty() || self.inactive_title.as_str().is_empty() {
            return Err(ConfigurationError::MissingLabel(self.slot));
        }
        let same = self.active_title == self.inactive_title;
        match self.slot {
            MenuSlot::Quit => {
                if same {
                    Ok(())
                } else {
                    Err(ConfigurationError::QuitVaries)
                }
            },
            _ => {
                if same {
                    Err(ConfigurationError::IndistinctLabels(self.slot))
                } else {
                    Ok(())
                }
            },
        }
    }
}

/// Whether some entry of `items` is known as `menu_id`.
pub open spec fn has_id(items: Seq<MenuItemView>, menu_id: u16) -> bool {
    exists|i: int| 0 <= i < items.len() && #[trigger] items[i].menu_id == menu_id
}

/// The position of the entry known as `menu_id`.
pub open spec fn position_of_id(items: Seq<MenuItemView>, menu_id: u16) -> int {
    choose|i: int| 0 <= i < items.len() && #[trigger] items[i].menu_id == menu_id
}

/// No two entries of `items` share an identifier.
pub open spec fn ids_distinct(items: Seq<MenuItemView>) -> bool {
    forall|i: int, j: int|
        0 <= i < items.len() && 0 <= j < items.len() && #[trigger] items[i].menu_id
            == #[trigger] items[j].menu_id ==> i == j
}

/// Whether some entry of `items` fills `slot`.
pub open spec fn has_slot(items: Seq<MenuItemView>, slot: MenuSlot) -> bool {
    exists|i: int| 0 <= i < items.len() && #[trigger] items[i].slot == slot
}

/// At most one entry of `items` fills `slot`.
pub open spec fn slot_unique(items: Seq<MenuItemView>, slot: MenuSlot) -> bool {
    forall|i: int, j: int|
        0 <= i < items.len() && 0 <= j < items.len() && #[trigger] items[i].slot == slot
            && #[trigger] items[j].slot == slot ==> i == j
}

/// The position of the entry that fills `slot`.
pub open spec fn position_of_slot(items: Seq<MenuItemView>, slot: MenuSlot) -> int {
    choose|i: int| 0 <= i < items.len() && #[trigger] items[i].slot == slot
}

/// The entries of a tray menu, in the order in which they were added, each
/// under an identifier of its own.
pub struct MenuItemCollection {
    items: Vec<MenuItem>,
}

impl View for MenuItemCollection {
    type V = Seq<MenuItemView>;

    closed spec fn view(&self) -> Seq<MenuItemView> {
        Seq::new(self.items@.len(), |i: int| self.items@[i]@)
    }
}

impl MenuItemCollection {
    /// No two entries share an identifier.
    pub open spec fn wf(&self) -> bool {
        ids_distinct(self@)
    }

    /// A menu without entries.
    pub fn new() -> (menu: MenuItemCollection)
        ensures
            menu@ == Seq::<MenuItemView>::empty(),
            menu.wf(),
    {
        MenuItemCollection { items: Vec::new() }
    }

    /// The number of entries.
    pub fn len(&self) -> (n: usize)
        ensures
            n == self@.len(),
    {
        self.items.len()
    }

    /// Where the entry known as `menu_id` stands, if there is one.
    pub fn find(&self, menu_id: u16) -> (found: Option<usize>)
        ensures
            found is Some <==> has_id(self@, menu_id),
            found matches Some(i) ==> i < self@.len() && self@[i as int].menu_id == menu_id,
            self.wf() && found is Some ==> found->Some_0 == position_of_id(self@, menu_id),
    {
        let mut i: usize = 0;
        while i < self.items.len()
            invariant
                i <= self.items.len(),
                forall|j: int| 0 <= j < i ==> (#[trigger] self@[j]).menu_id != menu_id,
            decreases self.items.len() - i,
        {
            if self.items[i].menu_id == menu_id {
                proof {
                    assert(self@[i as int].menu_id == menu_id);
                }
                return Some(i);
            }
            i += 1;
        }
        None
    }

    /// Adds an entry. An entry already known under the same identifier gives
    /// way to the new one, which takes its place; otherwise the new entry
    /// comes last.
    pub fn add_item(&mut self, menu_item: MenuItem)
        requires
            old(self).wf(),
        ensures
            final(self).wf(),
            has_id(old(self)@, menu_item@.menu_id) ==> final(self)@ == old(self)@.update(
                position_of_id(old(self)@, menu_item@.menu_id),
                menu_item@,
            ),
            !has_id(old(self)@, menu_item@.menu_id) ==> final(self)@ == old(self)@.push(
                menu_item@,
            ),
    {
        let ghost before = self@;
        match self.find(menu_item.menu_id) {
            Some(i) => {
                self.items.set(i, menu_item);
                proof {
                    assert(self@ =~= before.update(i as int, menu_item@));
                }
            },
            None => {
                self.items.push(menu_item);
                proof {
                    assert(self@ =~= before.push(menu_item@));
                }
            },
        }
    }

    /// The slot of the entry known as `menu_id`; `None` where the menu has no
    /// such entry.
    pub fn get_name(&self, menu_id: u16) -> (slot: Option<MenuSlot>)
        ensures
            slot is Some <==> has_id(self@, menu_id),
            slot matches Some(s) ==> exists|i: int|
                0 <= i < self@.len() && #[trigger] self@[i].menu_id == menu_id && self@[i].slot
                    == s,
            self.wf() && slot is Some ==> slot->Some_0 == self@[position_of_id(
                self@,
                menu_id,
            )].slot,
    {
        match self.find(menu_id) {
            Some(i) => Some(self.items[i].slot),
            None => None,
        }
    }

    /// The entry at position `i`.
    pub fn item(&self, i: usize) -> (item: &MenuItem)
        requires
            i < self@.len(),
        ensures
            item@ == self@[i as int],
    {
        &self.items[i]
    }

    /// The first position from `from` on whose entry fills `slot`.
    pub fn find_slot(&self, slot: MenuSlot, from: usize) -> (found: Option<usize>)
        ensures
            match found {
                Some(i) => from <= i < self@.len() && self@[i as int].slot == slot && forall|
                    j: int,
                | from <= j < i ==> (#[trigger] self@[j]).slot != slot,
                None => forall|j: int| from <= j < self@.len() ==> (#[trigger] self@[j]).slot != slot,
            },
    {
        let mut i: usize = from;
        while i < self.items.len()
            invariant
                from <= i,
                forall|j: int| from <= j < i && j < self@.len() ==> (#[trigger] self@[j]).slot != slot,
            decreases self.items.len() - i,
        {
            if self.items[i].slot == slot {
                proof {
                    assert(self@[i as int].slot == slot);
                }
                return Some(i);
            }
            i += 1;
        }
        None
    }

    /// The title each entry is to show, given whether the service runs: one
    /// pair of identifier and title per entry, in the menu's order.
    pub fn switch_titles(&self, is_active: bool) -> (titles: Vec<(u16, String)>)
        ensures
            titles@.len() == self@.len(),
            forall|i: int|
                0 <= i < self@.len() ==> (#[trigger] titles@[i]).0 == self@[i].menu_id
                    && titles@[i].1@ == self@[i].title_for(
                    ServiceState::spec_from_active(is_active),
                ),
    {
        let mut titles: Vec<(u16, String)> = Vec::new();
        let mut i: usize = 0;
        while i < self.items.len()
            invariant
                i <= self.items.len(),
                titles@.len() == i,
                forall|j: int|
                    0 <= j < i ==> (#[trigger] titles@[j]).0 == self@[j].menu_id && titles@[j].1@
                        == self@[j].title_for(ServiceState::spec_from_active(is_active)),
            decreases self.items.len() - i,
        {
            let item = &self.items[i];
            let title = String::from_str(item.get_actual_title(is_active));
            titles.push((item.menu_id, title));
            i += 1;
        }
        titles
    }
}

} // verus!
