//! The indicator's own settings: the unit it watches, the files of its two
//! icons, and the titles of its menu.

use vstd::prelude::*;
use crate::icon::IconId;
use crate::menu::{
    has_id, has_slot, position_of_id, position_of_slot, slot_unique, ConfigurationError, MenuItem,
    MenuItemCollection, MenuItemView, MenuSlot,
};
use crate::presentation::{slot_fault, table_fault, PresentationTable};
use crate::service::Service;

verus! {

/// The name of the watched unit.
pub open spec fn spec_service_name() -> Seq<char> {
    "kerio-kvc"@
}

/// The watched unit.
pub fn service() -> (service: Service)
    ensures
        service.spec_name() == spec_service_name(),
{
    Service::new("kerio-kvc")
}

/// The name of the file that holds the icon `id`.
pub open spec fn spec_icon_file_name(id: IconId) -> Seq<char> {
    match id {
        IconId::Started => "kerio_active.png"@,
        IconId::Stopped => "kerio_inactive.png"@,
    }
}

/// The name of the file that holds the icon `id`.
pub fn icon_file_name(id: IconId) -> (name: &'static str)
    ensures
        name@ == spec_icon_file_name(id),
{
    match id {
        IconId::Started => "kerio_active.png",
        IconId::Stopped => "kerio_inactive.png",
    }
}

/// The title under which the menu is first built for `slot`, and which the
/// entry shows while the service runs.
pub open spec fn spec_active_title(slot: MenuSlot) -> Seq<char> {
    match slot {
        MenuSlot::Status => "Status: Started"@,
        MenuSlot::Action => "Stop kerio-kvc service"@,
        MenuSlot::Quit => "Quit"@,
    }
}

/// The title the entry for `slot` shows while the service does not run.
pub open spec fn spec_inactive_title(slot: MenuSlot) -> Seq<char> {
    match slot {
        MenuSlot::Status => "Status: Stopped"@,
        MenuSlot::Action => "Start kerio-kvc service"@,
        MenuSlot::Quit => "Quit"@,
    }
}

/// The title the entry for `slot` shows while the service runs.
pub fn active_title(slot: MenuSlot) -> (title: &'static str)
    ensures
        title@ == spec_active_title(slot),
{
    match slot {
        MenuSlot::Status => "Status: Started",
        MenuSlot::Action => "Stop kerio-kvc service",
        MenuSlot::Quit => "Quit",
    }
}

/// The title the entry for `slot` shows while the service does not run.
pub fn inactive_title(slot: MenuSlot) -> (title: &'static str)
    ensures
        title@ == spec_inactive_title(slot),
{
    match slot {
        MenuSlot::Status => "Status: Stopped",
        MenuSlot::Action => "Start kerio-kvc service",
        MenuSlot::Quit => "Quit",
    }
}

/// The indicator's entry for `slot`, known to the toolkit as `menu_id`.
pub open spec fn spec_menu_item(slot: MenuSlot, menu_id: u16) -> MenuItemView {
    MenuItemView {
        menu_id,
        slot,
        active_title: spec_active_title(slot),
        inactive_title: spec_inactive_title(slot),
    }
}

/// The indicator's entry for `slot`, known to the toolkit as `menu_id`.
pub fn menu_item(slot: MenuSlot, menu_id: u16) -> (item: MenuItem)
    ensures
        item@ == spec_menu_item(slot, menu_id),
{
    MenuItem::new(menu_id, slot, active_title(slot), inactive_title(slot))
}

/// The indicator's titles are as each slot demands: none is empty, the quit
/// entry has one, the others have two.
pub proof fn titles_are_well_formed(slot: MenuSlot, menu_id: u16)
    ensures
        spec_menu_item(slot, menu_id).well_labelled(),
{
    reveal_strlit("Status: Started");
    reveal_strlit("Status: Stopped");
    reveal_strlit("Stop kerio-kvc service");
    reveal_strlit("Start kerio-kvc service");
    reveal_strlit("Quit");
    assert("Status: Started"@[10] != "Status: Stopped"@[10]);
    assert("Stop kerio-kvc service"@.len() != "Start kerio-kvc service"@.len());
}

/// The indicator's menu when the toolkit knows its three entries by three
/// different identifiers.
pub open spec fn spec_menu(status_id: u16, action_id: u16, quit_id: u16) -> Seq<MenuItemView> {
    seq![
        spec_menu_item(MenuSlot::Status, status_id),
        spec_menu_item(MenuSlot::Action, action_id),
        spec_menu_item(MenuSlot::Quit, quit_id),
    ]
}

/// The indicator's table, its entries known to the toolkit by the three
/// identifiers given. Identifiers that differ from each other give the table
/// of [`spec_menu`]. Where two are equal, the later entry has taken the
/// earlier one's place, and the slot left empty is reported.
pub fn table(status_id: u16, action_id: u16, quit_id: u16) -> (built: Result<
    PresentationTable,
    ConfigurationError,
>)
    ensures
        match built {
            Ok(table) => status_id != action_id && status_id != quit_id && action_id != quit_id
                && table.wf() && table.entries() == spec_menu(status_id, action_id, quit_id),
            Err(fault) => if status_id == action_id || status_id == quit_id {
                fault == ConfigurationError::MissingSlot(MenuSlot::Status)
            } else {
                action_id == quit_id && fault == ConfigurationError::MissingSlot(MenuSlot::Action)
            },
        },
{
    let mut menu = MenuItemCollection::new();
    menu.add_item(menu_item(MenuSlot::Status, status_id));
    assert(menu@ =~= seq![spec_menu_item(MenuSlot::Status, status_id)]);
    menu.add_item(menu_item(MenuSlot::Action, action_id));
    proof {
        if status_id == action_id {
            assert(menu@[0].menu_id == action_id);
            assert(menu@ =~= seq![spec_menu_item(MenuSlot::Action, action_id)]);
        } else {
            assert(menu@ =~= seq![
                spec_menu_item(MenuSlot::Status, status_id),
                spec_menu_item(MenuSlot::Action, action_id),
            ]);
        }
    }
    let ghost two = menu@;
    menu.add_item(menu_item(MenuSlot::Quit, quit_id));
    proof {
        let quit = spec_menu_item(MenuSlot::Quit, quit_id);
        if status_id == action_id {
            if quit_id == action_id {
                assert(two[0].menu_id == quit_id);
                assert(menu@ =~= seq![quit]);
            } else {
                assert(menu@ =~= seq![spec_menu_item(MenuSlot::Action, action_id), quit]);
            }
            assert(!has_slot(menu@, MenuSlot::Status));
        } else if quit_id == status_id {
            assert(two[0].menu_id == quit_id);
            assert(position_of_id(two, quit_id) == 0);
            assert(menu@ =~= seq![quit, spec_menu_item(MenuSlot::Action, action_id)]);
            assert(!has_slot(menu@, MenuSlot::Status));
        } else if quit_id == action_id {
            assert(two[1].menu_id == quit_id);
            assert(position_of_id(two, quit_id) == 1);
            assert(menu@ =~= seq![spec_menu_item(MenuSlot::Status, status_id), quit]);
            assert(menu@[0].slot == MenuSlot::Status);
            assert(position_of_slot(menu@, MenuSlot::Status) == 0);
            titles_are_well_formed(MenuSlot::Status, status_id);
            assert(slot_fault(menu@, MenuSlot::Status) is None);
            assert(!has_slot(menu@, MenuSlot::Action));
        } else {
            assert(menu@ =~= spec_menu(status_id, action_id, quit_id));
            menu_is_fit(status_id, action_id, quit_id);
        }
    }
    PresentationTable::build(menu)
}

/// The indicator's menu is fit to draw the tray from.
pub proof fn menu_is_fit(status_id: u16, action_id: u16, quit_id: u16)
    ensures
        table_fault(spec_menu(status_id, action_id, quit_id)) is None,
        position_of_slot(spec_menu(status_id, action_id, quit_id), MenuSlot::Status) == 0,
        position_of_slot(spec_menu(status_id, action_id, quit_id), MenuSlot::Action) == 1,
        position_of_slot(spec_menu(status_id, action_id, quit_id), MenuSlot::Quit) == 2,
{
    let items = spec_menu(status_id, action_id, quit_id);
    assert(items[0].slot == MenuSlot::Status);
    assert(items[1].slot == MenuSlot::Action);
    assert(items[2].slot == MenuSlot::Quit);
    titles_are_well_formed(MenuSlot::Status, status_id);
    titles_are_well_formed(MenuSlot::Action, action_id);
    titles_are_well_formed(MenuSlot::Quit, quit_id);
}

} // verus!
