use kerio_kvc_indicator::menu::{ConfigurationError, MenuItem, MenuItemCollection, MenuSlot};
use kerio_kvc_indicator::service::{Service, ServiceCommand, ServiceState};

#[test]
fn complement_swaps_the_two_states() {
    assert_eq!(ServiceState::Active.complement(), ServiceState::Inactive);
    assert_eq!(ServiceState::Inactive.complement(), ServiceState::Active);
    assert_eq!(ServiceState::Active.complement().complement(), ServiceState::Active);
}

#[test]
fn probe_answer_becomes_a_state() {
    assert_eq!(ServiceState::from_active(true), ServiceState::Active);
    assert_eq!(ServiceState::from_active(false), ServiceState::Inactive);
    assert!(ServiceState::Active.is_active());
    assert!(!ServiceState::Inactive.is_active());
}

#[test]
fn running_service_is_stopped_and_stopped_service_is_restarted() {
    assert_eq!(ServiceCommand::toggling(ServiceState::Active), ServiceCommand::Stop);
    assert_eq!(ServiceCommand::toggling(ServiceState::Inactive), ServiceCommand::Restart);
}

#[test]
fn service_keeps_its_name() {
    let service = Service::new("kerio-kvc");
    assert_eq!(service.name(), "kerio-kvc");
    assert_eq!(Service::new("").name(), "");
}

#[test]
fn slot_names() {
    assert_eq!(MenuSlot::Status.name(), "status");
    assert_eq!(MenuSlot::Action.name(), "action");
    assert_eq!(MenuSlot::Quit.name(), "quit");
}

#[test]
fn menu_item_shows_the_title_of_the_state() {
    let item = MenuItem::new(7, MenuSlot::Action, "Stop it", "Start it");
    assert_eq!(item.menu_id(), 7);
    assert_eq!(item.slot(), MenuSlot::Action);
    assert_eq!(item.get_actual_title(true), "Stop it");
    assert_eq!(item.get_actual_title(false), "Start it");
}

#[test]
fn labels_are_checked_against_the_slot() {
    assert_eq!(MenuItem::new(1, MenuSlot::Status, "on", "off").check_labels(), Ok(()));
    assert_eq!(MenuItem::new(1, MenuSlot::Quit, "Quit", "Quit").check_labels(), Ok(()));
    assert_eq!(
        MenuItem::new(1, MenuSlot::Status, "", "off").check_labels(),
        Err(ConfigurationError::MissingLabel(MenuSlot::Status))
    );
    assert_eq!(
        MenuItem::new(1, MenuSlot::Action, "on", "").check_labels(),
        Err(ConfigurationError::MissingLabel(MenuSlot::Action))
    );
    assert_eq!(
        MenuItem::new(1, MenuSlot::Quit, "", "").check_labels(),
        Err(ConfigurationError::MissingLabel(MenuSlot::Quit))
    );
    assert_eq!(
        MenuItem::new(1, MenuSlot::Action, "same", "same").check_labels(),
        Err(ConfigurationError::IndistinctLabels(MenuSlot::Action))
    );
    assert_eq!(
        MenuItem::new(1, MenuSlot::Quit, "Quit", "Leave").check_labels(),
        Err(ConfigurationError::QuitVaries)
    );
}

#[test]
fn new_collection_is_empty() {
    let menu = MenuItemCollection::new();
    assert_eq!(menu.len(), 0);
    assert_eq!(menu.find(0), None);
    assert_eq!(menu.get_name(0), None);
    assert_eq!(menu.find_slot(MenuSlot::Status, 0), None);
    assert!(menu.switch_titles(true).is_empty());
}

#[test]
fn added_items_are_found_by_identifier() {
    let mut menu = MenuItemCollection::new();
    menu.add_item(MenuItem::new(10, MenuSlot::Status, "Status: Started", "Status: Stopped"));
    menu.add_item(MenuItem::new(20, MenuSlot::Action, "Stop", "Start"));
    menu.add_item(MenuItem::new(30, MenuSlot::Quit, "Quit", "Quit"));
    assert_eq!(menu.len(), 3);
    assert_eq!(menu.find(10), Some(0));
    assert_eq!(menu.find(20), Some(1));
    assert_eq!(menu.find(30), Some(2));
    assert_eq!(menu.find(40), None);
    assert_eq!(menu.get_name(10), Some(MenuSlot::Status));
    assert_eq!(menu.get_name(20), Some(MenuSlot::Action));
    assert_eq!(menu.get_name(30), Some(MenuSlot::Quit));
    assert_eq!(menu.get_name(31), None);
    assert_eq!(menu.item(1).get_actual_title(false), "Start");
}

#[test]
fn item_with_a_known_identifier_takes_the_old_ones_place() {
    let mut menu = MenuItemCollection::new();
    menu.add_item(MenuItem::new(10, MenuSlot::Status, "a", "b"));
    menu.add_item(MenuItem::new(20, MenuSlot::Action, "c", "d"));
    menu.add_item(MenuItem::new(10, MenuSlot::Quit, "e", "e"));
    assert_eq!(menu.len(), 2);
    assert_eq!(menu.find(10), Some(0));
    assert_eq!(menu.get_name(10), Some(MenuSlot::Quit));
    assert_eq!(menu.item(0).get_actual_title(true), "e");
    assert_eq!(menu.get_name(20), Some(MenuSlot::Action));
}

#[test]
fn find_slot_starts_where_it_is_told() {
    let mut menu = MenuItemCollection::new();
    menu.add_item(MenuItem::new(1, MenuSlot::Action, "a", "b"));
    menu.add_item(MenuItem::new(2, MenuSlot::Status, "c", "d"));
    menu.add_item(MenuItem::new(3, MenuSlot::Action, "e", "f"));
    assert_eq!(menu.find_slot(MenuSlot::Action, 0), Some(0));
    assert_eq!(menu.find_slot(MenuSlot::Action, 1), Some(2));
    assert_eq!(menu.find_slot(MenuSlot::Action, 3), None);
    assert_eq!(menu.find_slot(MenuSlot::Action, 100), None);
    assert_eq!(menu.find_slot(MenuSlot::Status, 0), Some(1));
    assert_eq!(menu.find_slot(MenuSlot::Quit, 0), None);
}

#[test]
fn switch_titles_gives_every_entry_its_title() {
    let mut menu = MenuItemCollection::new();
    menu.add_item(MenuItem::new(10, MenuSlot::Status, "Status: Started", "Status: Stopped"));
    menu.add_item(MenuItem::new(20, MenuSlot::Action, "Stop", "Start"));
    menu.add_item(MenuItem::new(30, MenuSlot::Quit, "Quit", "Quit"));
    assert_eq!(
        menu.switch_titles(true),
        vec![
            (10, "Status: Started".to_string()),
            (20, "Stop".to_string()),
            (30, "Quit".to_string()),
        ]
    );
    assert_eq!(
        menu.switch_titles(false),
        vec![
            (10, "Status: Stopped".to_string()),
            (20, "Start".to_string()),
            (30, "Quit".to_string()),
        ]
    );
}
