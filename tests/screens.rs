use judo::config::{Config, DBConfig};
use judo::items::ItemsComponent;
use judo::lists::ListsComponent;
use judo::models::{TodoItem, TodoList, UIItem, UIList};
use judo::state::{App, CurrentScreen, Effect, Key};

fn item(id: i64, name: &str, position: i64) -> UIItem {
    UIItem {
        item: TodoItem { id, list_id: 1, name: name.to_string(), is_done: false, position },
    }
}

fn items(names: &[&str]) -> Vec<UIItem> {
    names.iter().enumerate().map(|(i, n)| item(10 + i as i64, n, i as i64)).collect()
}

fn list(id: i64, name: &str, its: Vec<UIItem>) -> UIList {
    UIList::new(TodoList { id, name: name.to_string(), position: id }, its)
}

fn db(name: &str) -> DBConfig {
    DBConfig { name: name.to_string(), connection_str: format!("sqlite:{}.db", name) }
}

fn app(lists: Vec<UIList>) -> App {
    let mut config = Config::with_database(db("dojo"));
    config.add_database(db("work"), false);
    App::new(config, db("dojo"), lists)
}

fn type_text(app: &mut App, text: &str) {
    for c in text.chars() {
        assert!(matches!(app.handle_key_event(Key::Char(c)), Effect::Nothing));
    }
}

#[test]
fn delete_middle_item_keeps_index() {
    let mut ui = list(1, "L", items(&["A", "B", "C"]));
    assert_eq!(ui.item_state, None);
    ItemsComponent::select_next_item(&mut ui);
    ItemsComponent::select_next_item(&mut ui);
    assert_eq!(ui.item_state, Some(1));
    let fresh = vec![item(10, "A", 0), item(12, "C", 1)];
    ItemsComponent::delete_selected_item(&mut ui, fresh);
    assert_eq!(ui.items.len(), 2);
    assert_eq!(ui.item_state, Some(1));
    assert_eq!(ui.items[1].item.name, "C");
}

#[test]
fn delete_last_item_selects_previous() {
    let mut ui = list(1, "L", items(&["A", "B", "C"]));
    ui.item_state = Some(2);
    ItemsComponent::delete_selected_item(&mut ui, items(&["A", "B"]));
    assert_eq!(ui.item_state, Some(1));
}

#[test]
fn delete_only_item_clears_selection() {
    let mut ui = list(1, "L", items(&["A"]));
    ui.item_state = Some(0);
    ItemsComponent::delete_selected_item(&mut ui, vec![]);
    assert_eq!(ui.item_state, None);
}

#[test]
fn toggle_done_keeps_selection() {
    let mut ui = list(1, "L", items(&["A", "B"]));
    ui.item_state = Some(1);
    ItemsComponent::toggle_item_done(&mut ui);
    assert!(ui.items[1].item.is_done);
    assert!(!ui.items[0].item.is_done);
    assert_eq!(ui.item_state, Some(1));
    ItemsComponent::toggle_item_done(&mut ui);
    assert!(!ui.items[1].item.is_done);
}

#[test]
fn rename_item_keeps_selection() {
    let mut ui = list(1, "L", items(&["A", "B"]));
    ui.item_state = Some(1);
    ItemsComponent::update_item(&mut ui, items(&["A", "Bee"]));
    assert_eq!(ui.item_state, Some(1));
    assert_eq!(ui.items[1].item.name, "Bee");
}

#[test]
fn move_item_up_and_down_follow() {
    let mut ui = list(1, "L", items(&["A", "B", "C"]));
    ui.item_state = Some(1);
    ItemsComponent::move_selected_item_up(&mut ui, items(&["B", "A", "C"]));
    assert_eq!(ui.item_state, Some(0));
    ItemsComponent::move_selected_item_down(&mut ui, items(&["A", "B", "C"]));
    assert_eq!(ui.item_state, Some(1));
}

#[test]
fn select_first_and_remove_selection() {
    let mut ui = list(1, "L", items(&["A", "B"]));
    ItemsComponent::select_first_item(&mut ui);
    assert_eq!(ui.item_state, Some(0));
    ItemsComponent::select_next_item(&mut ui);
    ItemsComponent::select_first_item(&mut ui);
    assert_eq!(ui.item_state, Some(1));
    ItemsComponent::select_previous_item(&mut ui);
    assert_eq!(ui.item_state, Some(0));
    ItemsComponent::remove_item_selection(&mut ui);
    assert_eq!(ui.item_state, None);
}

#[test]
fn lists_delete_and_move() {
    let mut lc = ListsComponent::new();
    lc.load_lists(vec![list(1, "a", vec![]), list(2, "b", vec![]), list(3, "c", vec![])]);
    lc.select_next();
    lc.select_next();
    lc.select_next();
    assert_eq!(lc.selected(), Some(2));
    ListsComponent::delete_selected_list_static(&mut lc, vec![list(1, "a", vec![]), list(2, "b", vec![])]);
    assert_eq!(lc.selected(), Some(1));
    ListsComponent::move_selected_list_up(&mut lc, vec![list(2, "b", vec![]), list(1, "a", vec![])]);
    assert_eq!(lc.selected(), Some(0));
    assert_eq!(lc.get_selected_list().unwrap().list.name, "b");
    ListsComponent::delete_selected_list_static(&mut lc, vec![list(1, "a", vec![])]);
    assert_eq!(lc.selected(), Some(0));
    ListsComponent::delete_selected_list_static(&mut lc, vec![]);
    assert_eq!(lc.selected(), None);
    assert!(lc.get_selected_list().is_none());
}

#[test]
fn add_item_without_list_stays_on_main() {
    let mut a = app(vec![list(1, "L", vec![])]);
    assert_eq!(a.current_screen, CurrentScreen::Main);
    let r = a.handle_key_event(Key::Char('a'));
    assert!(matches!(r, Effect::Nothing));
    assert_eq!(a.current_screen, CurrentScreen::Main);
}

#[test]
fn add_list_flow() {
    let mut a = app(vec![]);
    a.handle_key_event(Key::Char('A'));
    assert_eq!(a.current_screen, CurrentScreen::AddList);
    type_text(&mut a, "Café");
    a.handle_key_event(Key::Backspace);
    a.handle_key_event(Key::Char('e'));
    match a.handle_key_event(Key::Enter) {
        Effect::CreateList { name } => assert_eq!(name, "Cafe"),
        _ => panic!("expected a list to be created"),
    }
    assert_eq!(a.current_screen, CurrentScreen::AddList);
    a.list_created(vec![list(7, "Cafe", vec![])]);
    assert_eq!(a.current_screen, CurrentScreen::Main);
    assert_eq!(a.input_state.current_input, "");
    assert_eq!(a.lists_component.lists.len(), 1);
    assert_eq!(a.lists_component.selected(), None);
}

#[test]
fn blank_name_is_ignored() {
    let mut a = app(vec![]);
    a.handle_key_event(Key::Char('A'));
    type_text(&mut a, "  ");
    assert!(matches!(a.handle_key_event(Key::Enter), Effect::Nothing));
    assert_eq!(a.current_screen, CurrentScreen::AddList);
    a.handle_key_event(Key::Esc);
    assert_eq!(a.current_screen, CurrentScreen::Main);
    assert_eq!(a.input_state.current_input, "");
}

#[test]
fn modify_list_and_items_flow() {
    let mut a = app(vec![list(1, "Home", items(&["A", "B"])), list(2, "Work", vec![])]);
    a.handle_key_event(Key::Char('M'));
    assert_eq!(a.current_screen, CurrentScreen::Main);
    a.handle_key_event(Key::Char('s'));
    assert_eq!(a.lists_component.selected(), Some(0));
    a.handle_key_event(Key::Char('M'));
    assert_eq!(a.current_screen, CurrentScreen::ModifyList);
    assert_eq!(a.input_state.current_input, "Home");
    assert!(a.input_state.is_modifying);
    a.handle_key_event(Key::Right);
    a.handle_key_event(Key::Delete);
    match a.handle_key_event(Key::Enter) {
        Effect::RenameList { list_id, name } => {
            assert_eq!(list_id, 1);
            assert_eq!(name, "Hme");
        }
        _ => panic!("expected a rename"),
    }
    a.list_renamed(vec![list(1, "Hme", items(&["A", "B"])), list(2, "Work", vec![])]);
    assert_eq!(a.lists_component.selected(), Some(0));
    a.handle_key_event(Key::Right);
    assert_eq!(a.lists_component.lists[0].item_state, Some(0));
    a.handle_key_event(Key::Down);
    assert_eq!(a.lists_component.lists[0].item_state, Some(1));
    assert!(matches!(a.handle_key_event(Key::Char('J')), Effect::Nothing));
    match a.handle_key_event(Key::Char('K')) {
        Effect::MoveItemUp { item_id } => assert_eq!(item_id, 11),
        _ => panic!("expected a move"),
    }
    a.item_moved_up(items(&["B", "A"]));
    assert_eq!(a.lists_component.lists[0].item_state, Some(0));
    match a.handle_key_event(Key::Enter) {
        Effect::ToggleItemDone { item_id } => assert_eq!(item_id, 10),
        _ => panic!("expected a toggle"),
    }
    a.item_toggled();
    assert!(a.lists_component.lists[0].items[0].item.is_done);
    a.handle_key_event(Key::Char('m'));
    assert_eq!(a.current_screen, CurrentScreen::ModifyItem);
    assert_eq!(a.input_state.current_input, "B");
    a.handle_key_event(Key::Esc);
    assert_eq!(a.current_screen, CurrentScreen::Main);
    match a.handle_key_event(Key::Char('d')) {
        Effect::DeleteItem { item_id } => assert_eq!(item_id, 10),
        _ => panic!("expected a delete"),
    }
    a.item_deleted(items(&["A"]));
    assert_eq!(a.lists_component.lists[0].item_state, Some(0));
    a.handle_key_event(Key::Left);
    assert_eq!(a.lists_component.lists[0].item_state, None);
}

#[test]
fn add_item_flow() {
    let mut a = app(vec![list(4, "L", vec![])]);
    a.handle_key_event(Key::Char('s'));
    a.handle_key_event(Key::Char('a'));
    assert_eq!(a.current_screen, CurrentScreen::AddItem);
    type_text(&mut a, "milk");
    match a.handle_key_event(Key::Enter) {
        Effect::CreateItem { list_id, name } => {
            assert_eq!(list_id, 4);
            assert_eq!(name, "milk");
        }
        _ => panic!("expected an item"),
    }
    a.item_created(items(&["milk"]));
    assert_eq!(a.current_screen, CurrentScreen::Main);
    assert_eq!(a.lists_component.lists[0].items.len(), 1);
    assert_eq!(a.lists_component.lists[0].item_state, None);
}

#[test]
fn move_last_list_down_is_noop() {
    let mut a = app(vec![list(1, "a", vec![]), list(2, "b", vec![])]);
    a.handle_key_event(Key::Char('w'));
    assert_eq!(a.lists_component.selected(), Some(1));
    assert!(matches!(a.handle_key_event(Key::Char('S')), Effect::Nothing));
    assert_eq!(a.lists_component.selected(), Some(1));
    match a.handle_key_event(Key::Char('W')) {
        Effect::MoveListUp { list_id } => assert_eq!(list_id, 2),
        _ => panic!("expected a move"),
    }
    a.list_moved_up(vec![list(2, "b", vec![]), list(1, "a", vec![])]);
    assert_eq!(a.lists_component.selected(), Some(0));
    match a.handle_key_event(Key::Char('D')) {
        Effect::DeleteList { list_id } => assert_eq!(list_id, 2),
        _ => panic!("expected a delete"),
    }
    a.list_deleted(vec![list(1, "a", vec![])]);
    assert_eq!(a.lists_component.selected(), Some(0));
}

#[test]
fn failed_switch_changes_nothing() {
    let mut a = app(vec![list(1, "a", vec![])]);
    a.handle_key_event(Key::Char('s'));
    a.handle_key_event(Key::Char('C'));
    assert_eq!(a.current_screen, CurrentScreen::ChangeDB);
    assert_eq!(a.selected_db_index, 0);
    a.handle_key_event(Key::Down);
    assert_eq!(a.selected_db_index, 1);
    match a.handle_key_event(Key::Enter) {
        Effect::SwitchDatabase { index } => assert_eq!(index, 1),
        _ => panic!("expected a switch"),
    }
    a.switch_to_selected_db(None);
    assert_eq!(a.current_screen, CurrentScreen::ChangeDB);
    assert_eq!(a.current_db_config.name, "dojo");
    assert_eq!(a.lists_component.lists.len(), 1);
    assert_eq!(a.lists_component.lists[0].list.name, "a");
    assert_eq!(a.lists_component.selected(), Some(0));
}

#[test]
fn successful_switch_replaces_lists() {
    let mut a = app(vec![list(1, "a", vec![])]);
    a.handle_key_event(Key::Char('s'));
    a.handle_key_event(Key::Char('C'));
    a.handle_key_event(Key::Up);
    assert_eq!(a.selected_db_index, 1);
    a.switch_to_selected_db(Some(vec![list(5, "x", vec![]), list(6, "y", vec![])]));
    assert_eq!(a.current_screen, CurrentScreen::Main);
    assert_eq!(a.current_db_config.name, "work");
    assert_eq!(a.lists_component.lists.len(), 2);
    assert_eq!(a.lists_component.selected(), None);
}

#[test]
fn database_selector_flow() {
    let mut a = app(vec![]);
    a.handle_key_event(Key::Char('C'));
    a.handle_key_event(Key::Down);
    a.handle_key_event(Key::Down);
    assert_eq!(a.selected_db_index, 0);
    match a.handle_key_event(Key::Char('S')) {
        Effect::SetDefaultDatabase { index } => assert_eq!(index, 0),
        _ => panic!("expected set default"),
    }
    a.handle_key_event(Key::Down);
    a.set_selected_db_as_default();
    assert_eq!(a.config.default, "work");
    a.handle_key_event(Key::Char('A'));
    assert_eq!(a.current_screen, CurrentScreen::AddDB);
    type_text(&mut a, "new");
    match a.handle_key_event(Key::Enter) {
        Effect::CreateDatabase { name } => assert_eq!(name, "new"),
        _ => panic!("expected a database"),
    }
    a.create_new_database(db("new"), false);
    assert_eq!(a.current_screen, CurrentScreen::ChangeDB);
    assert_eq!(a.selected_db_index, 2);
    assert_eq!(a.config.dbs.len(), 3);
    assert_eq!(a.config.default, "work");
    a.handle_key_event(Key::Char('A'));
    a.handle_key_event(Key::Esc);
    assert_eq!(a.current_screen, CurrentScreen::ChangeDB);
    a.handle_key_event(Key::Esc);
    assert_eq!(a.current_screen, CurrentScreen::Main);
    a.handle_key_event(Key::Char('q'));
    assert!(a.exit);
}

#[test]
fn change_db_selects_current_database() {
    let mut config = Config::with_database(db("dojo"));
    config.add_database(db("work"), false);
    let mut a = App::new(config, db("work"), vec![]);
    a.handle_key_event(Key::Char('C'));
    assert_eq!(a.selected_db_index, 1);
    let mut config = Config::with_database(db("dojo"));
    config.add_database(db("work"), false);
    let mut b = App::new(config, db("gone"), vec![]);
    b.handle_key_event(Key::Char('C'));
    assert_eq!(b.selected_db_index, 0);
}
