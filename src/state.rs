use vstd::prelude::*;
use crate::config::{Config, DBConfig};
use crate::cursor::InputState;
use crate::lists::{all_lists_wf, ListsComponent};
use crate::models::{TodoList, UIItem, UIList};
use crate::items::ItemsComponent;
use crate::selection::{after_deletion, after_move_down, after_move_up, first_if_none, next_of, previous_of, reloaded};

verus! {

/// The screen that decides how keys are read; exactly one is active.
#[derive(PartialEq, Eq, Structural, Debug, Clone, Copy)]
pub enum CurrentScreen {
    /// Main screen showing lists and items
    Main,
    /// Pop-up for adding a new list
    AddList,
    /// Pop-up for renaming the selected list
    ModifyList,
    /// Pop-up for adding a new item
    AddItem,
    /// Pop-up for renaming the selected item
    ModifyItem,
    /// Pop-up for changing database
    ChangeDB,
    /// Pop-up for adding a new database
    AddDB,
}

/// A key press.
#[derive(PartialEq, Eq, Structural, Debug, Clone, Copy)]
pub enum Key {
    Char(char),
    Enter,
    Esc,
    Backspace,
    Delete,
    Left,
    Right,
    Up,
    Down,
}

/// Work on storage or on the configuration that a key asks for. The state is left as
/// it was; once the work succeeded the caller reports it with the matching `App` method,
/// and after a failure it reports nothing, so that the state stays as it was.
pub enum Effect {
    Nothing,
    CreateList { name: String },
    RenameList { list_id: i64, name: String },
    DeleteList { list_id: i64 },
    MoveListUp { list_id: i64 },
    MoveListDown { list_id: i64 },
    CreateItem { list_id: i64, name: String },
    RenameItem { item_id: i64, name: String },
    DeleteItem { item_id: i64 },
    MoveItemUp { item_id: i64 },
    MoveItemDown { item_id: i64 },
    ToggleItemDone { item_id: i64 },
    SwitchDatabase { index: usize },
    SetDefaultDatabase { index: usize },
    CreateDatabase { name: String },
}

/// Main application state.
pub struct App {
    /// Configuration of available databases
    pub config: Config,
    /// Config of currently connected database
    pub current_db_config: DBConfig,
    /// Current active screen
    pub current_screen: CurrentScreen,
    /// Lists, their items and the selections
    pub lists_component: ListsComponent,
    /// State of user-provided input
    pub input_state: InputState,
    /// Selected database index for the database selector
    pub selected_db_index: usize,
    /// Whether the application should exit
    pub exit: bool,
}

/// A name that is empty or made of spaces only is not accepted.
pub open spec fn blank(s: Seq<char>) -> bool {
    forall|i: int| 0 <= i < s.len() ==> s[i] == ' '
}

pub fn is_blank(s: &String) -> (r: bool)
    ensures
        r == blank(s@),
{
    let text = s.as_str();
    let n = text.unicode_len();
    let mut i: usize = 0;
    while i < n
        invariant
            text@ == s@,
            i <= n,
            n == s@.len(),
            forall|j: int| 0 <= j < i ==> s@[j] == ' ',
        decreases n - i,
    {
        if text.get_char(i) != ' ' {
            return false;
        }
        i = i + 1;
    }
    true
}

/// Applies an editing key to the input.
fn apply_edit_key(input: &mut InputState, key: Key)
    requires
        old(input).wf(),
        is_edit_key(key),
    ensures
        final(input).wf(),
        edited(*old(input), *final(input), key),
{
    match key {
        Key::Char(c) => input.add_char(c),
        Key::Backspace => input.remove_char_before_cursor(),
        Key::Delete => input.delete_char_after_cursor(),
        Key::Left => input.move_cursor_left(),
        Key::Right => input.move_cursor_right(),
        _ => {},
    }
}

/// The database index that the selector shows first: that of `name`, or 0.
pub open spec fn db_position(dbs: Seq<DBConfig>, name: Seq<char>) -> usize {
    if exists|i: int| 0 <= i < dbs.len() && dbs[i].name@ == name {
        let i = choose|i: int|
            0 <= i < dbs.len() && dbs[i].name@ == name && forall|j: int|
                0 <= j < i ==> dbs[j].name@ != name;
        i as usize
    } else {
        0
    }
}

/// Only the list at `i` may differ between `a` and `b`.
pub open spec fn others_unchanged(a: Seq<UIList>, b: Seq<UIList>, i: int) -> bool {
    &&& a.len() == b.len()
    &&& forall|k: int| 0 <= k < a.len() && k != i ==> #[trigger] b[k] == a[k]
}

/// The list at `i` of `b` is that of `a` with `items` read back and the item selection `sel`.
pub open spec fn list_reloaded(
    a: Seq<UIList>,
    b: Seq<UIList>,
    i: int,
    items: Seq<UIItem>,
    sel: Option<usize>,
) -> bool {
    &&& others_unchanged(a, b, i)
    &&& b[i].list == a[i].list
    &&& b[i].items@ == items
    &&& b[i].item_state == sel
}

/// Everything but the screen and the input is the same in `a` and `b`.
pub open spec fn same_data(a: App, b: App) -> bool {
    &&& b.config == a.config
    &&& b.current_db_config == a.current_db_config
    &&& b.lists_component == a.lists_component
    &&& b.selected_db_index == a.selected_db_index
    &&& b.exit == a.exit
}

/// `b` shows the screen `screen` with an empty input for creating an entity.
pub open spec fn opened_empty(b: App, screen: CurrentScreen) -> bool {
    &&& b.current_screen == screen
    &&& b.input_state.current_input@ == Seq::<char>::empty()
    &&& b.input_state.cursor_pos == 0
    &&& !b.input_state.is_modifying
}

/// `b` is back on `screen` with the input emptied.
pub open spec fn closed_to(b: App, screen: CurrentScreen) -> bool {
    &&& b.current_screen == screen
    &&& b.input_state.current_input@ == Seq::<char>::empty()
    &&& b.input_state.cursor_pos == 0
}

/// Keys that edit the text of a pop-up.
pub open spec fn is_edit_key(key: Key) -> bool {
    key is Char || key is Backspace || key is Delete || key is Left || key is Right
}

/// `b` is the input `a` after the editing key `key`.
pub open spec fn edited(a: InputState, b: InputState, key: Key) -> bool {
    let t = a.current_input@;
    let p = a.cursor_pos as int;
    &&& b.is_modifying == a.is_modifying
    &&& match key {
        Key::Char(c) => b.current_input@ == t.insert(p, c) && b.cursor_pos == p + 1,
        Key::Backspace => if p > 0 {
            b.current_input@ == t.remove(p - 1) && b.cursor_pos == p - 1
        } else {
            b.current_input@ == t && b.cursor_pos == p
        },
        Key::Delete => b.cursor_pos == p && if p < t.len() {
            b.current_input@ == t.remove(p)
        } else {
            b.current_input@ == t
        },
        Key::Left => b.current_input@ == t && b.cursor_pos == if p > 0 {
            p - 1
        } else {
            0
        },
        Key::Right => b.current_input@ == t && b.cursor_pos == if p < t.len() {
            p + 1
        } else {
            p
        },
        _ => b == a,
    }
}

/// The selected list and its selected item, if both are selected.
pub open spec fn selected_pair(lc: ListsComponent) -> Option<(usize, usize)> {
    match lc.list_state {
        Some(i) => match lc.lists@[i as int].item_state {
            Some(j) => Some((i, j)),
            None => None,
        },
        None => None,
    }
}

/// The keys of a pop-up other than Enter: editing keys edit, Esc closes to `back`,
/// anything else is ignored.
pub open spec fn typing_step(a: App, b: App, key: Key, r: Effect, back: CurrentScreen) -> bool {
    &&& r is Nothing
    &&& is_edit_key(key) ==> {
        &&& edited(a.input_state, b.input_state, key)
        &&& same_data(a, b)
        &&& b.current_screen == a.current_screen
    }
    &&& key is Esc ==> closed_to(b, back) && same_data(a, b)
    &&& (key is Up || key is Down) ==> b == a
}

/// A key on the list pop-up. Enter with a non-blank name asks to create a list, or to
/// rename the selected one when the pop-up renames.
pub open spec fn list_popup_step(a: App, b: App, key: Key, r: Effect) -> bool {
    let text = a.input_state.current_input@;
    let lc = a.lists_component;
    if key is Enter {
        &&& b == a
        &&& blank(text) ==> r is Nothing
        &&& !blank(text) && !a.input_state.is_modifying ==> (r matches Effect::CreateList {
            name,
        } && name@ == text)
        &&& !blank(text) && a.input_state.is_modifying ==> match lc.list_state {
            Some(i) => r matches Effect::RenameList { list_id, name } && list_id
                == lc.lists@[i as int].list.id && name@ == text,
            None => r is Nothing,
        }
    } else {
        typing_step(a, b, key, r, CurrentScreen::Main)
    }
}

/// A key on the item pop-up. Enter with a non-blank name asks to create an item in the
/// selected list, or to rename the selected item when the pop-up renames.
pub open spec fn item_popup_step(a: App, b: App, key: Key, r: Effect) -> bool {
    let text = a.input_state.current_input@;
    let lc = a.lists_component;
    if key is Enter {
        &&& b == a
        &&& blank(text) ==> r is Nothing
        &&& !blank(text) && !a.input_state.is_modifying ==> match lc.list_state {
            Some(i) => r matches Effect::CreateItem { list_id, name } && list_id
                == lc.lists@[i as int].list.id && name@ == text,
            None => r is Nothing,
        }
        &&& !blank(text) && a.input_state.is_modifying ==> match selected_pair(lc) {
            Some((i, j)) => r matches Effect::RenameItem { item_id, name } && item_id
                == lc.lists@[i as int].items@[j as int].item.id && name@ == text,
            None => r is Nothing,
        }
    } else {
        typing_step(a, b, key, r, CurrentScreen::Main)
    }
}

/// A key on the database-name pop-up; Esc and Enter go back to the database selector.
pub open spec fn add_db_step(a: App, b: App, key: Key, r: Effect) -> bool {
    let text = a.input_state.current_input@;
    if key is Enter {
        &&& b == a
        &&& blank(text) ==> r is Nothing
        &&& !blank(text) ==> (r matches Effect::CreateDatabase { name } && name@ == text)
    } else {
        typing_step(a, b, key, r, CurrentScreen::ChangeDB)
    }
}

/// A key on the database selector.
pub open spec fn change_db_step(a: App, b: App, key: Key, r: Effect) -> bool {
    let n = a.config.dbs@.len();
    let i = a.selected_db_index;
    let others_same = b.config == a.config && b.current_db_config == a.current_db_config
        && b.lists_component == a.lists_component && b.exit == a.exit;
    if key is Up {
        &&& r is Nothing
        &&& others_same && b.input_state == a.input_state && b.current_screen == a.current_screen
        &&& n == 0 ==> b == a
        &&& n > 0 ==> b.selected_db_index == if i == 0 {
            (n - 1) as usize
        } else {
            (i - 1) as usize
        }
    } else if key is Down {
        &&& r is Nothing
        &&& others_same && b.input_state == a.input_state && b.current_screen == a.current_screen
        &&& n == 0 ==> b == a
        &&& n > 0 ==> b.selected_db_index == (i + 1) % (n as int)
    } else if key is Esc {
        &&& r is Nothing
        &&& others_same && b.input_state == a.input_state && b.selected_db_index == i
        &&& b.current_screen == CurrentScreen::Main
    } else if key == Key::Char('A') {
        &&& r is Nothing
        &&& others_same && b.selected_db_index == i
        &&& opened_empty(b, CurrentScreen::AddDB)
    } else if key == Key::Char('S') {
        &&& b == a
        &&& i < n ==> (r matches Effect::SetDefaultDatabase { index } && index == i)
        &&& i >= n ==> r is Nothing
    } else if key is Enter {
        &&& b == a
        &&& i < n ==> (r matches Effect::SwitchDatabase { index } && index == i)
        &&& i >= n ==> r is Nothing
    } else {
        b == a && r is Nothing
    }
}

/// A key on the main screen.
pub open spec fn main_step(a: App, b: App, key: Key, r: Effect) -> bool {
    let lc = a.lists_component;
    let lists = lc.lists@;
    if key == Key::Char('q') {
        &&& r is Nothing
        &&& b.exit
        &&& b.config == a.config && b.current_db_config == a.current_db_config
        &&& b.lists_component == lc && b.selected_db_index == a.selected_db_index
        &&& b.input_state == a.input_state && b.current_screen == a.current_screen
    } else if key == Key::Char('A') {
        r is Nothing && opened_empty(b, CurrentScreen::AddList) && same_data(a, b)
    } else if key == Key::Char('M') {
        &&& r is Nothing
        &&& match lc.list_state {
            Some(i) => {
                &&& b.current_screen == CurrentScreen::ModifyList
                &&& b.input_state.current_input@ == lists[i as int].list.name@
                &&& b.input_state.cursor_pos == 0
                &&& b.input_state.is_modifying
                &&& same_data(a, b)
            },
            None => b == a,
        }
    } else if key == Key::Char('a') {
        &&& r is Nothing
        &&& lc.list_state is Some ==> opened_empty(b, CurrentScreen::AddItem) && same_data(a, b)
        &&& lc.list_state is None ==> b == a
    } else if key == Key::Char('m') {
        &&& r is Nothing
        &&& match selected_pair(lc) {
            Some((i, j)) => {
                &&& b.current_screen == CurrentScreen::ModifyItem
                &&& b.input_state.current_input@ == lists[i as int].items@[j as int].item.name@
                &&& b.input_state.cursor_pos == 0
                &&& b.input_state.is_modifying
                &&& same_data(a, b)
            },
            None => b == a,
        }
    } else if key == Key::Char('C') {
        &&& r is Nothing
        &&& b.current_screen == CurrentScreen::ChangeDB
        &&& b.selected_db_index == db_position(a.config.dbs@, a.current_db_config.name@)
        &&& b.config == a.config && b.current_db_config == a.current_db_config
        &&& b.lists_component == lc && b.input_state == a.input_state && b.exit == a.exit
    } else if key == Key::Char('w') || key == Key::Char('s') {
        &&& r is Nothing
        &&& b.lists_component.lists@ == lists
        &&& b.lists_component.list_state == if key == Key::Char('w') {
            previous_of(lc.list_state, lists.len())
        } else {
            next_of(lc.list_state, lists.len())
        }
        &&& b.config == a.config && b.current_db_config == a.current_db_config
        &&& b.selected_db_index == a.selected_db_index && b.exit == a.exit
        &&& b.input_state == a.input_state && b.current_screen == a.current_screen
    } else if key == Key::Char('D') {
        &&& b == a
        &&& match lc.list_state {
            Some(i) => r matches Effect::DeleteList { list_id } && list_id
                == lists[i as int].list.id,
            None => r is Nothing,
        }
    } else if key == Key::Char('W') {
        &&& b == a
        &&& match lc.list_state {
            Some(i) => if i > 0 {
                r matches Effect::MoveListUp { list_id } && list_id == lists[i as int].list.id
            } else {
                r is Nothing
            },
            None => r is Nothing,
        }
    } else if key == Key::Char('S') {
        &&& b == a
        &&& match lc.list_state {
            Some(i) => if i + 1 < lists.len() {
                r matches Effect::MoveListDown { list_id } && list_id == lists[i as int].list.id
            } else {
                r is Nothing
            },
            None => r is Nothing,
        }
    } else if key == Key::Char('d') || key == Key::Char('K') || key == Key::Char('J') || key
        is Enter {
        &&& b == a
        &&& match selected_pair(lc) {
            Some((i, j)) => {
                let items = lists[i as int].items@;
                let id = items[j as int].item.id;
                if key == Key::Char('d') {
                    r matches Effect::DeleteItem { item_id } && item_id == id
                } else if key == Key::Char('K') {
                    if j > 0 {
                        r matches Effect::MoveItemUp { item_id } && item_id == id
                    } else {
                        r is Nothing
                    }
                } else if key == Key::Char('J') {
                    if j + 1 < items.len() {
                        r matches Effect::MoveItemDown { item_id } && item_id == id
                    } else {
                        r is Nothing
                    }
                } else {
                    r matches Effect::ToggleItemDone { item_id } && item_id == id
                }
            },
            None => r is Nothing,
        }
    } else if key is Up || key is Down || key is Right || key is Left {
        &&& r is Nothing
        &&& match lc.list_state {
            Some(i) => {
                let sel = lists[i as int].item_state;
                let n = lists[i as int].items@.len();
                &&& list_reloaded(
                    lists,
                    b.lists_component.lists@,
                    i as int,
                    lists[i as int].items@,
                    if key is Up {
                        previous_of(sel, n)
                    } else if key is Down {
                        next_of(sel, n)
                    } else if key is Right {
                        first_if_none(sel, n)
                    } else {
                        None
                    },
                )
                &&& b.lists_component.list_state == lc.list_state
                &&& b.config == a.config && b.current_db_config == a.current_db_config
                &&& b.selected_db_index == a.selected_db_index && b.exit == a.exit
                &&& b.input_state == a.input_state && b.current_screen == a.current_screen
            },
            None => b == a,
        }
    } else {
        b == a && r is Nothing
    }
}

/// A key on the current screen.
pub open spec fn key_step(a: App, b: App, key: Key, r: Effect) -> bool {
    match a.current_screen {
        CurrentScreen::Main => main_step(a, b, key, r),
        CurrentScreen::AddList | CurrentScreen::ModifyList => list_popup_step(a, b, key, r),
        CurrentScreen::AddItem | CurrentScreen::ModifyItem => item_popup_step(a, b, key, r),
        CurrentScreen::ChangeDB => change_db_step(a, b, key, r),
        CurrentScreen::AddDB => add_db_step(a, b, key, r),
    }
}

impl App {
    /// Selections point into their collections and the cursor into its text; the
    /// database selector points at a configured database when there is one.
    pub open spec fn wf(&self) -> bool {
        &&& self.lists_component.wf()
        &&& self.input_state.wf()
        &&& (self.config.dbs@.len() == 0 || self.selected_db_index < self.config.dbs@.len())
    }

    /// The state after start-up: the main screen over the lists of the default database,
    /// nothing selected.
    pub fn new(config: Config, current_db_config: DBConfig, lists: Vec<UIList>) -> (r: App)
        requires
            all_lists_wf(lists@),
        ensures
            r.wf(),
            r.config == config,
            r.current_db_config == current_db_config,
            r.current_screen == CurrentScreen::Main,
            r.lists_component.lists@ == lists@,
            r.lists_component.list_state is None,
            r.input_state.current_input@ == Seq::<char>::empty(),
            r.selected_db_index == 0,
            !r.exit,
    {
        let mut lists_component = ListsComponent::new();
        lists_component.load_lists(lists);
        App {
            config,
            current_db_config,
            current_screen: CurrentScreen::Main,
            lists_component,
            input_state: InputState::new(),
            selected_db_index: 0,
            exit: false,
        }
    }

    /// Enter the "Add List" screen with an empty input.
    pub fn enter_add_list_screen(&mut self)
        requires
            old(self).wf(),
        ensures
            final(self).wf(),
            final(self).current_screen == CurrentScreen::AddList,
            final(self).input_state.current_input@ == Seq::<char>::empty(),
            final(self).input_state.cursor_pos == 0,
            !final(self).input_state.is_modifying,
            final(self).lists_component == old(self).lists_component,
            final(self).config == old(self).config,
            final(self).current_db_config == old(self).current_db_config,
            final(self).selected_db_index == old(self).selected_db_index,
            final(self).exit == old(self).exit,
    {
        self.input_state = InputState::new();
        self.current_screen = CurrentScreen::AddList;
    }

    /// Enter the "Modify List" screen with the input pre-filled with the list's name.
    pub fn enter_modify_list_screen(&mut self, selected_list: &TodoList)
        requires
            old(self).wf(),
        ensures
            final(self).wf(),
            final(self).current_screen == CurrentScreen::ModifyList,
            final(self).input_state.current_input@ == selected_list.name@,
            final(self).input_state.cursor_pos == 0,
            final(self).input_state.is_modifying,
            final(self).lists_component == old(self).lists_component,
            final(self).config == old(self).config,
            final(self).current_db_config == old(self).current_db_config,
            final(self).selected_db_index == old(self).selected_db_index,
            final(self).exit == old(self).exit,
    {
        self.input_state = InputState::for_modifying(&selected_list.name);
        self.current_screen = CurrentScreen::ModifyList;
    }

    /// Enter the "Add Item" screen, only when a list is selected.
    pub fn enter_add_item_screen(&mut self)
        requires
            old(self).wf(),
        ensures
            final(self).wf(),
            old(self).lists_component.list_state is None ==> *final(self) == *old(self),
            old(self).lists_component.list_state is Some ==> {
                &&& final(self).current_screen == CurrentScreen::AddItem
                &&& final(self).input_state.current_input@ == Seq::<char>::empty()
                &&& final(self).input_state.cursor_pos == 0
                &&& !final(self).input_state.is_modifying
                &&& final(self).lists_component == old(self).lists_component
                &&& final(self).config == old(self).config
                &&& final(self).current_db_config == old(self).current_db_config
                &&& final(self).selected_db_index == old(self).selected_db_index
                &&& final(self).exit == old(self).exit
            },
    {
        if self.lists_component.selected().is_some() {
            self.input_state = InputState::new();
            self.current_screen = CurrentScreen::AddItem;
        }
    }

    /// Enter the "Modify Item" screen, only when a list and one of its items are selected;
    /// the input is pre-filled with the item's name.
    pub fn enter_modify_item_screen(&mut self)
        requires
            old(self).wf(),
        ensures
            final(self).wf(),
            ({
                let lc = old(self).lists_component;
                match lc.list_state {
                    Some(i) => match lc.lists@[i as int].item_state {
                        Some(j) => {
                            &&& final(self).current_screen == CurrentScreen::ModifyItem
                            &&& final(self).input_state.current_input@
                                == lc.lists@[i as int].items@[j as int].item.name@
                            &&& final(self).input_state.cursor_pos == 0
                            &&& final(self).input_state.is_modifying
                            &&& final(self).lists_component == old(self).lists_component
                            &&& final(self).config == old(self).config
                            &&& final(self).current_db_config == old(self).current_db_config
                            &&& final(self).selected_db_index == old(self).selected_db_index
                            &&& final(self).exit == old(self).exit
                        },
                        None => *final(self) == *old(self),
                    },
                    None => *final(self) == *old(self),
                }
            }),
    {
        if let Some(i) = self.lists_component.selected() {
            if let Some(j) = self.lists_component.lists[i].item_state {
                proof {
                    assert(self.lists_component.lists@[i as int].wf());
                }
                let input = InputState::for_modifying(
                    &self.lists_component.lists[i].items[j].item.name,
                );
                self.input_state = input;
                self.current_screen = CurrentScreen::ModifyItem;
            }
        }
    }

    /// Leave the list pop-up without saving.
    pub fn exit_add_or_modify_list_without_saving(&mut self)
        requires
            old(self).wf(),
        ensures
            final(self).wf(),
            final(self).current_screen == CurrentScreen::Main,
            final(self).input_state.current_input@ == Seq::<char>::empty(),
            final(self).input_state.cursor_pos == 0,
            final(self).lists_component == old(self).lists_component,
            final(self).config == old(self).config,
            final(self).current_db_config == old(self).current_db_config,
            final(self).selected_db_index == old(self).selected_db_index,
            final(self).exit == old(self).exit,
    {
        self.current_screen = CurrentScreen::Main;
        self.input_state.clear();
    }

    /// Leave the item pop-up without saving.
    pub fn exit_add_item_without_saving(&mut self)
        requires
            old(self).wf(),
        ensures
            final(self).wf(),
            final(self).current_screen == CurrentScreen::Main,
            final(self).input_state.current_input@ == Seq::<char>::empty(),
            final(self).input_state.cursor_pos == 0,
            final(self).lists_component == old(self).lists_component,
            final(self).config == old(self).config,
            final(self).current_db_config == old(self).current_db_config,
            final(self).selected_db_index == old(self).selected_db_index,
            final(self).exit == old(self).exit,
    {
        self.current_screen = CurrentScreen::Main;
        self.input_state.clear();
    }

    /// Enter the "Change DB" screen with the current database selected, or the first one
    /// when the current one is not configured.
    pub fn enter_change_db_screen(&mut self)
        requires
            old(self).wf(),
        ensures
            final(self).wf(),
            final(self).current_screen == CurrentScreen::ChangeDB,
            final(self).selected_db_index == db_position(
                old(self).config.dbs@,
                old(self).current_db_config.name@,
            ),
            final(self).lists_component == old(self).lists_component,
            final(self).input_state == old(self).input_state,
            final(self).config == old(self).config,
            final(self).current_db_config == old(self).current_db_config,
            final(self).exit == old(self).exit,
    {
        let found = self.config.position_of(&self.current_db_config.name);
        proof {
            let dbs = self.config.dbs@;
            let name = self.current_db_config.name@;
            match found {
                Some(i) => {
                    assert(0 <= i < dbs.len() && dbs[i as int].name@ == name);
                    let k = choose|k: int|
                        0 <= k < dbs.len() && dbs[k].name@ == name && forall|j: int|
                            0 <= j < k ==> dbs[j].name@ != name;
                    assert(k == i as int) by {
                        if k < i {
                            assert(dbs[k].name@ != name);
                        }
                        if i < k {
                            assert(dbs[i as int].name@ != name);
                        }
                    }
                },
                None => {},
            }
        }
        self.selected_db_index = match found {
            Some(i) => i,
            None => 0,
        };
        self.current_screen = CurrentScreen::ChangeDB;
    }

    /// Leave the "Change DB" screen.
    pub fn exit_change_db_without_saving(&mut self)
        requires
            old(self).wf(),
        ensures
            final(self).wf(),
            final(self).current_screen == CurrentScreen::Main,
            final(self).lists_component == old(self).lists_component,
            final(self).input_state == old(self).input_state,
            final(self).config == old(self).config,
            final(self).current_db_config == old(self).current_db_config,
            final(self).selected_db_index == old(self).selected_db_index,
            final(self).exit == old(self).exit,
    {
        self.current_screen = CurrentScreen::Main;
    }

    /// Enter the "Add DB" screen with an empty input.
    pub fn enter_add_db_screen(&mut self)
        requires
            old(self).wf(),
        ensures
            final(self).wf(),
            final(self).current_screen == CurrentScreen::AddDB,
            final(self).input_state.current_input@ == Seq::<char>::empty(),
            final(self).input_state.cursor_pos == 0,
            !final(self).input_state.is_modifying,
            final(self).lists_component == old(self).lists_component,
            final(self).config == old(self).config,
            final(self).current_db_config == old(self).current_db_config,
            final(self).selected_db_index == old(self).selected_db_index,
            final(self).exit == old(self).exit,
    {
        self.input_state = InputState::new();
        self.current_screen = CurrentScreen::AddDB;
    }

    /// Leave the "Add DB" screen without saving, back to the database selector.
    pub fn exit_add_db_without_saving(&mut self)
        requires
            old(self).wf(),
        ensures
            final(self).wf(),
            final(self).current_screen == CurrentScreen::ChangeDB,
            final(self).input_state.current_input@ == Seq::<char>::empty(),
            final(self).input_state.cursor_pos == 0,
            final(self).lists_component == old(self).lists_component,
            final(self).config == old(self).config,
            final(self).current_db_config == old(self).current_db_config,
            final(self).selected_db_index == old(self).selected_db_index,
            final(self).exit == old(self).exit,
    {
        self.current_screen = CurrentScreen::ChangeDB;
        self.input_state.clear();
    }

    /// Move the database selection up, from the first to the last.
    pub fn select_previous_db(&mut self)
        requires
            old(self).wf(),
        ensures
            final(self).wf(),
            old(self).config.dbs@.len() == 0 ==> *final(self) == *old(self),
            old(self).config.dbs@.len() > 0 ==> final(self).selected_db_index == if old(
                self,
            ).selected_db_index == 0 {
                (old(self).config.dbs@.len() - 1) as usize
            } else {
                (old(self).selected_db_index - 1) as usize
            },
            final(self).lists_component == old(self).lists_component,
            final(self).input_state == old(self).input_state,
            final(self).config == old(self).config,
            final(self).current_db_config == old(self).current_db_config,
            final(self).current_screen == old(self).current_screen,
            final(self).exit == old(self).exit,
    {
        let n = self.config.dbs.len();
        if n == 0 {
            return;
        }
        self.selected_db_index = if self.selected_db_index == 0 {
            n - 1
        } else {
            self.selected_db_index - 1
        };
    }

    /// Move the database selection down, from the last to the first.
    pub fn select_next_db(&mut self)
        requires
            old(self).wf(),
        ensures
            final(self).wf(),
            old(self).config.dbs@.len() == 0 ==> *final(self) == *old(self),
            old(self).config.dbs@.len() > 0 ==> final(self).selected_db_index == (
            old(self).selected_db_index + 1) % (old(self).config.dbs@.len() as int),
            final(self).lists_component == old(self).lists_component,
            final(self).input_state == old(self).input_state,
            final(self).config == old(self).config,
            final(self).current_db_config == old(self).current_db_config,
            final(self).current_screen == old(self).current_screen,
            final(self).exit == old(self).exit,
    {
        let n = self.config.dbs.len();
        if n == 0 {
            return;
        }
        let i = self.selected_db_index;
        self.selected_db_index = if i + 1 < n {
            i + 1
        } else {
            0
        };
        proof {
            if i + 1 < n {
                assert((i + 1) % (n as int) == i + 1) by (nonlinear_arith)
                    requires
                        0 <= i + 1 < n,
                ;
            } else {
                assert((i + 1) % (n as int) == 0) by (nonlinear_arith)
                    requires
                        i + 1 == n,
                        n > 0,
                ;
            }
        }
    }

    /// A list was created in storage: show the lists read back, back on the main screen.
    pub fn list_created(&mut self, fresh: Vec<UIList>)
        requires
            old(self).wf(),
            all_lists_wf(fresh@),
        ensures
            final(self).wf(),
            closed_to(*final(self), CurrentScreen::Main),
            final(self).lists_component.lists@ == fresh@,
            final(self).lists_component.list_state == reloaded(
                old(self).lists_component.list_state,
                fresh@.len(),
            ),
            final(self).config == old(self).config,
            final(self).current_db_config == old(self).current_db_config,
            final(self).selected_db_index == old(self).selected_db_index,
            final(self).exit == old(self).exit,
    {
        ListsComponent::create_list(&mut self.lists_component, fresh);
        self.input_state.clear();
        self.current_screen = CurrentScreen::Main;
    }

    /// The selected list was renamed in storage: show the lists read back, back on the
    /// main screen.
    pub fn list_renamed(&mut self, fresh: Vec<UIList>)
        requires
            old(self).wf(),
            all_lists_wf(fresh@),
        ensures
            final(self).wf(),
            closed_to(*final(self), CurrentScreen::Main),
            final(self).lists_component.lists@ == fresh@,
            final(self).lists_component.list_state == reloaded(
                old(self).lists_component.list_state,
                fresh@.len(),
            ),
            final(self).config == old(self).config,
            final(self).current_db_config == old(self).current_db_config,
            final(self).selected_db_index == old(self).selected_db_index,
            final(self).exit == old(self).exit,
    {
        ListsComponent::update_list(&mut self.lists_component, fresh);
        self.input_state.clear();
        self.current_screen = CurrentScreen::Main;
    }

    /// The selected list was deleted in storage: show the lists read back.
    pub fn list_deleted(&mut self, fresh: Vec<UIList>)
        requires
            old(self).wf(),
            all_lists_wf(fresh@),
        ensures
            final(self).wf(),
            final(self).lists_component.lists@ == fresh@,
            old(self).lists_component.list_state matches Some(i)
                ==> final(self).lists_component.list_state == after_deletion(i, fresh@.len()),
            old(self).lists_component.list_state is None
                ==> final(self).lists_component.list_state is None,
            final(self).current_screen == old(self).current_screen,
            final(self).input_state == old(self).input_state,
            final(self).config == old(self).config,
            final(self).current_db_config == old(self).current_db_config,
            final(self).selected_db_index == old(self).selected_db_index,
            final(self).exit == old(self).exit,
    {
        ListsComponent::delete_selected_list_static(&mut self.lists_component, fresh);
    }

    /// The selected list was moved up in storage: show the lists read back.
    pub fn list_moved_up(&mut self, fresh: Vec<UIList>)
        requires
            old(self).wf(),
            all_lists_wf(fresh@),
        ensures
            final(self).wf(),
            final(self).lists_component.lists@ == fresh@,
            old(self).lists_component.list_state matches Some(i)
                ==> final(self).lists_component.list_state == after_move_up(i, fresh@.len()),
            old(self).lists_component.list_state is None
                ==> final(self).lists_component.list_state is None,
            final(self).current_screen == old(self).current_screen,
            final(self).input_state == old(self).input_state,
            final(self).config == old(self).config,
            final(self).current_db_config == old(self).current_db_config,
            final(self).selected_db_index == old(self).selected_db_index,
            final(self).exit == old(self).exit,
    {
        ListsComponent::move_selected_list_up(&mut self.lists_component, fresh);
    }

    /// The selected list was moved down in storage: show the lists read back.
    pub fn list_moved_down(&mut self, fresh: Vec<UIList>)
        requires
            old(self).wf(),
            all_lists_wf(fresh@),
        ensures
            final(self).wf(),
            final(self).lists_component.lists@ == fresh@,
            old(self).lists_component.list_state matches Some(i)
                ==> final(self).lists_component.list_state == after_move_down(i, fresh@.len()),
            old(self).lists_component.list_state is None
                ==> final(self).lists_component.list_state is None,
            final(self).current_screen == old(self).current_screen,
            final(self).input_state == old(self).input_state,
            final(self).config == old(self).config,
            final(self).current_db_config == old(self).current_db_config,
            final(self).selected_db_index == old(self).selected_db_index,
            final(self).exit == old(self).exit,
    {
        ListsComponent::move_selected_list_down(&mut self.lists_component, fresh);
    }

    /// An item was created in the selected list in storage: show its items read back,
    /// back on the main screen.
    pub fn item_created(&mut self, fresh: Vec<UIItem>)
        requires
            old(self).wf(),
        ensures
            final(self).wf(),
            closed_to(*final(self), CurrentScreen::Main),
            final(self).lists_component.list_state == old(self).lists_component.list_state,
            old(self).lists_component.list_state matches Some(i) ==> list_reloaded(
                old(self).lists_component.lists@,
                final(self).lists_component.lists@,
                i as int,
                fresh@,
                reloaded(old(self).lists_component.lists@[i as int].item_state, fresh@.len()),
            ),
            old(self).lists_component.list_state is None ==> final(self).lists_component.lists@
                == old(self).lists_component.lists@,
            final(self).config == old(self).config,
            final(self).current_db_config == old(self).current_db_config,
            final(self).selected_db_index == old(self).selected_db_index,
            final(self).exit == old(self).exit,
    {
        if let Some(i) = self.lists_component.list_state {
            proof {
                assert(self.lists_component.lists@[i as int].wf());
            }
            ItemsComponent::create_item(&mut self.lists_component.lists[i], fresh);
            proof {
                self.lemma_lists_wf_after_update(old(self).lists_component.lists@, i as int);
            }
        }
        self.input_state.clear();
        self.current_screen = CurrentScreen::Main;
    }

    /// The selected item was renamed in storage: show the items read back, back on the
    /// main screen.
    pub fn item_renamed(&mut self, fresh: Vec<UIItem>)
        requires
            old(self).wf(),
        ensures
            final(self).wf(),
            closed_to(*final(self), CurrentScreen::Main),
            final(self).lists_component.list_state == old(self).lists_component.list_state,
            old(self).lists_component.list_state matches Some(i) ==> {
                let before = old(self).lists_component.lists@;
                let after = final(self).lists_component.lists@;
                &&& others_unchanged(before, after, i as int)
                &&& after[i as int].list == before[i as int].list
                &&& after[i as int].items@ == fresh@
                &&& after[i as int].item_state == reloaded(before[i as int].item_state, fresh@.len())
            },
            old(self).lists_component.list_state is None ==> final(self).lists_component.lists@
                == old(self).lists_component.lists@,
            final(self).config == old(self).config,
            final(self).current_db_config == old(self).current_db_config,
            final(self).selected_db_index == old(self).selected_db_index,
            final(self).exit == old(self).exit,
    {
        if let Some(i) = self.lists_component.list_state {
            proof {
                assert(self.lists_component.lists@[i as int].wf());
            }
            ItemsComponent::update_item(&mut self.lists_component.lists[i], fresh);
            proof {
                self.lemma_lists_wf_after_update(old(self).lists_component.lists@, i as int);
            }
        }
        self.input_state.clear();
        self.current_screen = CurrentScreen::Main;
    }

    /// The selected item was deleted in storage: show the items read back.
    pub fn item_deleted(&mut self, fresh: Vec<UIItem>)
        requires
            old(self).wf(),
        ensures
            final(self).wf(),
            final(self).current_screen == old(self).current_screen,
            final(self).input_state == old(self).input_state,
            final(self).lists_component.list_state == old(self).lists_component.list_state,
            old(self).lists_component.list_state matches Some(i) ==> {
                let before = old(self).lists_component.lists@;
                let after = final(self).lists_component.lists@;
                &&& others_unchanged(before, after, i as int)
                &&& after[i as int].list == before[i as int].list
                &&& after[i as int].items@ == fresh@
                &&& match before[i as int].item_state {
                    Some(j) => after[i as int].item_state == after_deletion(j, fresh@.len()),
                    None => after[i as int].item_state is None,
                }
            },
            old(self).lists_component.list_state is None ==> final(self).lists_component.lists@
                == old(self).lists_component.lists@,
            final(self).config == old(self).config,
            final(self).current_db_config == old(self).current_db_config,
            final(self).selected_db_index == old(self).selected_db_index,
            final(self).exit == old(self).exit,
    {
        if let Some(i) = self.lists_component.list_state {
            proof {
                assert(self.lists_component.lists@[i as int].wf());
            }
            ItemsComponent::delete_selected_item(&mut self.lists_component.lists[i], fresh);
            proof {
                self.lemma_lists_wf_after_update(old(self).lists_component.lists@, i as int);
            }
        }
    }

    /// The selected item was moved up in storage: show the items read back.
    pub fn item_moved_up(&mut self, fresh: Vec<UIItem>)
        requires
            old(self).wf(),
        ensures
            final(self).wf(),
            final(self).current_screen == old(self).current_screen,
            final(self).input_state == old(self).input_state,
            final(self).lists_component.list_state == old(self).lists_component.list_state,
            old(self).lists_component.list_state matches Some(i) ==> {
                let before = old(self).lists_component.lists@;
                let after = final(self).lists_component.lists@;
                &&& others_unchanged(before, after, i as int)
                &&& after[i as int].list == before[i as int].list
                &&& after[i as int].items@ == fresh@
                &&& match before[i as int].item_state {
                    Some(j) => after[i as int].item_state == after_move_up(j, fresh@.len()),
                    None => after[i as int].item_state is None,
                }
            },
            old(self).lists_component.list_state is None ==> final(self).lists_component.lists@
                == old(self).lists_component.lists@,
            final(self).config == old(self).config,
            final(self).current_db_config == old(self).current_db_config,
            final(self).selected_db_index == old(self).selected_db_index,
            final(self).exit == old(self).exit,
    {
        if let Some(i) = self.lists_component.list_state {
            proof {
                assert(self.lists_component.lists@[i as int].wf());
            }
            ItemsComponent::move_selected_item_up(&mut self.lists_component.lists[i], fresh);
            proof {
                self.lemma_lists_wf_after_update(old(self).lists_component.lists@, i as int);
            }
        }
    }

    /// The selected item was moved down in storage: show the items read back.
    pub fn item_moved_down(&mut self, fresh: Vec<UIItem>)
        requires
            old(self).wf(),
        ensures
            final(self).wf(),
            final(self).current_screen == old(self).current_screen,
            final(self).input_state == old(self).input_state,
            final(self).lists_component.list_state == old(self).lists_component.list_state,
            old(self).lists_component.list_state matches Some(i) ==> {
                let before = old(self).lists_component.lists@;
                let after = final(self).lists_component.lists@;
                &&& others_unchanged(before, after, i as int)
                &&& after[i as int].list == before[i as int].list
                &&& after[i as int].items@ == fresh@
                &&& match before[i as int].item_state {
                    Some(j) => after[i as int].item_state == after_move_down(j, fresh@.len()),
                    None => after[i as int].item_state is None,
                }
            },
            old(self).lists_component.list_state is None ==> final(self).lists_component.lists@
                == old(self).lists_component.lists@,
            final(self).config == old(self).config,
            final(self).current_db_config == old(self).current_db_config,
            final(self).selected_db_index == old(self).selected_db_index,
            final(self).exit == old(self).exit,
    {
        if let Some(i) = self.lists_component.list_state {
            proof {
                assert(self.lists_component.lists@[i as int].wf());
            }
            ItemsComponent::move_selected_item_down(&mut self.lists_component.lists[i], fresh);
            proof {
                self.lemma_lists_wf_after_update(old(self).lists_component.lists@, i as int);
            }
        }
    }

    /// The selected item's done mark was flipped in storage: flip it in the shown list.
    pub fn item_toggled(&mut self)
        requires
            old(self).wf(),
        ensures
            final(self).wf(),
            final(self).current_screen == old(self).current_screen,
            final(self).input_state == old(self).input_state,
            final(self).lists_component.list_state == old(self).lists_component.list_state,
            old(self).lists_component.list_state matches Some(i) ==> {
                let before = old(self).lists_component.lists@;
                let after = final(self).lists_component.lists@;
                &&& others_unchanged(before, after, i as int)
                &&& after[i as int].list == before[i as int].list
                &&& after[i as int].item_state == before[i as int].item_state
                &&& after[i as int].items@.len() == before[i as int].items@.len()
                &&& before[i as int].item_state is None ==> after[i as int].items@
                    == before[i as int].items@
                &&& before[i as int].item_state matches Some(j) ==> {
                    &&& after[i as int].items@[j as int].item.is_done
                        == !before[i as int].items@[j as int].item.is_done
                    &&& after[i as int].items@[j as int].item.id
                        == before[i as int].items@[j as int].item.id
                    &&& after[i as int].items@[j as int].item.name@
                        == before[i as int].items@[j as int].item.name@
                    &&& forall|k: int|
                        0 <= k < before[i as int].items@.len() && k != j
                            ==> after[i as int].items@[k] == before[i as int].items@[k]
                }
            },
            old(self).lists_component.list_state is None ==> final(self).lists_component.lists@
                == old(self).lists_component.lists@,
            final(self).config == old(self).config,
            final(self).current_db_config == old(self).current_db_config,
            final(self).selected_db_index == old(self).selected_db_index,
            final(self).exit == old(self).exit,
    {
        if let Some(i) = self.lists_component.list_state {
            proof {
                assert(self.lists_component.lists@[i as int].wf());
            }
            ItemsComponent::toggle_item_done(&mut self.lists_component.lists[i]);
            proof {
                self.lemma_lists_wf_after_update(old(self).lists_component.lists@, i as int);
            }
        }
    }

    /// The database at the selector was connected and its lists read: `loaded` holds
    /// them, or nothing when connecting or reading failed. On success it becomes the
    /// current database, its lists are shown with nothing selected, and the main screen
    /// returns; on failure nothing changes.
    pub fn switch_to_selected_db(&mut self, loaded: Option<Vec<UIList>>)
        requires
            old(self).wf(),
            loaded matches Some(l) ==> all_lists_wf(l@),
        ensures
            final(self).wf(),
            loaded is None ==> *final(self) == *old(self),
            old(self).selected_db_index >= old(self).config.dbs@.len() ==> *final(self)
                == *old(self),
            loaded is Some && old(self).selected_db_index < old(self).config.dbs@.len() ==> {
                &&& final(self).current_db_config.same_as(
                    &old(self).config.dbs@[old(self).selected_db_index as int],
                )
                &&& final(self).lists_component.lists@ == loaded->0@
                &&& final(self).lists_component.list_state is None
                &&& final(self).current_screen == CurrentScreen::Main
                &&& final(self).input_state == old(self).input_state
                &&& final(self).config == old(self).config
                &&& final(self).selected_db_index == old(self).selected_db_index
                &&& final(self).exit == old(self).exit
            },
    {
        if let Some(lists) = loaded {
            if self.selected_db_index < self.config.dbs.len() {
                let db = self.config.dbs[self.selected_db_index].duplicate();
                let mut lists_component = ListsComponent::new();
                lists_component.load_lists(lists);
                self.current_db_config = db;
                self.lists_component = lists_component;
                self.current_screen = CurrentScreen::Main;
            }
        }
    }

    /// The database at the selector was saved as the default: record it in the
    /// configuration.
    pub fn set_selected_db_as_default(&mut self)
        requires
            old(self).wf(),
        ensures
            final(self).wf(),
            old(self).selected_db_index < old(self).config.dbs@.len()
                ==> final(self).config.default@ == old(self).config.dbs@[old(
                self,
            ).selected_db_index as int].name@,
            old(self).selected_db_index >= old(self).config.dbs@.len() ==> *final(self)
                == *old(self),
            final(self).config.dbs@ == old(self).config.dbs@,
            final(self).config.colours == old(self).config.colours,
            final(self).current_screen == old(self).current_screen,
            final(self).input_state == old(self).input_state,
            final(self).lists_component == old(self).lists_component,
            final(self).current_db_config == old(self).current_db_config,
            final(self).selected_db_index == old(self).selected_db_index,
            final(self).exit == old(self).exit,
    {
        if self.selected_db_index < self.config.dbs.len() {
            self.config.set_default_db(self.selected_db_index);
        }
    }

    /// A new database was created and the configuration saved with it: add it to the
    /// configured databases, select it, and go back to the database selector.
    pub fn create_new_database(&mut self, db: DBConfig, set_as_default: bool)
        requires
            old(self).wf(),
        ensures
            final(self).wf(),
            final(self).config.dbs@ == old(self).config.dbs@.push(db),
            set_as_default ==> final(self).config.default@ == db.name@,
            !set_as_default ==> final(self).config.default == old(self).config.default,
            final(self).selected_db_index == old(self).config.dbs@.len(),
            closed_to(*final(self), CurrentScreen::ChangeDB),
            final(self).lists_component == old(self).lists_component,
            final(self).current_db_config == old(self).current_db_config,
            final(self).exit == old(self).exit,
    {
        self.config.add_database(db, set_as_default);
        self.selected_db_index = self.config.dbs.len() - 1;
        self.input_state.clear();
        self.current_screen = CurrentScreen::ChangeDB;
    }

    /// A key on the list pop-up.
    pub fn handle_add_or_modify_list_screen_key(&mut self, key: Key) -> (r: Effect)
        requires
            old(self).wf(),
        ensures
            final(self).wf(),
            list_popup_step(*old(self), *final(self), key, r),
    {
        match key {
            Key::Enter => {
                if is_blank(&self.input_state.current_input) {
                    Effect::Nothing
                } else if !self.input_state.is_modifying {
                    Effect::CreateList { name: self.input_state.current_input.clone() }
                } else {
                    match self.lists_component.list_state {
                        Some(i) => Effect::RenameList {
                            list_id: self.lists_component.lists[i].list.id,
                            name: self.input_state.current_input.clone(),
                        },
                        None => Effect::Nothing,
                    }
                }
            },
            Key::Esc => {
                self.exit_add_or_modify_list_without_saving();
                Effect::Nothing
            },
            Key::Up | Key::Down => Effect::Nothing,
            _ => {
                apply_edit_key(&mut self.input_state, key);
                Effect::Nothing
            },
        }
    }

    /// A key on the item pop-up.
    pub fn handle_add_or_modify_item_screen_key(&mut self, key: Key) -> (r: Effect)
        requires
            old(self).wf(),
        ensures
            final(self).wf(),
            item_popup_step(*old(self), *final(self), key, r),
    {
        match key {
            Key::Enter => {
                if is_blank(&self.input_state.current_input) {
                    Effect::Nothing
                } else if !self.input_state.is_modifying {
                    match self.lists_component.list_state {
                        Some(i) => Effect::CreateItem {
                            list_id: self.lists_component.lists[i].list.id,
                            name: self.input_state.current_input.clone(),
                        },
                        None => Effect::Nothing,
                    }
                } else {
                    match self.lists_component.list_state {
                        Some(i) => {
                            proof {
                                assert(self.lists_component.lists@[i as int].wf());
                            }
                            match self.lists_component.lists[i].item_state {
                                Some(j) => Effect::RenameItem {
                                    item_id: self.lists_component.lists[i].items[j].item.id,
                                    name: self.input_state.current_input.clone(),
                                },
                                None => Effect::Nothing,
                            }
                        },
                        None => Effect::Nothing,
                    }
                }
            },
            Key::Esc => {
                self.exit_add_item_without_saving();
                Effect::Nothing
            },
            Key::Up | Key::Down => Effect::Nothing,
            _ => {
                apply_edit_key(&mut self.input_state, key);
                Effect::Nothing
            },
        }
    }

    /// A key on the database-name pop-up.
    pub fn handle_add_db_screen_key(&mut self, key: Key) -> (r: Effect)
        requires
            old(self).wf(),
        ensures
            final(self).wf(),
            add_db_step(*old(self), *final(self), key, r),
    {
        match key {
            Key::Enter => {
                if is_blank(&self.input_state.current_input) {
                    Effect::Nothing
                } else {
                    Effect::CreateDatabase { name: self.input_state.current_input.clone() }
                }
            },
            Key::Esc => {
                self.exit_add_db_without_saving();
                Effect::Nothing
            },
            Key::Up | Key::Down => Effect::Nothing,
            _ => {
                apply_edit_key(&mut self.input_state, key);
                Effect::Nothing
            },
        }
    }

    /// A key on the database selector.
    pub fn handle_change_db_screen_key(&mut self, key: Key) -> (r: Effect)
        requires
            old(self).wf(),
        ensures
            final(self).wf(),
            change_db_step(*old(self), *final(self), key, r),
    {
        match key {
            Key::Up => {
                self.select_previous_db();
                Effect::Nothing
            },
            Key::Down => {
                self.select_next_db();
                Effect::Nothing
            },
            Key::Esc => {
                self.exit_change_db_without_saving();
                Effect::Nothing
            },
            Key::Char('A') => {
                self.enter_add_db_screen();
                Effect::Nothing
            },
            Key::Char('S') => {
                if self.selected_db_index < self.config.dbs.len() {
                    Effect::SetDefaultDatabase { index: self.selected_db_index }
                } else {
                    Effect::Nothing
                }
            },
            Key::Enter => {
                if self.selected_db_index < self.config.dbs.len() {
                    Effect::SwitchDatabase { index: self.selected_db_index }
                } else {
                    Effect::Nothing
                }
            },
            _ => Effect::Nothing,
        }
    }

    /// A key on the main screen.
    pub fn handle_main_screen_key(&mut self, key: Key) -> (r: Effect)
        requires
            old(self).wf(),
        ensures
            final(self).wf(),
            main_step(*old(self), *final(self), key, r),
    {
        match key {
            Key::Char('q') => {
                self.exit = true;
                Effect::Nothing
            },
            Key::Char('A') => {
                self.enter_add_list_screen();
                Effect::Nothing
            },
            Key::Char('M') => {
                if let Some(i) = self.lists_component.list_state {
                    let selected_list = self.lists_component.lists[i].list.duplicate();
                    self.enter_modify_list_screen(&selected_list);
                }
                Effect::Nothing
            },
            Key::Char('a') => {
                self.enter_add_item_screen();
                Effect::Nothing
            },
            Key::Char('m') => {
                self.enter_modify_item_screen();
                Effect::Nothing
            },
            Key::Char('C') => {
                self.enter_change_db_screen();
                Effect::Nothing
            },
            Key::Char('w') => {
                self.lists_component.select_previous();
                Effect::Nothing
            },
            Key::Char('s') => {
                self.lists_component.select_next();
                Effect::Nothing
            },
            Key::Char('D') => match self.lists_component.list_state {
                Some(i) => Effect::DeleteList { list_id: self.lists_component.lists[i].list.id },
                None => Effect::Nothing,
            },
            Key::Char('W') => match self.lists_component.list_state {
                Some(i) => if i > 0 {
                    Effect::MoveListUp { list_id: self.lists_component.lists[i].list.id }
                } else {
                    Effect::Nothing
                },
                None => Effect::Nothing,
            },
            Key::Char('S') => match self.lists_component.list_state {
                Some(i) => if i < self.lists_component.lists.len() - 1 {
                    Effect::MoveListDown { list_id: self.lists_component.lists[i].list.id }
                } else {
                    Effect::Nothing
                },
                None => Effect::Nothing,
            },
            Key::Char('d') | Key::Char('K') | Key::Char('J') | Key::Enter => {
                match self.lists_component.list_state {
                    Some(i) => {
                        proof {
                            assert(self.lists_component.lists@[i as int].wf());
                        }
                        let ui_list = &self.lists_component.lists[i];
                        match ui_list.item_state {
                            Some(j) => {
                                let id = ui_list.items[j].item.id;
                                match key {
                                    Key::Char('d') => Effect::DeleteItem { item_id: id },
                                    Key::Char('K') => if j > 0 {
                                        Effect::MoveItemUp { item_id: id }
                                    } else {
                                        Effect::Nothing
                                    },
                                    Key::Char('J') => if j < ui_list.items.len() - 1 {
                                        Effect::MoveItemDown { item_id: id }
                                    } else {
                                        Effect::Nothing
                                    },
                                    _ => Effect::ToggleItemDone { item_id: id },
                                }
                            },
                            None => Effect::Nothing,
                        }
                    },
                    None => Effect::Nothing,
                }
            },
            Key::Up | Key::Down | Key::Right | Key::Left => {
                if let Some(i) = self.lists_component.list_state {
                    proof {
                        assert(self.lists_component.lists@[i as int].wf());
                    }
                    match key {
                        Key::Up => ItemsComponent::select_previous_item(
                            &mut self.lists_component.lists[i],
                        ),
                        Key::Down => ItemsComponent::select_next_item(
                            &mut self.lists_component.lists[i],
                        ),
                        Key::Right => ItemsComponent::select_first_item(
                            &mut self.lists_component.lists[i],
                        ),
                        _ => ItemsComponent::remove_item_selection(
                            &mut self.lists_component.lists[i],
                        ),
                    }
                    proof {
                        self.lemma_lists_wf_after_update(
                            old(self).lists_component.lists@,
                            i as int,
                        );
                    }
                }
                Effect::Nothing
            },
            _ => Effect::Nothing,
        }
    }

    /// Route a key to the handler of the current screen. Keys that the screen does not
    /// bind are ignored.
    pub fn handle_key_event(&mut self, key: Key) -> (r: Effect)
        requires
            old(self).wf(),
        ensures
            final(self).wf(),
            key_step(*old(self), *final(self), key, r),
    {
        match self.current_screen {
            CurrentScreen::Main => self.handle_main_screen_key(key),
            CurrentScreen::AddList | CurrentScreen::ModifyList => {
                self.handle_add_or_modify_list_screen_key(key)
            },
            CurrentScreen::AddItem | CurrentScreen::ModifyItem => {
                self.handle_add_or_modify_item_screen_key(key)
            },
            CurrentScreen::ChangeDB => self.handle_change_db_screen_key(key),
            CurrentScreen::AddDB => self.handle_add_db_screen_key(key),
        }
    }

    proof fn lemma_lists_wf_after_update(&self, before: Seq<UIList>, i: int)
        requires
            all_lists_wf(before),
            0 <= i < before.len(),
            others_unchanged(before, self.lists_component.lists@, i),
            self.lists_component.lists@[i].wf(),
        ensures
            all_lists_wf(self.lists_component.lists@),
    {
        let after = self.lists_component.lists@;
        assert forall|k: int| 0 <= k < after.len() implies #[trigger] after[k].wf() by {
            if k != i {
                assert(after[k] == before[k]);
                assert(before[k].wf());
            }
        }
    }
}

/// Whatever editing key is pressed, a cursor that was within the text stays within it.
pub proof fn lemma_edit_keeps_cursor_in_text(a: InputState, b: InputState, key: Key)
    requires
        a.wf(),
        edited(a, b, key),
    ensures
        b.wf(),
{
}

/// On the main screen, moving down the list that is already last neither asks storage
/// for anything nor changes the order or the selection.
pub proof fn lemma_move_last_list_down_is_noop(a: App, b: App, r: Effect, i: usize)
    requires
        a.lists_component.list_state == Some(i),
        i + 1 == a.lists_component.lists@.len(),
        main_step(a, b, Key::Char('S'), r),
    ensures
        b == a,
        r is Nothing,
{
}

/// On the main screen, moving down the item that is already last in the selected list
/// neither asks storage for anything nor changes the order or the selection.
pub proof fn lemma_move_last_item_down_is_noop(a: App, b: App, r: Effect, i: usize, j: usize)
    requires
        a.lists_component.list_state == Some(i),
        a.lists_component.lists@[i as int].item_state == Some(j),
        j + 1 == a.lists_component.lists@[i as int].items@.len(),
        main_step(a, b, Key::Char('J'), r),
    ensures
        b == a,
        r is Nothing,
{
}

/// Asking for an item pop-up while no list is selected leaves the main screen as it is.
pub proof fn lemma_add_item_needs_a_list(a: App, b: App, r: Effect)
    requires
        a.lists_component.list_state is None,
        main_step(a, b, Key::Char('a'), r),
    ensures
        b == a,
        b.current_screen == a.current_screen,
        r is Nothing,
{
}

} // verus!
