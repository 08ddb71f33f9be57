use vstd::prelude::*;
use crate::selection::valid_selection;

verus! {

/// A stored to-do list; `position` orders the lists.
pub struct TodoList {
    pub id: i64,
    pub name: String,
    pub position: i64,
}

/// A stored item of the list `list_id`; `position` orders the items of that list.
pub struct TodoItem {
    pub id: i64,
    pub list_id: i64,
    pub name: String,
    pub is_done: bool,
    pub position: i64,
}

/// An item as shown.
pub struct UIItem {
    pub item: TodoItem,
}

/// A list as shown: the list, its items in order, and the selected item.
pub struct UIList {
    pub list: TodoList,
    pub items: Vec<UIItem>,
    pub item_state: Option<usize>,
}

impl TodoList {
    /// A copy with the same id, name and position.
    pub fn duplicate(&self) -> (r: TodoList)
        ensures
            r.id == self.id,
            r.name@ == self.name@,
            r.position == self.position,
    {
        TodoList { id: self.id, name: self.name.clone(), position: self.position }
    }
}

impl UIList {
    /// The item selection points into the items.
    pub open spec fn wf(&self) -> bool {
        valid_selection(self.item_state, self.items@.len())
    }

    /// A list with its items, nothing selected.
    pub fn new(list: TodoList, items: Vec<UIItem>) -> (r: UIList)
        ensures
            r.wf(),
            r.list == list,
            r.items@ == items@,
            r.item_state is None,
    {
        UIList { list, items, item_state: None }
    }

    /// The index of the selected item, if any.
    pub fn selected_item(&self) -> (r: Option<usize>)
        ensures
            r == self.item_state,
    {
        self.item_state
    }
}

} // verus!
