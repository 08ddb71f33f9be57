use vstd::prelude::*;
use crate::models::{UIItem, UIList};
use crate::selection::{
    after_deletion, after_move_down, after_move_up, first_if_none, next_of, previous_of,
    reloaded, deletion_selection, first_selection, move_down_selection, move_up_selection,
    next_selection, previous_selection, reload_selection,
};

verus! {

/// Selection and reload rules for the items of one list. Each operation that changed
/// stored items takes the items as read back from storage afterwards.
pub struct ItemsComponent;

impl ItemsComponent {
    /// Select the next item in the list of to-do items.
    pub fn select_next_item(ui_list: &mut UIList)
        requires
            old(ui_list).wf(),
        ensures
            final(ui_list).wf(),
            final(ui_list).item_state == next_of(old(ui_list).item_state, old(ui_list).items@.len()),
            final(ui_list).items@ == old(ui_list).items@,
            final(ui_list).list == old(ui_list).list,
    {
        ui_list.item_state = next_selection(ui_list.item_state, ui_list.items.len());
    }

    /// Select the previous item in the list of to-do items.
    pub fn select_previous_item(ui_list: &mut UIList)
        requires
            old(ui_list).wf(),
        ensures
            final(ui_list).wf(),
            final(ui_list).item_state == previous_of(
                old(ui_list).item_state,
                old(ui_list).items@.len(),
            ),
            final(ui_list).items@ == old(ui_list).items@,
            final(ui_list).list == old(ui_list).list,
    {
        ui_list.item_state = previous_selection(ui_list.item_state, ui_list.items.len());
    }

    /// Deselect the current item.
    pub fn remove_item_selection(ui_list: &mut UIList)
        ensures
            final(ui_list).wf(),
            final(ui_list).item_state is None,
            final(ui_list).items@ == old(ui_list).items@,
            final(ui_list).list == old(ui_list).list,
    {
        ui_list.item_state = None;
    }

    /// Select the first item, unless an item is selected already.
    pub fn select_first_item(ui_list: &mut UIList)
        requires
            old(ui_list).wf(),
        ensures
            final(ui_list).wf(),
            final(ui_list).item_state == first_if_none(
                old(ui_list).item_state,
                old(ui_list).items@.len(),
            ),
            final(ui_list).items@ == old(ui_list).items@,
            final(ui_list).list == old(ui_list).list,
    {
        ui_list.item_state = first_selection(ui_list.item_state, ui_list.items.len());
    }

    /// Flip the done mark of the selected item, once storage has flipped it; nothing
    /// happens when no item is selected. Order and selection stay as they are.
    pub fn toggle_item_done(ui_list: &mut UIList)
        requires
            old(ui_list).wf(),
        ensures
            final(ui_list).wf(),
            final(ui_list).item_state == old(ui_list).item_state,
            final(ui_list).list == old(ui_list).list,
            final(ui_list).items@.len() == old(ui_list).items@.len(),
            old(ui_list).item_state is None ==> final(ui_list).items@ == old(ui_list).items@,
            old(ui_list).item_state matches Some(j) ==> {
                &&& final(ui_list).items@[j as int].item.is_done
                    == !old(ui_list).items@[j as int].item.is_done
                &&& final(ui_list).items@[j as int].item.id == old(ui_list).items@[j as int].item.id
                &&& final(ui_list).items@[j as int].item.name@
                    == old(ui_list).items@[j as int].item.name@
                &&& forall|k: int|
                    0 <= k < old(ui_list).items@.len() && k != j ==> final(ui_list).items@[k]
                        == old(ui_list).items@[k]
            },
    {
        if let Some(j) = ui_list.item_state {
            let done = ui_list.items[j].item.is_done;
            ui_list.items[j].item.is_done = !done;
        }
    }

    /// Show the items read back after an item was created. The new item is not selected.
    pub fn create_item(ui_list: &mut UIList, fresh: Vec<UIItem>)
        requires
            old(ui_list).wf(),
        ensures
            final(ui_list).wf(),
            final(ui_list).items@ == fresh@,
            final(ui_list).list == old(ui_list).list,
            final(ui_list).item_state == reloaded(old(ui_list).item_state, fresh@.len()),
    {
        ui_list.item_state = reload_selection(ui_list.item_state, fresh.len());
        ui_list.items = fresh;
    }

    /// Show the items read back after the selected item was renamed; the selection
    /// stays on the same index.
    pub fn update_item(ui_list: &mut UIList, fresh: Vec<UIItem>)
        requires
            old(ui_list).wf(),
        ensures
            final(ui_list).wf(),
            final(ui_list).items@ == fresh@,
            final(ui_list).list == old(ui_list).list,
            final(ui_list).item_state == reloaded(old(ui_list).item_state, fresh@.len()),
    {
        ui_list.item_state = reload_selection(ui_list.item_state, fresh.len());
        ui_list.items = fresh;
    }

    /// Show the items read back after the selected item was deleted, and repair the
    /// selection: the next item slides into its place, or the new last one is selected.
    pub fn delete_selected_item(ui_list: &mut UIList, fresh: Vec<UIItem>)
        requires
            old(ui_list).wf(),
        ensures
            final(ui_list).wf(),
            final(ui_list).items@ == fresh@,
            final(ui_list).list == old(ui_list).list,
            old(ui_list).item_state matches Some(j) ==> final(ui_list).item_state
                == after_deletion(j, fresh@.len()),
            old(ui_list).item_state is None ==> final(ui_list).item_state is None,
    {
        ui_list.item_state = match ui_list.item_state {
            Some(j) => deletion_selection(j, fresh.len()),
            None => None,
        };
        ui_list.items = fresh;
    }

    /// Show the items read back after the selected item was moved up; the selection
    /// follows the item.
    pub fn move_selected_item_up(ui_list: &mut UIList, fresh: Vec<UIItem>)
        requires
            old(ui_list).wf(),
        ensures
            final(ui_list).wf(),
            final(ui_list).items@ == fresh@,
            final(ui_list).list == old(ui_list).list,
            old(ui_list).item_state matches Some(j) ==> final(ui_list).item_state
                == after_move_up(j, fresh@.len()),
            old(ui_list).item_state is None ==> final(ui_list).item_state is None,
    {
        ui_list.item_state = match ui_list.item_state {
            Some(j) => move_up_selection(j, fresh.len()),
            None => None,
        };
        ui_list.items = fresh;
    }

    /// Show the items read back after the selected item was moved down; the selection
    /// follows the item.
    pub fn move_selected_item_down(ui_list: &mut UIList, fresh: Vec<UIItem>)
        requires
            old(ui_list).wf(),
        ensures
            final(ui_list).wf(),
            final(ui_list).items@ == fresh@,
            final(ui_list).list == old(ui_list).list,
            old(ui_list).item_state matches Some(j) ==> final(ui_list).item_state
                == after_move_down(j, fresh@.len()),
            old(ui_list).item_state is None ==> final(ui_list).item_state is None,
    {
        ui_list.item_state = match ui_list.item_state {
            Some(j) => move_down_selection(j, fresh.len()),
            None => None,
        };
        ui_list.items = fresh;
    }
}

} // verus!
