use vstd::prelude::*;
use crate::models::UIList;
use crate::selection::{
    after_deletion, after_move_down, after_move_up, next_of, previous_of, reloaded,
    valid_selection, deletion_selection, move_down_selection, move_up_selection, next_selection,
    previous_selection, reload_selection,
};

verus! {

/// All lists in order, with the selected one. Each operation that changed stored lists
/// takes the lists as read back from storage afterwards.
pub struct ListsComponent {
    pub lists: Vec<UIList>,
    pub list_state: Option<usize>,
}

/// Every list's own item selection is valid.
pub open spec fn all_lists_wf(lists: Seq<UIList>) -> bool {
    forall|i: int| 0 <= i < lists.len() ==> #[trigger] lists[i].wf()
}

impl ListsComponent {
    /// The list selection, and each list's item selection, point into their collections.
    pub open spec fn wf(&self) -> bool {
        &&& valid_selection(self.list_state, self.lists@.len())
        &&& all_lists_wf(self.lists@)
    }

    pub fn new() -> (r: ListsComponent)
        ensures
            r.wf(),
            r.lists@.len() == 0,
            r.list_state is None,
    {
        ListsComponent { lists: Vec::new(), list_state: None }
    }

    /// Show the lists read back from storage; a selection that no longer fits moves to
    /// the new last list.
    pub fn load_lists(&mut self, fresh: Vec<UIList>)
        requires
            all_lists_wf(fresh@),
        ensures
            final(self).wf(),
            final(self).lists@ == fresh@,
            final(self).list_state == reloaded(old(self).list_state, fresh@.len()),
    {
        self.list_state = reload_selection(self.list_state, fresh.len());
        self.lists = fresh;
    }

    /// Select the next list.
    pub fn select_next(&mut self)
        requires
            old(self).wf(),
        ensures
            final(self).wf(),
            final(self).lists@ == old(self).lists@,
            final(self).list_state == next_of(old(self).list_state, old(self).lists@.len()),
    {
        self.list_state = next_selection(self.list_state, self.lists.len());
    }

    /// Select the previous list.
    pub fn select_previous(&mut self)
        requires
            old(self).wf(),
        ensures
            final(self).wf(),
            final(self).lists@ == old(self).lists@,
            final(self).list_state == previous_of(old(self).list_state, old(self).lists@.len()),
    {
        self.list_state = previous_selection(self.list_state, self.lists.len());
    }

    /// Index of the selected list.
    pub fn selected(&self) -> (r: Option<usize>)
        ensures
            r == self.list_state,
    {
        self.list_state
    }

    /// The selected list.
    pub fn get_selected_list(&self) -> (r: Option<&UIList>)
        requires
            self.wf(),
        ensures
            self.list_state is None ==> r is None,
            self.list_state matches Some(i) ==> r == Some(&self.lists@[i as int]),
    {
        match self.list_state {
            Some(i) => Some(&self.lists[i]),
            None => None,
        }
    }

    /// Show the lists read back after the selected list moved; the selection stays on
    /// the index it had where that index still exists.
    pub fn refresh_lists(&mut self, fresh: Vec<UIList>)
        requires
            all_lists_wf(fresh@),
        ensures
            final(self).wf(),
            final(self).lists@ == fresh@,
            final(self).list_state == reloaded(old(self).list_state, fresh@.len()),
    {
        self.load_lists(fresh);
    }

    /// Show the lists read back after the selected list was moved up; the selection
    /// follows the list.
    pub fn move_selected_list_up(lists_component: &mut ListsComponent, fresh: Vec<UIList>)
        requires
            all_lists_wf(fresh@),
        ensures
            final(lists_component).wf(),
            final(lists_component).lists@ == fresh@,
            old(lists_component).list_state matches Some(i) ==> final(lists_component).list_state
                == after_move_up(i, fresh@.len()),
            old(lists_component).list_state is None ==> final(lists_component).list_state is None,
    {
        lists_component.list_state = match lists_component.list_state {
            Some(i) => move_up_selection(i, fresh.len()),
            None => None,
        };
        lists_component.lists = fresh;
    }

    /// Show the lists read back after the selected list was moved down; the selection
    /// follows the list.
    pub fn move_selected_list_down(lists_component: &mut ListsComponent, fresh: Vec<UIList>)
        requires
            all_lists_wf(fresh@),
        ensures
            final(lists_component).wf(),
            final(lists_component).lists@ == fresh@,
            old(lists_component).list_state matches Some(i) ==> final(lists_component).list_state
                == after_move_down(i, fresh@.len()),
            old(lists_component).list_state is None ==> final(lists_component).list_state is None,
    {
        lists_component.list_state = match lists_component.list_state {
            Some(i) => move_down_selection(i, fresh.len()),
            None => None,
        };
        lists_component.lists = fresh;
    }

    /// Show the lists read back after the selected list was deleted, and repair the
    /// selection.
    pub fn delete_selected_list_static(lists_component: &mut ListsComponent, fresh: Vec<UIList>)
        requires
            all_lists_wf(fresh@),
        ensures
            final(lists_component).wf(),
            final(lists_component).lists@ == fresh@,
            old(lists_component).list_state matches Some(i) ==> final(lists_component).list_state
                == after_deletion(i, fresh@.len()),
            old(lists_component).list_state is None ==> final(lists_component).list_state is None,
    {
        lists_component.list_state = match lists_component.list_state {
            Some(i) => deletion_selection(i, fresh.len()),
            None => None,
        };
        lists_component.lists = fresh;
    }

    /// Show the lists read back after a list was created. The new list is not selected.
    pub fn create_list(lists_component: &mut ListsComponent, fresh: Vec<UIList>)
        requires
            all_lists_wf(fresh@),
        ensures
            final(lists_component).wf(),
            final(lists_component).lists@ == fresh@,
            final(lists_component).list_state == reloaded(
                old(lists_component).list_state,
                fresh@.len(),
            ),
    {
        lists_component.load_lists(fresh);
    }

    /// Show the lists read back after the selected list was renamed.
    pub fn update_list(lists_component: &mut ListsComponent, fresh: Vec<UIList>)
        requires
            all_lists_wf(fresh@),
        ensures
            final(lists_component).wf(),
            final(lists_component).lists@ == fresh@,
            final(lists_component).list_state == reloaded(
                old(lists_component).list_state,
                fresh@.len(),
            ),
    {
        lists_component.load_lists(fresh);
    }
}

} // verus!
