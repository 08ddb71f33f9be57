use vstd::prelude::*;

verus! {

/// A selection is valid for a collection of `len` entities when it is empty or points
/// at one of them.
pub open spec fn valid_selection(sel: Option<usize>, len: nat) -> bool {
    match sel {
        Some(i) => i < len,
        None => true,
    }
}

/// The last index of a non-empty collection, or nothing for an empty one.
pub open spec fn last_or_none(len: nat) -> Option<usize> {
    if len > 0 {
        Some((len - 1) as usize)
    } else {
        None
    }
}

/// Selection after the collection was reloaded with `len` entities.
pub open spec fn reloaded(prev: Option<usize>, len: nat) -> Option<usize> {
    match prev {
        Some(i) => if i < len {
            Some(i)
        } else {
            last_or_none(len)
        },
        None => None,
    }
}

/// Selection after the entity at `i` was deleted, leaving `len` entities.
pub open spec fn after_deletion(i: usize, len: nat) -> Option<usize> {
    if len == 0 {
        None
    } else if i >= len {
        Some((len - 1) as usize)
    } else {
        Some(i)
    }
}

/// Selection after the entity at `i` was moved up and the `len` entities reloaded.
pub open spec fn after_move_up(i: usize, len: nat) -> Option<usize> {
    if 0 < i <= len {
        Some((i - 1) as usize)
    } else {
        reloaded(Some(i), len)
    }
}

/// Selection after the entity at `i` was moved down and the `len` entities reloaded.
pub open spec fn after_move_down(i: usize, len: nat) -> Option<usize> {
    if i + 1 < len {
        Some((i + 1) as usize)
    } else {
        reloaded(Some(i), len)
    }
}

/// The next entity, staying on the last one; the first one when nothing is selected.
pub open spec fn next_of(sel: Option<usize>, len: nat) -> Option<usize> {
    if len == 0 {
        None
    } else {
        match sel {
            Some(i) => if i + 1 < len {
                Some((i + 1) as usize)
            } else {
                Some((len - 1) as usize)
            },
            None => Some(0),
        }
    }
}

/// The previous entity, staying on the first one; the last one when nothing is selected.
pub open spec fn previous_of(sel: Option<usize>, len: nat) -> Option<usize> {
    if len == 0 {
        None
    } else {
        match sel {
            Some(i) => if i == 0 {
                Some(0)
            } else if i - 1 < len {
                Some((i - 1) as usize)
            } else {
                Some((len - 1) as usize)
            },
            None => Some((len - 1) as usize),
        }
    }
}

/// The first entity when nothing is selected yet; an existing selection is kept.
pub open spec fn first_if_none(sel: Option<usize>, len: nat) -> Option<usize> {
    match sel {
        Some(i) => Some(i),
        None => if len > 0 {
            Some(0)
        } else {
            None
        },
    }
}

pub fn reload_selection(prev: Option<usize>, len: usize) -> (r: Option<usize>)
    ensures
        r == reloaded(prev, len as nat),
        valid_selection(r, len as nat),
{
    match prev {
        Some(i) => if i < len {
            Some(i)
        } else if len > 0 {
            Some(len - 1)
        } else {
            None
        },
        None => None,
    }
}

pub fn deletion_selection(i: usize, len: usize) -> (r: Option<usize>)
    ensures
        r == after_deletion(i, len as nat),
        valid_selection(r, len as nat),
{
    if len == 0 {
        None
    } else if i >= len {
        Some(len - 1)
    } else {
        Some(i)
    }
}

pub fn move_up_selection(i: usize, len: usize) -> (r: Option<usize>)
    ensures
        r == after_move_up(i, len as nat),
        valid_selection(r, len as nat),
{
    if 0 < i && i <= len {
        Some(i - 1)
    } else {
        reload_selection(Some(i), len)
    }
}

pub fn move_down_selection(i: usize, len: usize) -> (r: Option<usize>)
    ensures
        r == after_move_down(i, len as nat),
        valid_selection(r, len as nat),
{
    if i < len && i + 1 < len {
        Some(i + 1)
    } else {
        reload_selection(Some(i), len)
    }
}

pub fn next_selection(sel: Option<usize>, len: usize) -> (r: Option<usize>)
    ensures
        r == next_of(sel, len as nat),
        valid_selection(r, len as nat),
{
    if len == 0 {
        None
    } else {
        match sel {
            Some(i) => if i < len - 1 {
                Some(i + 1)
            } else {
                Some(len - 1)
            },
            None => Some(0),
        }
    }
}

pub fn previous_selection(sel: Option<usize>, len: usize) -> (r: Option<usize>)
    ensures
        r == previous_of(sel, len as nat),
        valid_selection(r, len as nat),
{
    if len == 0 {
        None
    } else {
        match sel {
            Some(i) => if i == 0 {
                Some(0)
            } else if i - 1 < len {
                Some(i - 1)
            } else {
                Some(len - 1)
            },
            None => Some(len - 1),
        }
    }
}

pub fn first_selection(sel: Option<usize>, len: usize) -> (r: Option<usize>)
    ensures
        r == first_if_none(sel, len as nat),
        valid_selection(sel, len as nat) ==> valid_selection(r, len as nat),
{
    match sel {
        Some(i) => Some(i),
        None => if len > 0 {
            Some(0)
        } else {
            None
        },
    }
}

/// Reloading a collection whose size did not change (after a rename) keeps a valid selection.
pub proof fn lemma_reload_same_size_keeps_selection(sel: Option<usize>, len: nat)
    requires
        valid_selection(sel, len),
    ensures
        reloaded(sel, len) == sel,
{
}

/// Deleting the last of `n > 1` entities selects the new last one, at `n - 2`; deleting
/// the only entity leaves nothing selected.
pub proof fn lemma_delete_last(n: nat)
    requires
        1 <= n <= usize::MAX,
    ensures
        n > 1 ==> after_deletion((n - 1) as usize, (n - 1) as nat) == Some((n - 2) as usize),
        n == 1 ==> after_deletion(0, 0) == None::<usize>,
{
}

/// Moving up the entity at `i > 0` selects `i - 1`, so the selection follows it.
pub proof fn lemma_move_up_follows(i: usize, len: nat)
    requires
        0 < i < len,
    ensures
        after_move_up(i, len) == Some((i - 1) as usize),
{
}

} // verus!
