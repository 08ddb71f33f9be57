use judo::selection::{
    deletion_selection, first_selection, move_down_selection, move_up_selection,
    next_selection, previous_selection, reload_selection,
};

#[test]
fn reload_keeps_clamps_or_clears() {
    assert_eq!(reload_selection(Some(1), 3), Some(1));
    assert_eq!(reload_selection(Some(5), 3), Some(2));
    assert_eq!(reload_selection(Some(0), 0), None);
    assert_eq!(reload_selection(None, 3), None);
}

#[test]
fn rename_keeps_selection() {
    for i in 0..4 {
        assert_eq!(reload_selection(Some(i), 4), Some(i));
    }
}

#[test]
fn delete_last_of_many_selects_new_last() {
    assert_eq!(deletion_selection(4, 4), Some(3));
    assert_eq!(deletion_selection(1, 1), Some(0));
}

#[test]
fn delete_sole_entity_clears() {
    assert_eq!(deletion_selection(0, 0), None);
}

#[test]
fn delete_in_middle_keeps_index() {
    assert_eq!(deletion_selection(1, 2), Some(1));
}

#[test]
fn move_up_follows_entity() {
    assert_eq!(move_up_selection(3, 5), Some(2));
    assert_eq!(move_up_selection(0, 5), Some(0));
}

#[test]
fn move_down_follows_entity() {
    assert_eq!(move_down_selection(1, 5), Some(2));
    assert_eq!(move_down_selection(4, 5), Some(4));
}

#[test]
fn next_and_previous_clamp() {
    assert_eq!(next_selection(None, 3), Some(0));
    assert_eq!(next_selection(Some(2), 3), Some(2));
    assert_eq!(next_selection(Some(0), 0), None);
    assert_eq!(previous_selection(None, 3), Some(2));
    assert_eq!(previous_selection(Some(0), 3), Some(0));
    assert_eq!(previous_selection(Some(2), 3), Some(1));
    assert_eq!(previous_selection(Some(9), 3), Some(2));
}

#[test]
fn first_does_not_override() {
    assert_eq!(first_selection(None, 3), Some(0));
    assert_eq!(first_selection(Some(2), 3), Some(2));
    assert_eq!(first_selection(None, 0), None);
}
