use rat_ftable::selection::CellSelection;
use rat_ftable::selection::RowSelection;
use rat_ftable::selection::RowSetSelection;

#[test]
fn row_selection_move_clamps() {
    let mut s = RowSelection::new();
    s.move_to(100, 9);
    assert_eq!(s.selected(), Some(9));
    s.move_up(3, 9);
    assert_eq!(s.selected(), Some(6));
    s.move_down(30, 9);
    assert_eq!(s.selected(), Some(9));
    s.move_up(30, 9);
    assert_eq!(s.selected(), Some(0));
}

#[test]
fn row_selection_items_shift() {
    let mut s = RowSelection::new();
    s.select(Some(7));
    s.items_added(3, 2);
    assert_eq!(s.selected(), Some(9));
    s.items_removed(3, 2);
    assert_eq!(s.selected(), Some(7));
    // a selection inside the removed range collapses onto its start
    s.items_removed(6, 4);
    assert_eq!(s.selected(), Some(6));
}

#[test]
fn row_set_fresh_range_retires_exactly() {
    // set_lead(p, false), set_lead(q, true), retire_selection:
    // the retired set is exactly the inclusive range between p and q
    let mut s = RowSetSelection::new();
    s.set_lead(Some(5), false);
    s.set_lead(Some(2), true);
    s.retire_selection();
    let mut got = s.selected();
    got.sort();
    assert_eq!(got, vec![2, 3, 4, 5]);
    assert_eq!(s.lead(), None);
    assert_eq!(s.anchor(), None);
}

#[test]
fn row_set_fresh_range_retires_exactly_forward() {
    let mut s = RowSetSelection::new();
    s.set_lead(Some(3), false);
    s.set_lead(Some(6), true);
    s.retire_selection();
    let mut got = s.selected();
    got.sort();
    assert_eq!(got, vec![3, 4, 5, 6]);
}

#[test]
fn row_set_accumulates_ranges() {
    let mut s = RowSetSelection::new();
    s.set_lead(Some(1), false);
    s.retire_selection();
    s.set_lead(Some(8), false);
    s.set_lead(Some(9), true);
    s.retire_selection();
    let mut got = s.selected();
    got.sort();
    assert_eq!(got, vec![1, 8, 9]);
}

#[test]
fn row_set_add_and_remove_touch_only_retired() {
    let mut s = RowSetSelection::new();
    s.add(4);
    s.add(4);
    s.add(6);
    s.remove(6);
    s.set_lead(Some(2), false);
    let mut got = s.selected();
    got.sort();
    assert_eq!(got, vec![2, 4]);
    s.remove(2);
    let mut got = s.selected();
    got.sort();
    // the active range is not in the retired set, so 2 stays selected
    assert_eq!(got, vec![2, 4]);
}

#[test]
fn cell_selection_moves_and_clamps() {
    let mut s = CellSelection::new();
    s.move_to((100, 100), (4, 9));
    assert_eq!(s.selected(), Some((4, 9)));
    s.move_left(2, 4);
    assert_eq!(s.selected(), Some((2, 9)));
    s.move_up(3, 9);
    assert_eq!(s.selected(), Some((2, 6)));
    s.move_right(99, 4);
    assert_eq!(s.selected(), Some((4, 6)));
    s.move_down(99, 9);
    assert_eq!(s.selected(), Some((4, 9)));
}

#[test]
fn cell_selection_keeps_other_axis() {
    let mut s = CellSelection::new();
    s.select_cell(Some((3, 7)));
    s.select_row(Some(2));
    assert_eq!(s.selected(), Some((3, 2)));
    s.select_column(Some(1));
    assert_eq!(s.selected(), Some((1, 2)));
    s.select_row(None);
    assert_eq!(s.selected(), None);
}

#[test]
fn cell_selection_items_shift_rows() {
    let mut s = CellSelection::new();
    s.select_cell(Some((1, 7)));
    s.items_added(3, 2);
    assert_eq!(s.selected(), Some((1, 9)));
    s.items_removed(3, 2);
    assert_eq!(s.selected(), Some((1, 7)));
}

#[test]
fn row_set_items_shift_the_whole_selection() {
    let mut s = RowSetSelection::new();
    s.add(2);
    s.add(9);
    s.set_lead(Some(6), false);
    s.set_lead(Some(7), true);
    s.items_added(5, 3);
    assert_eq!(s.anchor(), Some(9));
    assert_eq!(s.lead(), Some(10));
    let mut got = s.selected();
    got.sort();
    assert_eq!(got, vec![2, 9, 10, 12]);
    s.items_removed(5, 3);
    assert_eq!(s.anchor(), Some(6));
    assert_eq!(s.lead(), Some(7));
    let mut got = s.selected();
    got.sort();
    assert_eq!(got, vec![2, 6, 7, 9]);
}

#[test]
fn row_set_items_removed_drops_the_removed_range() {
    let mut s = RowSetSelection::new();
    s.add(1);
    s.add(4);
    s.add(5);
    s.add(8);
    s.items_removed(3, 3);
    let mut got = s.selected();
    got.sort();
    // 4 and 5 lay inside the removed range; 8 moved down by 3
    assert_eq!(got, vec![1, 5]);
}
