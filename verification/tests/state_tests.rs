use rat_ftable::data::CountedRows;
use rat_ftable::layout::LayoutConstraint;
use rat_ftable::layout::Region;
use rat_ftable::selection::CellSelection;
use rat_ftable::selection::RowSelection;
use rat_ftable::selection::RowSetSelection;
use rat_ftable::table::Table;
use rat_ftable::table_state::TableState;

type SynthTable = Table<rat_ftable::textdata::TextTableData, CountedRows>;

fn buffer(width: u16, height: u16) -> ratatui::buffer::Buffer {
    ratatui::buffer::Buffer::empty(ratatui::layout::Rect::new(0, 0, width, height))
}

#[test]
fn state_move_selection_scrolls_it_into_view() {
    let mut state: TableState<RowSelection> = TableState::new();
    state.rows = 100;
    state.vscroll.set_page_len(10);
    assert!(state.move_to(55));
    assert_eq!(state.selected(), Some(55));
    // the target became the last visible row
    assert_eq!(state.row_offset(), 46);
    assert!(state.move_up(50));
    assert_eq!(state.selected(), Some(5));
    assert_eq!(state.row_offset(), 5);
    assert!(state.move_down(200));
    assert_eq!(state.selected(), Some(99));
}

#[test]
fn state_move_clamps_to_the_rows() {
    let mut state: TableState<RowSelection> = TableState::new();
    state.rows = 10;
    state.vscroll.set_page_len(5);
    state.move_to(500);
    assert_eq!(state.selected(), Some(9));
}

#[test]
fn row_set_state_moves_extend_the_range() {
    let mut state: TableState<RowSetSelection> = TableState::new();
    state.rows = 50;
    state.vscroll.set_page_len(10);
    state.move_to(5, false);
    state.move_down(3, true);
    assert_eq!(state.anchor(), Some(5));
    assert_eq!(state.lead(), Some(8));
    state.retire_selection();
    let mut got = state.selected();
    got.sort();
    assert_eq!(got, vec![5, 6, 7, 8]);
}

#[test]
fn cell_state_moves_on_both_axes() {
    let mut state: TableState<CellSelection> = TableState::new();
    state.rows = 20;
    state.columns = 5;
    state.vscroll.set_page_len(10);
    state.hscroll.set_page_len(10);
    state.move_to((2, 7));
    assert_eq!(state.selected(), Some((2, 7)));
    state.move_right(10);
    assert_eq!(state.selected(), Some((4, 7)));
    state.move_down(5);
    assert_eq!(state.selected(), Some((4, 12)));
    state.move_left(1);
    state.move_up(20);
    assert_eq!(state.selected(), Some((3, 0)));
    state.select_row(Some(100));
    assert_eq!(state.selected(), Some((3, 19)));
}

#[test]
fn drag_positions_map_outside_the_body() {
    let mut state: TableState<RowSelection> = TableState::new();
    let mut buf = buffer(20, 10);
    let t: SynthTable = Table::new().rows(
        (0..50).map(|_| rat_ftable::textdata::Row::new(vec![])).collect(),
    ).widths(vec![LayoutConstraint::Length(10)]);
    state.set_row_offset(20);
    t.render(Region::new(0, 5, 20, 10), &mut buf, &mut state);
    // inside the body: the row under the pointer
    assert_eq!(state.row_at_drag((1, 7)), 22);
    // above the body: one row per line above
    assert_eq!(state.row_at_drag((1, 2)), 17);
    // below the body: rows past the page
    assert!(state.row_at_drag((1, 30)) > 20 + state.page_len());
}

#[test]
fn remap_offset_scales_to_the_rows() {
    let mut state: TableState<RowSelection> = TableState::new();
    state.rows = 100;
    state.vscroll.set_max_offset(50);
    assert_eq!(state.remap_offset_selection(25), 50);
    state.vscroll.set_max_offset(0);
    assert_eq!(state.remap_offset_selection(25), 0);
}

#[test]
fn regime_b_keeps_paging_forward() {
    // paging into the middle of an uncounted source keeps the "more
    // data" sentinel alive
    let mut state: TableState<RowSelection> = TableState::new();
    let mut buf = buffer(20, 10);
    let t: SynthTable = Table::new().iter(CountedRows::new(25, 1, None)).no_row_count(true);
    state.set_row_offset(10);
    t.render(Region::new(0, 0, 20, 10), &mut buf, &mut state);
    assert_eq!(state.rows(), 21);
    assert_eq!(state.row_max_offset(), usize::MAX - 1);
    assert_eq!(state.row_offset(), 10);

    // the page that reaches the end makes the count exact
    let mut state: TableState<RowSelection> = TableState::new();
    let t: SynthTable = Table::new().iter(CountedRows::new(25, 1, None)).no_row_count(true);
    state.set_row_offset(20);
    t.render(Region::new(0, 0, 20, 10), &mut buf, &mut state);
    assert_eq!(state.rows(), 25);
    assert_eq!(state.row_max_offset(), 20);
}

#[test]
fn clear_offset_resets_both_axes() {
    let mut state: TableState<RowSelection> = TableState::new();
    state.set_row_offset(5);
    state.set_x_offset(9);
    state.clear_offset();
    assert_eq!(state.row_offset(), 0);
    assert_eq!(state.x_offset(), 0);
}

#[test]
fn scroll_steps_respect_the_maximum() {
    let mut state: TableState<RowSelection> = TableState::new();
    state.vscroll.set_max_offset(30);
    state.hscroll.set_max_offset(8);
    assert!(state.scroll_down(100));
    assert_eq!(state.row_offset(), 30);
    assert!(state.scroll_up(7));
    assert_eq!(state.row_offset(), 23);
    assert!(state.scroll_right(100));
    assert_eq!(state.x_offset(), 8);
    assert!(state.scroll_left(100));
    assert_eq!(state.x_offset(), 0);
}
