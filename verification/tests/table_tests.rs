use rat_ftable::data::CountedRows;
use rat_ftable::layout::LayoutConstraint;
use rat_ftable::layout::Region;
use rat_ftable::selection::NoSelection;
use rat_ftable::selection::RowSelection;
use rat_ftable::table::calc_last_page;
use rat_ftable::table::Table;
use rat_ftable::table_state::TableState;
use rat_ftable::textdata::Row;
use rat_ftable::textdata::TextCell;

type TextTable = Table<rat_ftable::textdata::TextTableData, CountedRows>;

fn buffer(width: u16, height: u16) -> ratatui::buffer::Buffer {
    ratatui::buffer::Buffer::empty(ratatui::layout::Rect::new(0, 0, width, height))
}

fn plain_rows(n: usize) -> Vec<Row> {
    let mut rows = Vec::new();
    let mut i = 0;
    while i < n {
        rows.push(Row::new(vec![TextCell::new(format!("{}", i))]));
        i += 1;
    }
    rows
}

#[test]
fn regime_a_exact_count_sets_max_offset() {
    // 100,010 materialized rows in a 20-row viewport:
    // max_offset = 100010 - 20 = 99990
    let mut state: TableState<NoSelection> = TableState::new();
    let mut buf = buffer(40, 20);
    let t: TextTable = Table::new().rows(plain_rows(100_010)).widths(vec![
        LayoutConstraint::Fill(1),
    ]);
    t.render(Region::new(0, 0, 40, 20), &mut buf, &mut state);
    assert_eq!(state.rows(), 100_010);
    assert_eq!(state.row_max_offset(), 99_990);
    assert_eq!(state.row_offset(), 0);
    assert_eq!(state.page_len(), 20);
    assert!(!state.count_mismatch);
}

#[test]
fn regime_a_insane_offset_clamps_and_reports() {
    // an offset far past the data is clamped on render, and the
    // mismatch between reported and iterated rows is flagged
    let mut state: TableState<NoSelection> = TableState::new();
    let mut buf = buffer(40, 20);
    let t: TextTable = Table::new().rows(plain_rows(100_010)).widths(vec![
        LayoutConstraint::Fill(1),
    ]).debug(true);
    state.set_row_offset(1_000_000);
    t.render(Region::new(0, 0, 40, 20), &mut buf, &mut state);
    assert_eq!(state.rows(), 100_010);
    assert_eq!(state.row_max_offset(), 99_990);
    assert_eq!(state.row_offset(), 99_990);
    assert!(state.count_mismatch);
}

#[test]
fn regime_a_small_data_fits_one_page() {
    let mut state: TableState<NoSelection> = TableState::new();
    let mut buf = buffer(40, 20);
    let t: TextTable = Table::new().rows(plain_rows(5)).widths(vec![LayoutConstraint::Fill(1)]);
    t.render(Region::new(0, 0, 40, 20), &mut buf, &mut state);
    assert_eq!(state.rows(), 5);
    assert_eq!(state.row_max_offset(), 0);
    assert_eq!(state.page_len(), 5);
}

#[test]
fn regime_a_tall_rows_shorten_the_last_page() {
    // rows of height 3 in a 10-line viewport: the last page holds
    // ceil(10 / 3) = 4 rows, so max_offset = 30 - 4
    let mut rows = plain_rows(30);
    let mut tall = Vec::new();
    while let Some(r) = rows.pop() {
        tall.push(r.with_height(3));
    }
    let mut state: TableState<NoSelection> = TableState::new();
    let mut buf = buffer(40, 10);
    let t: TextTable = Table::new().rows(tall).widths(vec![LayoutConstraint::Fill(1)]);
    t.render(Region::new(0, 0, 40, 10), &mut buf, &mut state);
    assert_eq!(state.rows(), 30);
    assert_eq!(state.row_max_offset(), 26);
}

#[test]
fn regime_b_probes_one_row_past_the_page() {
    // uncounted forward source, viewport of 10: after the first
    // render the reported count is the rendered page plus one
    let mut state: TableState<NoSelection> = TableState::new();
    let mut buf = buffer(40, 10);
    let t: TextTable = Table::new().iter(CountedRows::new(1000, 1, None))
        .no_row_count(true);
    t.render(Region::new(0, 0, 40, 10), &mut buf, &mut state);
    assert_eq!(state.rows(), 11);
    assert_eq!(state.row_max_offset(), usize::MAX - 1);
}

#[test]
fn regime_b_exhausted_source_becomes_exact() {
    // fewer rows than the viewport: the probe fails and the count
    // becomes exact
    let mut state: TableState<NoSelection> = TableState::new();
    let mut buf = buffer(40, 10);
    let t: TextTable = Table::new().iter(CountedRows::new(7, 1, None))
        .no_row_count(true);
    t.render(Region::new(0, 0, 40, 10), &mut buf, &mut state);
    assert_eq!(state.rows(), 7);
    assert_eq!(state.row_max_offset(), 0);
}

#[test]
fn regime_c_scans_to_an_exact_count() {
    // uncounted forward source without the probe shortcut: the render
    // scans to the end and establishes the exact maximum offset
    let mut state: TableState<NoSelection> = TableState::new();
    let mut buf = buffer(40, 10);
    let t: TextTable = Table::new().iter(CountedRows::new(30, 1, None));
    t.render(Region::new(0, 0, 40, 10), &mut buf, &mut state);
    assert_eq!(state.rows(), 30);
    assert_eq!(state.counted_rows, 30);
    assert_eq!(state.row_max_offset(), 20);
    assert!(!state.count_mismatch);
}

#[test]
fn misreported_count_falls_back_and_flags() {
    // the source claims 50 rows but yields 30: reported count wins
    // for the API, the mismatch is flagged, and max_offset falls back
    // to count minus viewport
    let mut state: TableState<NoSelection> = TableState::new();
    let mut buf = buffer(40, 10);
    let t: TextTable = Table::new().iter(CountedRows::new(30, 1, Some(50)));
    t.render(Region::new(0, 0, 40, 10), &mut buf, &mut state);
    assert_eq!(state.rows(), 50);
    // the skip toward the claimed last page overshoots the real data,
    // so only the rendered page was seen
    assert_eq!(state.counted_rows, 10);
    assert!(state.count_mismatch);
    assert_eq!(state.row_max_offset(), 40);
}

#[test]
fn items_added_then_removed_restores_the_state() {
    // items_added(pos, n) then items_removed(pos, n) restores row
    // count, offset, max offset and the selected row
    let mut state: TableState<RowSelection> = TableState::new();
    state.rows = 10;
    state.vscroll.set_max_offset(6);
    state.set_row_offset(5);
    state.select(Some(7));

    state.items_added(3, 2);
    assert_eq!(state.rows(), 12);
    assert_eq!(state.row_offset(), 7);
    assert_eq!(state.selected(), Some(9));

    state.items_removed(3, 2);
    assert_eq!(state.rows(), 10);
    assert_eq!(state.row_offset(), 5);
    assert_eq!(state.row_max_offset(), 6);
    assert_eq!(state.selected(), Some(7));
}

#[test]
fn items_roundtrip_with_selection_before_the_insert() {
    let mut state: TableState<RowSelection> = TableState::new();
    state.rows = 10;
    state.select(Some(1));
    state.items_added(3, 4);
    assert_eq!(state.selected(), Some(1));
    state.items_removed(3, 4);
    assert_eq!(state.selected(), Some(1));
    assert_eq!(state.rows(), 10);
}

#[test]
fn scroll_to_row_is_idempotent_on_state() {
    let mut state: TableState<NoSelection> = TableState::new();
    state.vscroll.set_page_len(10);
    state.rows = 100;
    state.scroll_to_row(42);
    let once = state.row_offset();
    assert!(!state.scroll_to_row(42));
    assert_eq!(state.row_offset(), once);
}

#[test]
fn calc_last_page_counts_trailing_heights() {
    assert_eq!(calc_last_page(&vec![1, 1, 1, 1], 3), Some(3));
    assert_eq!(calc_last_page(&vec![3, 3], 4), Some(2));
    assert_eq!(calc_last_page(&vec![1, 1], 5), None);
    assert_eq!(calc_last_page(&vec![], 0), Some(0));
    assert_eq!(calc_last_page(&vec![2], 0), Some(1));
}

#[test]
fn row_cells_only_for_visible_rows() {
    let mut state: TableState<NoSelection> = TableState::new();
    let mut buf = buffer(40, 10);
    let t: TextTable = Table::new().rows(plain_rows(30)).widths(vec![
        LayoutConstraint::Length(5),
        LayoutConstraint::Length(7),
    ]);
    state.set_row_offset(4);
    t.render(Region::new(0, 0, 40, 10), &mut buf, &mut state);
    assert!(state.row_cells(3).is_none());
    let (row_area, cells) = state.row_cells(4).expect("visible");
    assert_eq!(row_area.y, 0);
    assert_eq!(cells.len(), 2);
    assert!(state.row_cells(4 + state.page_len()).is_none());
}

#[test]
fn total_width_prefers_fixed_then_auto() {
    let t: TextTable = Table::new().widths(vec![
        LayoutConstraint::Length(5),
        LayoutConstraint::Min(3),
    ]).column_spacing(1).auto_layout_width(true);
    assert_eq!(t.total_width(80), 10);
    let t: TextTable = t.layout_width(33);
    assert_eq!(t.total_width(80), 33);
}
