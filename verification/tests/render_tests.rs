use rat_ftable::data::CountedRows;
use rat_ftable::event::handle_doubleclick_events;
use rat_ftable::event::DoubleClickOutcome;
use rat_ftable::event::InputEvent;
use rat_ftable::layout::LayoutConstraint;
use rat_ftable::layout::PackPolicy;
use rat_ftable::layout::Region;
use rat_ftable::selection::CellSelection;
use rat_ftable::selection::NoSelection;
use rat_ftable::table::Table;
use rat_ftable::table_state::TableState;
use rat_ftable::textdata::Row;
use rat_ftable::textdata::TextCell;

type TextTable = Table<rat_ftable::textdata::TextTableData, CountedRows>;

fn buffer(width: u16, height: u16) -> ratatui::buffer::Buffer {
    ratatui::buffer::Buffer::empty(ratatui::layout::Rect::new(0, 0, width, height))
}

fn lettered_rows(n: usize) -> Vec<Row> {
    (0..n)
        .map(|i| Row::new(vec![TextCell::new(format!("r{i}")), TextCell::new(format!("x{i}"))]))
        .collect()
}

fn cell_text(buf: &ratatui::buffer::Buffer, x: u16, y: u16) -> String {
    buf.cell((x, y)).map(|c| c.symbol().to_string()).unwrap_or_default()
}

#[test]
fn render_writes_visible_rows_into_the_buffer() {
    let mut state: TableState<NoSelection> = TableState::new();
    let mut buf = buffer(20, 5);
    let t: TextTable = Table::new().rows(lettered_rows(50)).widths(vec![
        LayoutConstraint::Length(5),
        LayoutConstraint::Length(5),
    ]);
    state.set_row_offset(7);
    t.render(Region::new(0, 0, 20, 5), &mut buf, &mut state);
    // the page starts at the offset: first visible row is row 7
    assert_eq!(cell_text(&buf, 0, 0), "r");
    assert_eq!(cell_text(&buf, 1, 0), "7");
    assert_eq!(cell_text(&buf, 5, 0), "x");
    assert_eq!(cell_text(&buf, 1, 4), "1");
    assert_eq!(cell_text(&buf, 2, 4), "1");
}

#[test]
fn horizontal_scroll_shifts_the_row_slice() {
    let mut state: TableState<NoSelection> = TableState::new();
    let mut buf = buffer(4, 3);
    let t: TextTable = Table::new().rows(lettered_rows(3)).widths(vec![
        LayoutConstraint::Length(5),
        LayoutConstraint::Length(5),
    ]).layout_width(10);
    state.set_x_offset(5);
    t.render(Region::new(0, 0, 4, 3), &mut buf, &mut state);
    // the second column starts at layout x 5, which lands on screen
    // x 0 after the shift
    assert_eq!(cell_text(&buf, 0, 0), "x");
    assert_eq!(cell_text(&buf, 1, 0), "0");
    assert_eq!(state.x_max_offset(), 6);
}

#[test]
fn column_areas_follow_the_layout() {
    let mut state: TableState<NoSelection> = TableState::new();
    let mut buf = buffer(20, 5);
    let t: TextTable = Table::new().rows(lettered_rows(5)).widths(vec![
        LayoutConstraint::Length(4),
        LayoutConstraint::Length(6),
    ]).column_spacing(1).flex(PackPolicy::Start);
    t.render(Region::new(0, 0, 20, 5), &mut buf, &mut state);
    assert_eq!(state.columns(), 2);
    assert_eq!(state.column_layout.len(), 2);
    assert_eq!(state.column_areas.len(), 2);
    assert_eq!(state.column_layout[0].x, 0);
    assert_eq!(state.column_layout[0].width, 5);
}

#[test]
fn solver_returns_one_region_per_constraint() {
    let t: TextTable = Table::new().widths(vec![
        LayoutConstraint::Length(4),
        LayoutConstraint::Min(2),
        LayoutConstraint::Fill(1),
    ]).column_spacing(1);
    let (width, columns, spacers) = t.layout_columns(40);
    assert_eq!(width, 40);
    assert_eq!(columns.len(), 3);
    assert_eq!(spacers.len(), 4);
    // the solver fills the full width with a fixed, a minimum and a
    // fill constraint
    assert_eq!(columns[0].width, 4);
    assert!(columns[2].right() <= 40);
}

#[test]
fn double_click_names_the_cell_under_it() {
    let mut state: TableState<CellSelection> = TableState::new();
    let mut buf = buffer(20, 5);
    let t: TextTable = Table::new().rows(lettered_rows(50)).widths(vec![
        LayoutConstraint::Length(5),
        LayoutConstraint::Length(5),
    ]);
    state.set_row_offset(10);
    t.render(Region::new(0, 0, 20, 5), &mut buf, &mut state);
    let r = handle_doubleclick_events(&mut state, &InputEvent::DoubleClick(6, 2));
    assert_eq!(r, DoubleClickOutcome::ClickClick(1, 12));
    let r = handle_doubleclick_events(&mut state, &InputEvent::DoubleClick(25, 2));
    assert_eq!(r, DoubleClickOutcome::Continue);
}

#[test]
fn region_intersection_clips() {
    let a = Region::new(2, 2, 10, 5);
    let b = Region::new(5, 0, 4, 4);
    let c = a.intersection(b);
    assert_eq!((c.x, c.y, c.width, c.height), (5, 2, 4, 2));
    let d = a.intersection(Region::new(50, 50, 3, 3));
    assert_eq!(d.width, 0);
    assert_eq!(d.height, 0);
}

#[test]
fn scroll_to_col_uses_the_unscrolled_layout() {
    let mut state: TableState<NoSelection> = TableState::new();
    let mut buf = buffer(10, 5);
    let t: TextTable = Table::new().rows(lettered_rows(5)).widths(vec![
        LayoutConstraint::Length(8),
        LayoutConstraint::Length(8),
        LayoutConstraint::Length(8),
    ]).layout_width(24);
    t.render(Region::new(0, 0, 10, 5), &mut buf, &mut state);
    assert!(state.scroll_to_col(2));
    // the third column ends at layout x 24; a 10-wide page shows it
    // from offset 14
    assert_eq!(state.x_offset(), 14);
    assert!(!state.scroll_to_col(2));
}
