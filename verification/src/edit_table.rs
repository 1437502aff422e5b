use crate::data::TableData;
use crate::data::TableDataIter;
use crate::event::EditOutcome;
use crate::event::InputEvent;
use crate::event::Key;
use crate::layout::Region;
use crate::selection::RowSelection;
use crate::selection::TableSelection;
use crate::table::Table;
use crate::table_state::TableState;
use vstd::prelude::*;

verus! {

/// The widget side of a caller's row editor, handed the areas of all
/// the cells in the edited row.
pub trait EditorWidget {
    /// State of the stateful widget.
    type State;

    /// Paint the editor over the row area.
    fn render(
        &self,
        area: Region,
        cell_areas: &Vec<Region>,
        buf: &mut ratatui::buffer::Buffer,
        state: &mut Self::State,
    );
}

/// An editor state that consumes input events of its own.
pub trait EditorEvents {
    /// Let the editor consume one input event.
    fn handle(&mut self, event: &InputEvent) -> EditOutcome;
}

/// A table with a row editor layered over the selected row.
pub struct FEditTable<D, I, E> {
    pub table: Table<D, I>,
    pub edit: E,
}

/// State for `FEditTable`: the running edit's state, if one runs.
pub struct FEditTableState<EState> {
    /// The table under the overlay.
    pub table: TableState<RowSelection>,
    /// The running edit, if any.
    pub edit: Option<EState>,
}

impl<D, I, E> FEditTable<D, I, E> {
    pub fn new(table: Table<D, I>, edit: E) -> (r: Self)
        ensures
            r.table == table,
            r.edit == edit,
    {
        FEditTable { table, edit }
    }
}

impl<D: TableData, I: TableDataIter, E: EditorWidget> FEditTable<D, I, E> {
    /// Render the table, and the editor over the selected row while
    /// an edit runs.
    pub fn render(
        self,
        area: Region,
        buf: &mut ratatui::buffer::Buffer,
        state: &mut FEditTableState<E::State>,
    )
        requires
            self.table.data.spec_pos() == -1,
            0 <= self.table.data.spec_len() <= usize::MAX - 2,
            (self.table.data.spec_claim() matches Some(c) ==> c <= usize::MAX - 2),
            old(state).table.vscroll.offset <= usize::MAX - 2,
            self.table.layout_width is Some || !self.table.auto_layout_width,
        ensures
            final(state).table.columns == self.table.widths@.len(),
            final(state).table.area == area,
            final(state).table.selection == old(state).table.selection,
            (final(state).edit is Some) == (old(state).edit is Some),
            crate::render::spec_vertical_outcome(
                self.table.data.spec_len(),
                self.table.data.spec_claim(),
                Seq::new(
                    self.table.data.spec_len() as nat,
                    |i: int| self.table.data.spec_height(i),
                ),
                self.table.no_row_count,
                old(state).table,
                final(state).table,
            ),
    {
        let FEditTable { table, edit } = self;
        table.render(area, buf, &mut state.table);

        if let Some(edit_state) = &mut state.edit {
            if let Some(row) = state.table.selected() {
                if state.table.vscroll.page_len <= usize::MAX - state.table.vscroll.offset {
                    if let Some(cells) = state.table.row_cells(row) {
                        edit.render(cells.0, &cells.1, buf, edit_state);
                    }
                }
            }
        }
    }
}

/// Decide what an event does to a table with a row editor: a double
/// click asks to edit; while an edit runs, its own keys win, then Esc
/// cancels, Enter and Up commit, and Down commits unless the last row
/// is selected; while viewing, the editing keys ask to insert, remove
/// or edit, and Down on the last row asks to append.
pub fn handle_edit_events<EState: EditorEvents>(
    state: &mut FEditTableState<EState>,
    focus: bool,
    event: &InputEvent,
) -> (r: EditOutcome)
    requires
        old(state).table.vscroll.offset + old(state).table.row_areas@.len() <= usize::MAX,
    ensures
        !focus ==> r == EditOutcome::Continue && *final(state) == *old(state),
        (focus && (match *event {
            InputEvent::DoubleClick(x, y) => crate::table_state::spec_region_at_x(
                old(state).table.column_areas@,
                x as int,
            ) is Some && crate::table_state::spec_region_at_y(
                old(state).table.row_areas@,
                y as int,
            ) is Some,
            _ => false,
        })) ==> r == EditOutcome::Edit,
        (focus && old(state).edit is None && !(*event matches InputEvent::DoubleClick(_, _)))
            ==> r == (match *event {
            InputEvent::KeyPress(Key::Insert) => EditOutcome::Insert,
            InputEvent::KeyPress(Key::Delete) => EditOutcome::Remove,
            InputEvent::KeyPress(Key::Enter) => EditOutcome::Edit,
            InputEvent::KeyPress(Key::F2) => EditOutcome::Edit,
            InputEvent::KeyPress(Key::Down) => (match old(
                state,
            ).table.selection.spec_lead_selection() {
                Some(c) => if c.1 == (if old(state).table.rows >= 1 {
                    old(state).table.rows - 1
                } else {
                    0
                }) {
                    EditOutcome::Append
                } else {
                    EditOutcome::Continue
                },
                None => EditOutcome::Continue,
            }),
            _ => EditOutcome::Continue,
        }),
{
    if !focus {
        return EditOutcome::Continue;
    }

    if let InputEvent::DoubleClick(x, y) = *event {
        if state.table.cell_at_clicked((x, y)).is_some() {
            return EditOutcome::Edit;
        }
    }

    match &mut state.edit {
        Some(edit_state) => {
            let handled = edit_state.handle(event);
            match handled {
                EditOutcome::Continue => {},
                other => {
                    return other;
                },
            }
            let selected = state.table.selected();
            let rows = state.table.rows();
            edit_mode_keymap(event, selected, rows)
        },
        None => {
            match *event {
                InputEvent::KeyPress(Key::Insert) => EditOutcome::Insert,
                InputEvent::KeyPress(Key::Delete) => EditOutcome::Remove,
                InputEvent::KeyPress(Key::Enter) => EditOutcome::Edit,
                InputEvent::KeyPress(Key::F2) => EditOutcome::Edit,
                InputEvent::KeyPress(Key::Down) => {
                    match state.table.selection.lead_selection() {
                        Some(c) => {
                            let last = state.table.rows().saturating_sub(1);
                            if c.1 == last {
                                EditOutcome::Append
                            } else {
                                EditOutcome::Continue
                            }
                        },
                        None => EditOutcome::Continue,
                    }
                },
                _ => EditOutcome::Continue,
            }
        },
    }
}

/// The editing-mode key map of a running row edit, applied after the
/// editor itself has declined the event: Esc asks to cancel, Enter
/// and Up to commit, Down to commit unless the last row is selected,
/// and anything else is left for other handlers.
pub fn edit_mode_keymap(event: &InputEvent, selected: Option<usize>, rows: usize) -> (r:
    EditOutcome)
    ensures
        r == (match *event {
            InputEvent::KeyPress(Key::Esc) => EditOutcome::Cancel,
            InputEvent::KeyPress(Key::Enter) => EditOutcome::Commit,
            InputEvent::KeyPress(Key::Up) => EditOutcome::Commit,
            InputEvent::KeyPress(Key::Down) => (match selected {
                Some(row) => if row as int != (if rows >= 1 {
                    rows - 1
                } else {
                    0
                }) {
                    EditOutcome::Commit
                } else {
                    EditOutcome::Continue
                },
                None => EditOutcome::Commit,
            }),
            _ => EditOutcome::Continue,
        }),
{
    match *event {
        InputEvent::KeyPress(Key::Esc) => EditOutcome::Cancel,
        InputEvent::KeyPress(Key::Enter) => EditOutcome::Commit,
        InputEvent::KeyPress(Key::Up) => EditOutcome::Commit,
        InputEvent::KeyPress(Key::Down) => {
            let last = rows.saturating_sub(1);
            match selected {
                Some(row) => {
                    if row != last {
                        EditOutcome::Commit
                    } else {
                        EditOutcome::Continue
                    }
                },
                None => EditOutcome::Commit,
            }
        },
        _ => EditOutcome::Continue,
    }
}

} // verus!
