use crate::selection::TableSelection;
use crate::table_state::TableState;
use vstd::prelude::*;

verus! {

/// The keys the table and the editor overlay react to. Anything else
/// is `Other`.
#[derive(Clone, Copy, Debug, PartialEq, Eq, Structural)]
pub enum Key {
    Insert,
    Delete,
    Enter,
    Esc,
    Up,
    Down,
    F2,
    Other,
}

/// One abstract input event. Decoding raw terminal input, and pairing
/// two clicks into a double click, happen outside; the table only
/// consumes the result.
#[derive(Clone, Copy, Debug, PartialEq, Eq, Structural)]
pub enum InputEvent {
    /// A key went down.
    KeyPress(Key),
    /// A key came up.
    KeyRelease(Key),
    /// Two clicks paired on the same spot, at this screen position.
    DoubleClick(u16, u16),
    /// Anything else.
    Other,
}

/// What an event handler did with an event.
#[derive(Clone, Copy, Debug, PartialEq, Eq, Structural)]
pub enum Outcome {
    /// Not consumed; the caller may offer it elsewhere.
    Continue,
    /// Consumed, nothing changed.
    Unchanged,
    /// Consumed and something changed.
    Changed,
}

/// What a double-click handler found.
#[derive(Clone, Copy, Debug, PartialEq, Eq, Structural)]
pub enum DoubleClickOutcome {
    /// A double click landed on this (column, row) cell.
    ClickClick(usize, usize),
    /// Not consumed.
    Continue,
}

/// What the editing key map asks the caller to do.
#[derive(Clone, Copy, Debug, PartialEq, Eq, Structural)]
pub enum EditOutcome {
    /// Not consumed.
    Continue,
    /// Consumed, nothing changed.
    Unchanged,
    /// Consumed and something changed.
    Changed,
    /// Insert a row at the selection.
    Insert,
    /// Remove the selected row.
    Remove,
    /// Edit the selected row.
    Edit,
    /// Append a row after the last one.
    Append,
    /// Commit the running edit.
    Commit,
    /// Cancel the running edit.
    Cancel,
}

/// Decide what a double click does: a double click inside the body
/// area that lands on a cell names that cell; everything else is left
/// for other handlers.
pub fn handle_doubleclick_events<Selection: TableSelection>(
    state: &mut TableState<Selection>,
    event: &InputEvent,
) -> (r: DoubleClickOutcome)
    requires
        old(state).vscroll.offset + old(state).row_areas@.len() <= usize::MAX,
    ensures
        *final(state) == *old(state),
        r == (match *event {
            InputEvent::DoubleClick(x, y) => (match (
                crate::table_state::spec_region_at_x(old(state).column_areas@, x as int),
                crate::table_state::spec_region_at_y(old(state).row_areas@, y as int),
            ) {
                (Some(c), Some(w)) => DoubleClickOutcome::ClickClick(
                    c,
                    (old(state).vscroll.offset + w) as usize,
                ),
                _ => DoubleClickOutcome::Continue,
            }),
            _ => DoubleClickOutcome::Continue,
        }),
{
    match *event {
        InputEvent::DoubleClick(x, y) => {
            match state.cell_at_clicked((x, y)) {
                Some(cell) => DoubleClickOutcome::ClickClick(cell.0, cell.1),
                None => DoubleClickOutcome::Continue,
            }
        },
        _ => DoubleClickOutcome::Continue,
    }
}

/// Decide what a key does to a row-editable table: the editing keys
/// map to edit requests; `Down` on the last row asks to append; key
/// releases of the editing keys are consumed without effect;
/// everything else is left for other handlers.
pub fn handle_edit_events<Selection: TableSelection>(
    state: &mut TableState<Selection>,
    focus: bool,
    event: &InputEvent,
) -> (r: EditOutcome)
    ensures
        *final(state) == (TableState { focus, ..*old(state) }),
        r == (match *event {
            InputEvent::KeyPress(Key::Insert) => EditOutcome::Insert,
            InputEvent::KeyPress(Key::Delete) => EditOutcome::Remove,
            InputEvent::KeyPress(Key::Enter) => EditOutcome::Edit,
            InputEvent::KeyPress(Key::Down) => (match old(
                state,
            ).selection.spec_lead_selection() {
                Some(c) => if c.1 + 1 >= old(state).rows {
                    EditOutcome::Append
                } else {
                    EditOutcome::Continue
                },
                None => EditOutcome::Continue,
            }),
            InputEvent::KeyRelease(Key::Insert) => EditOutcome::Unchanged,
            InputEvent::KeyRelease(Key::Delete) => EditOutcome::Unchanged,
            InputEvent::KeyRelease(Key::Enter) => EditOutcome::Unchanged,
            InputEvent::KeyRelease(Key::Down) => EditOutcome::Unchanged,
            _ => EditOutcome::Continue,
        }),
{
    state.focus = focus;
    match *event {
        InputEvent::KeyPress(Key::Insert) => EditOutcome::Insert,
        InputEvent::KeyPress(Key::Delete) => EditOutcome::Remove,
        InputEvent::KeyPress(Key::Enter) => EditOutcome::Edit,
        InputEvent::KeyPress(Key::Down) => {
            match state.selection.lead_selection() {
                Some(c) => {
                    let last = if state.rows >= 1 {
                        state.rows - 1
                    } else {
                        0
                    };
                    if c.1 >= last {
                        EditOutcome::Append
                    } else {
                        EditOutcome::Continue
                    }
                },
                None => EditOutcome::Continue,
            }
        },
        InputEvent::KeyRelease(Key::Insert) => EditOutcome::Unchanged,
        InputEvent::KeyRelease(Key::Delete) => EditOutcome::Unchanged,
        InputEvent::KeyRelease(Key::Enter) => EditOutcome::Unchanged,
        InputEvent::KeyRelease(Key::Down) => EditOutcome::Unchanged,
        _ => EditOutcome::Continue,
    }
}

} // verus!
