use crate::data::TableData;
use crate::layout::Region;
use crate::selection::RowSelection;
use crate::table_state::TableState;
use vstd::prelude::*;

verus! {

/// The editor overlay's state machine: viewing, editing an existing
/// row, or editing a freshly inserted row.
#[derive(Clone, Copy, Debug, PartialEq, Eq, Structural)]
pub enum Mode {
    /// The table is in charge.
    View,
    /// A new row was inserted and is being filled in.
    Insert,
    /// An existing row is being changed.
    Edit,
}

/// One row's editor, supplied by the caller: it keeps a transient
/// edit buffer and moves row values in and out of it.
pub trait EditorState {
    /// One row of the backing collection.
    type Data;

    /// What the caller threads through each editing call.
    type Context;

    /// The caller's error type.
    type Err;

    /// A fresh default row value to insert before editing it.
    fn new_edit_data(&mut self, ctx: &Self::Context) -> Result<Self::Data, Self::Err>;

    /// Load a row value into the transient edit buffer.
    fn set_edit_data(&mut self, data: &Self::Data, ctx: &Self::Context) -> Result<
        (),
        Self::Err,
    >;

    /// Write the transient edit buffer back onto a row value.
    fn get_edit_data(&mut self, data: &mut Self::Data, ctx: &Self::Context) -> Result<
        (),
        Self::Err,
    >;

    /// The column the editor currently has focus on, if any.
    fn focused_col(&self) -> Option<usize>;

    /// Where the terminal cursor should stand, if the editor shows
    /// one.
    fn screen_cursor(&self) -> Option<(u16, u16)>;

    /// Let the editor consume one input event.
    fn handle(&mut self, event: &crate::event::InputEvent, ctx: &Self::Context) -> Result<
        crate::event::Outcome,
        Self::Err,
    >;
}

/// The widget side of a caller's row editor: paints the edit line
/// over the selected row, given the row's cell areas.
pub trait Editor {
    /// The editor state this widget renders.
    type State;

    /// Paint the editor over the row area.
    fn render(
        &self,
        area: Region,
        cell_areas: &Vec<Region>,
        buf: &mut ratatui::buffer::Buffer,
        state: &mut Self::State,
    );
}

/// A table-data facade that can be pointed at the backing collection
/// before each render, so that the editor's owner keeps the one
/// mutable copy.
pub trait EditorData<D>: TableData {
    /// Point the facade at the backing rows; afterwards it presents
    /// exactly those rows.
    fn set_data(&mut self, data: &Vec<D>)
        ensures
            final(self).spec_rows() == data@.len(),
    ;
}

/// Row-wise editing over an owned `Vec` of rows: a table state, the
/// caller's editor state, and the backing collection, stepped by the
/// `Mode` state machine.
#[derive(Debug)]
pub struct EditVecState<S: EditorState> {
    /// Viewing, inserting or editing.
    pub mode: Mode,
    /// A caller-chosen name for this editor.
    pub name: String,
    /// The table under the overlay.
    pub table: TableState<RowSelection>,
    /// The caller's editor state.
    pub editor: S,
    /// The editor holds the input focus instead of the table.
    pub editor_focus: bool,
    /// The backing rows.
    pub editor_data: Vec<S::Data>,
}

impl<S: EditorState> EditVecState<S> {
    /// The state's books are straight: the table's row count matches
    /// the backing rows, and outside `View` a row is selected and
    /// lies inside them.
    pub open spec fn wf(&self) -> bool {
        &&& self.table.rows == self.editor_data@.len()
        &&& (self.mode != Mode::View ==> (match self.table.selection.lead_row {
            Some(r) => r < self.editor_data@.len(),
            None => false,
        }))
    }

    pub fn new(editor: S) -> (r: Self)
        ensures
            r.mode == Mode::View,
            r.editor_focus == false,
            r.editor_data@.len() == 0,
            r.table.rows == 0,
            r.table.selection == (crate::selection::RowSelection {
                lead_row: None::<usize>,
                scroll_selected: false,
            }),
            r.table.vscroll.offset == 0,
            r.table.hscroll.offset == 0,
            r.wf(),
            r.spec_room(),
    {
        let mut table: TableState<RowSelection> = TableState::new();
        table.selection = crate::selection::RowSelection::new();
        EditVecState {
            mode: Mode::View,
            name: String::new(),
            table,
            editor,
            editor_focus: false,
            editor_data: Vec::new(),
        }
    }

    /// As `new`, with a caller-chosen name.
    pub fn named(name: &str, editor: S) -> (r: Self)
        ensures
            r.mode == Mode::View,
            r.editor_focus == false,
            r.editor_data@.len() == 0,
            r.wf(),
    {
        let mut s = EditVecState::new(editor);
        s.name = name.to_string();
        s
    }

    /// Editing is active?
    pub fn is_editing(&self) -> (r: bool)
        ensures
            r == (self.mode == Mode::Edit || self.mode == Mode::Insert),
    {
        self.mode == Mode::Edit || self.mode == Mode::Insert
    }

    /// Is the current edit an insert?
    pub fn is_insert(&self) -> (r: bool)
        ensures
            r == (self.mode == Mode::Insert),
    {
        self.mode == Mode::Insert
    }

    /// Where the terminal cursor should stand: only the editor shows
    /// one, and only while an edit runs.
    pub fn screen_cursor(&self) -> (r: Option<(u16, u16)>)
        ensures
            self.mode == Mode::View ==> r is None,
    {
        match self.mode {
            Mode::View => None,
            Mode::Insert => self.editor.screen_cursor(),
            Mode::Edit => self.editor.screen_cursor(),
        }
    }
}

impl<S: EditorState + Default> Default for EditVecState<S> {
    fn default() -> (r: Self)
        ensures
            r.mode == Mode::View,
            r.editor_focus == false,
            r.editor_data@.len() == 0,
            r.table.rows == 0,
            r.wf(),
    {
        EditVecState::new(Default::default())
    }
}

} // verus!

verus! {

impl<S: EditorState> EditVecState<S> {
    /// Bounds that keep the bookkeeping arithmetic inside `usize`.
    pub open spec fn spec_room(&self) -> bool {
        &&& self.editor_data@.len() <= usize::MAX - 2
        &&& self.table.vscroll.offset <= usize::MAX - 2
        &&& self.table.vscroll.max_offset <= usize::MAX - 2
        &&& self.table.vscroll.offset + self.table.vscroll.page_len <= usize::MAX - 2
        &&& self.table.hscroll.offset + self.table.hscroll.page_len <= usize::MAX - 2
        &&& (match self.table.selection.lead_row {
            Some(v) => v <= usize::MAX - 2,
            None => true,
        })
    }

    /// Swap focus onto the editor, step the mode, and move the
    /// selection onto the edited row.
    fn start_mode(&mut self, pos: usize, mode: Mode)
        requires
            old(self).editor_data@.len() <= usize::MAX - 1,
            old(self).table.vscroll.offset <= usize::MAX - 2,
            old(self).table.vscroll.max_offset <= usize::MAX - 2,
            old(self).table.vscroll.offset + old(self).table.vscroll.page_len <= usize::MAX - 2,
            old(self).table.hscroll.offset + old(self).table.hscroll.page_len <= usize::MAX - 2,
            (match old(self).table.selection.lead_row {
                Some(v) => v <= usize::MAX - 2,
                None => true,
            }),
            mode != Mode::View,
            pos < old(self).editor_data@.len(),
            (mode == Mode::Insert ==> old(self).table.rows + 1 == old(self).editor_data@.len()),
            (mode != Mode::Insert ==> old(self).table.rows == old(self).editor_data@.len()),
        ensures
            final(self).mode == mode,
            final(self).editor_data == old(self).editor_data,
            final(self).editor == old(self).editor,
            final(self).name == old(self).name,
            final(self).table.rows == final(self).editor_data@.len(),
            final(self).table.selection.lead_row == Some(pos),
            final(self).table.focus == false,
            final(self).editor_focus == (old(self).editor_focus || old(self).table.focus),
            final(self).table.hscroll.page_len == old(self).table.hscroll.page_len,
            final(self).table.hscroll.offset + final(self).table.hscroll.page_len <= usize::MAX
                - 2,
            final(self).wf(),
    {
        if self.table.focus {
            self.table.focus = false;
            self.editor_focus = true;
        }
        self.mode = mode;
        if self.mode == Mode::Insert {
            self.table.items_added(pos, 1);
        }
        self.table.move_to(pos);
        self.table.scroll_to_col(0);
    }

    /// Give focus back to the table and return to viewing.
    fn stop_mode(&mut self)
        requires
            old(self).table.hscroll.offset + old(self).table.hscroll.page_len <= usize::MAX - 2,
        ensures
            final(self).mode == Mode::View,
            final(self).editor_data == old(self).editor_data,
            final(self).editor == old(self).editor,
            final(self).name == old(self).name,
            final(self).table.rows == old(self).table.rows,
            final(self).table.selection == old(self).table.selection,
            final(self).table.vscroll == old(self).table.vscroll,
            final(self).editor_focus == false,
            final(self).table.focus == (old(self).table.focus || old(self).editor_focus),
            final(self).table.hscroll.page_len == old(self).table.hscroll.page_len,
            final(self).table.hscroll.offset + final(self).table.hscroll.page_len <= usize::MAX
                - 2,
    {
        self.mode = Mode::View;
        if self.editor_focus {
            self.table.focus = true;
            self.editor_focus = false;
        }
        self.table.scroll_to_col(0);
    }

    /// Remove the row from the backing collection, while viewing.
    /// Inside an edit, or with a row past the end, nothing happens.
    pub fn remove(&mut self, row: usize)
        requires
            old(self).wf(),
            old(self).spec_room(),
        ensures
            (old(self).mode != Mode::View || row >= old(self).editor_data@.len()) ==> *final(self)
                == *old(self),
            (old(self).mode == Mode::View && row < old(self).editor_data@.len()) ==> {
                let shifted = if old(self).table.vscroll.offset >= row && old(
                    self,
                ).table.vscroll.offset >= 1 {
                    old(self).table.vscroll.offset - 1
                } else {
                    old(self).table.vscroll.offset as int
                };
                let ax = (crate::scroll::ScrollAxis {
                    offset: shifted as usize,
                    max_offset: final(self).table.vscroll.max_offset,
                    ..old(self).table.vscroll
                });
                &&& final(self).editor_data@ == old(self).editor_data@.remove(row as int)
                &&& final(self).table.rows == old(self).table.rows - 1
                &&& final(self).mode == Mode::View
                &&& final(self).table.vscroll.offset == (if ax.spec_scroll_to(row as int)
                    != shifted {
                    ax.spec_scroll_to(row as int)
                } else {
                    ax.spec_scroll_to(
                        if row >= 1 {
                            row - 1
                        } else {
                            0
                        },
                    )
                })
                &&& final(self).editor_focus == old(self).editor_focus
                &&& final(self).table.focus == old(self).table.focus
                &&& final(self).wf()
            },
    {
        if self.mode != Mode::View {
            return ;
        }
        if row < self.editor_data.len() {
            self.editor_data.remove(row);
            self.table.items_removed(row, 1);
            if !self.table.scroll_to_row(row) {
                let back = if row >= 1 {
                    row - 1
                } else {
                    0
                };
                self.table.scroll_to_row(back);
            }
        }
    }

    /// Insert a fresh row at `row` and start editing it. Inside an
    /// edit nothing happens; a failure from the caller's editor
    /// leaves collection and table untouched.
    pub fn edit_new(&mut self, row: usize, ctx: &S::Context) -> (r: Result<(), S::Err>)
        requires
            old(self).wf(),
            old(self).spec_room(),
            row <= old(self).editor_data@.len(),
        ensures
            old(self).mode != Mode::View ==> *final(self) == *old(self) && r is Ok,
            (old(self).mode == Mode::View && r is Ok) ==> {
                &&& final(self).mode == Mode::Insert
                &&& (exists|v: S::Data|
                    final(self).editor_data@ == old(self).editor_data@.insert(row as int, v))
                &&& final(self).table.rows == old(self).table.rows + 1
                &&& final(self).table.selection.lead_row == Some(row)
                &&& final(self).table.focus == false
                &&& final(self).editor_focus == (old(self).editor_focus || old(self).table.focus)
                &&& final(self).table.hscroll.offset + final(self).table.hscroll.page_len
                    <= usize::MAX - 2
                &&& final(self).wf()
            },
            (old(self).mode == Mode::View && r is Err) ==> *final(self) == (EditVecState {
                editor: final(self).editor,
                ..*old(self)
            }),
    {
        if self.mode != Mode::View {
            return Ok(());
        }
        let value = match self.editor.new_edit_data(ctx) {
            Ok(v) => v,
            Err(e) => {
                return Err(e);
            },
        };
        match self.editor.set_edit_data(&value, ctx) {
            Ok(u) => u,
            Err(e) => {
                return Err(e);
            },
        };
        self.editor_data.insert(row, value);
        self.start_mode(row, Mode::Insert);
        Ok(())
    }

    /// Start editing the row. Inside an edit nothing happens; a
    /// failure from the caller's editor leaves collection and table
    /// untouched.
    pub fn edit(&mut self, row: usize, ctx: &S::Context) -> (r: Result<(), S::Err>)
        requires
            old(self).wf(),
            old(self).spec_room(),
            row < old(self).editor_data@.len(),
        ensures
            old(self).mode != Mode::View ==> *final(self) == *old(self) && r is Ok,
            (old(self).mode == Mode::View && r is Ok) ==> {
                &&& final(self).mode == Mode::Edit
                &&& final(self).editor_data@ == old(self).editor_data@
                &&& final(self).table.rows == old(self).table.rows
                &&& final(self).table.selection.lead_row == Some(row)
                &&& final(self).table.focus == false
                &&& final(self).editor_focus == (old(self).editor_focus || old(self).table.focus)
                &&& final(self).table.hscroll.offset + final(self).table.hscroll.page_len
                    <= usize::MAX - 2
                &&& final(self).wf()
            },
            (old(self).mode == Mode::View && r is Err) ==> *final(self) == (EditVecState {
                editor: final(self).editor,
                ..*old(self)
            }),
    {
        if self.mode != Mode::View {
            return Ok(());
        }
        match self.editor.set_edit_data(&self.editor_data[row], ctx) {
            Ok(u) => u,
            Err(e) => {
                return Err(e);
            },
        };
        self.start_mode(row, Mode::Edit);
        Ok(())
    }

    /// Abandon the running edit: an inserted placeholder row is
    /// removed again, an edited row is left as it was, and the table
    /// is back in charge.
    pub fn cancel(&mut self)
        requires
            old(self).wf(),
            old(self).table.hscroll.offset + old(self).table.hscroll.page_len <= usize::MAX - 2,
        ensures
            old(self).mode == Mode::View ==> *final(self) == *old(self),
            old(self).mode != Mode::View ==> ({
                &&& final(self).mode == Mode::View
                &&& final(self).editor_focus == false
                &&& final(self).table.focus == (old(self).table.focus || old(self).editor_focus)
                &&& final(self).table.selection == old(self).table.selection
            }),
            old(self).mode == Mode::Insert ==> (old(self).table.selection.lead_row matches Some(
                row,
            ) ==> {
                &&& final(self).editor_data@ == old(self).editor_data@.remove(row as int)
                &&& final(self).table.rows == old(self).table.rows - 1
                &&& final(self).wf()
            }),
            (old(self).mode == Mode::Edit && old(self).table.selection.lead_row is Some) ==> {
                &&& final(self).editor_data@ == old(self).editor_data@
                &&& final(self).table.rows == old(self).table.rows
                &&& final(self).table.vscroll == old(self).table.vscroll
                &&& final(self).wf()
            },
    {
        if self.mode == Mode::View {
            return ;
        }
        let row = match self.table.selected() {
            Some(r) => r,
            None => {
                return ;
            },
        };
        if self.mode == Mode::Insert {
            self.editor_data.remove(row);
            self.table.items_removed(row, 1);
        }
        self.stop_mode();
    }

    /// Write the edit buffer back onto the selected row and return to
    /// viewing. A failure from the caller's editor keeps the edit
    /// running, so nothing is lost; the row keeps whatever the editor
    /// wrote into it so far.
    pub fn commit(&mut self, ctx: &S::Context) -> (r: Result<(), S::Err>)
        requires
            old(self).wf(),
            old(self).table.hscroll.offset + old(self).table.hscroll.page_len <= usize::MAX - 2,
        ensures
            old(self).mode == Mode::View ==> *final(self) == *old(self) && r is Ok,
            old(self).mode != Mode::View ==> (old(self).table.selection.lead_row matches Some(
                row,
            ) ==> {
                &&& (exists|v: S::Data|
                    final(self).editor_data@ == old(self).editor_data@.update(row as int, v))
                &&& final(self).table.rows == old(self).table.rows
                &&& final(self).table.selection == old(self).table.selection
                &&& final(self).table.vscroll == old(self).table.vscroll
                &&& (r is Ok ==> final(self).mode == Mode::View && final(self).editor_focus
                    == false && final(self).table.focus == (old(self).table.focus || old(
                    self,
                ).editor_focus))
                &&& (r is Err ==> final(self).mode == old(self).mode && final(self).editor_focus
                    == old(self).editor_focus && final(self).table.focus == old(self).table.focus)
                &&& final(self).table.hscroll.offset + final(self).table.hscroll.page_len
                    <= usize::MAX - 2
                &&& final(self).wf()
            }),
    {
        if self.mode == Mode::View {
            return Ok(());
        }
        let row = match self.table.selected() {
            Some(r) => r,
            None => {
                return Ok(());
            },
        };
        let ghost pre = self.editor_data@;
        let mut value = self.editor_data.remove(row);
        let res = self.editor.get_edit_data(&mut value, ctx);
        self.editor_data.insert(row, value);
        proof {
            assert(self.editor_data@ =~= pre.update(row as int, self.editor_data@[row as int]));
        }
        match res {
            Ok(u) => u,
            Err(e) => {
                return Err(e);
            },
        };
        self.stop_mode();
        Ok(())
    }
}

/// Inserting a fresh row and cancelling straight away restores the
/// backing collection and the row count exactly, whatever value the
/// caller's editor produced. The two steps are related exactly as
/// `edit_new` and `cancel` promise.
pub proof fn lemma_edit_new_cancel_roundtrip<S: EditorState>(
    s0: EditVecState<S>,
    s1: EditVecState<S>,
    s2: EditVecState<S>,
    row: usize,
)
    requires
        s0.mode == Mode::View,
        row <= s0.editor_data@.len(),
        // edit_new(row) succeeded
        s1.mode == Mode::Insert,
        (exists|v: S::Data| s1.editor_data@ == s0.editor_data@.insert(row as int, v)),
        s1.table.rows == s0.table.rows + 1,
        s1.table.selection.lead_row == Some(row),
        // cancel()
        s2.editor_data@ == s1.editor_data@.remove(row as int),
        s2.table.rows == s1.table.rows - 1,
        s2.mode == Mode::View,
    ensures
        s2.editor_data@ == s0.editor_data@,
        s2.table.rows == s0.table.rows,
{
    let v = choose|v: S::Data| s1.editor_data@ == s0.editor_data@.insert(row as int, v);
    assert(s0.editor_data@.insert(row as int, v).remove(row as int) =~= s0.editor_data@);
}

} // verus!

verus! {

impl<S: EditorState> EditVecState<S> {
    /// Commit the running edit and start inserting a fresh row right
    /// after the one just committed.
    pub fn commit_and_append(&mut self, ctx: &S::Context) -> (r: Result<(), S::Err>)
        requires
            old(self).wf(),
            old(self).spec_room(),
            (match old(self).table.selection.lead_row {
                Some(v) => v + 1 <= old(self).editor_data@.len(),
                None => true,
            }),
        ensures
            final(self).wf(),
            old(self).mode != Mode::View ==> (old(self).table.selection.lead_row matches Some(
                row,
            ) ==> (r is Ok ==> {
                &&& final(self).mode == Mode::Insert
                &&& final(self).editor_data@.len() == old(self).editor_data@.len() + 1
                &&& final(self).table.rows == old(self).table.rows + 1
                &&& final(self).table.selection.lead_row == Some((row + 1) as usize)
                &&& (exists|v: S::Data, w: S::Data|
                    #![trigger old(self).editor_data@.update(row as int, v).insert(
                        row as int + 1,
                        w,
                    )]
                    final(self).editor_data@ == old(self).editor_data@.update(
                        row as int,
                        v,
                    ).insert(row as int + 1, w))
            })),
    {
        match self.commit(ctx) {
            Ok(u) => u,
            Err(e) => {
                return Err(e);
            },
        };
        match self.table.selected() {
            Some(row) => self.edit_new(row + 1, ctx),
            None => Ok(()),
        }
    }

    /// Commit the running edit, select the next row and start editing
    /// it. Only sensible while a row before the last one is selected.
    pub fn commit_and_edit(&mut self, ctx: &S::Context) -> (r: Result<(), S::Err>)
        requires
            old(self).wf(),
            old(self).spec_room(),
            (match old(self).table.selection.lead_row {
                Some(v) => v + 1 < old(self).editor_data@.len(),
                None => true,
            }),
        ensures
            final(self).wf(),
            old(self).mode != Mode::View ==> (old(self).table.selection.lead_row matches Some(
                row,
            ) ==> (r is Ok ==> {
                &&& final(self).mode == Mode::Edit
                &&& final(self).editor_data@.len() == old(self).editor_data@.len()
                &&& final(self).table.rows == old(self).table.rows
                &&& final(self).table.selection.lead_row == Some((row + 1) as usize)
                &&& (exists|v: S::Data|
                    final(self).editor_data@ == old(self).editor_data@.update(row as int, v))
            })),
    {
        let row = match self.table.selected() {
            Some(r) => r,
            None => {
                return Ok(());
            },
        };
        match self.commit(ctx) {
            Ok(u) => u,
            Err(e) => {
                return Err(e);
            },
        };
        if self.mode == Mode::View && row + 1 < self.editor_data.len() {
            self.table.select(Some(row + 1));
            self.edit(row + 1, ctx)
        } else {
            Ok(())
        }
    }

    /// The editing-mode key map, applied after the caller's editor
    /// has declined the event: Esc abandons the edit, Enter commits
    /// and moves on (appending after the last row, editing the next
    /// one otherwise), Up and Down just commit, and anything else is
    /// left for other handlers.
    pub fn handle_edit_keys(&mut self, event: &crate::event::InputEvent, ctx: &S::Context) -> (r:
        Result<crate::event::Outcome, S::Err>)
        requires
            old(self).wf(),
            old(self).spec_room(),
            old(self).mode != Mode::View,
        ensures
            final(self).wf(),
            *event == crate::event::InputEvent::KeyPress(crate::event::Key::Esc) ==> ({
                &&& r == Ok::<crate::event::Outcome, S::Err>(crate::event::Outcome::Changed)
                &&& final(self).mode == Mode::View
                &&& final(self).editor_focus == false
                &&& (old(self).mode == Mode::Insert ==> (old(
                    self,
                ).table.selection.lead_row matches Some(row) ==> final(self).editor_data@ == old(
                    self,
                ).editor_data@.remove(row as int) && final(self).table.rows == old(
                    self,
                ).table.rows - 1))
                &&& (old(self).mode == Mode::Edit ==> final(self).editor_data@ == old(
                    self,
                ).editor_data@ && final(self).table.rows == old(self).table.rows)
            }),
            *event == crate::event::InputEvent::KeyPress(crate::event::Key::Enter) ==> (old(
                self,
            ).table.selection.lead_row matches Some(row) ==> (r is Ok ==> ({
                let last = if old(self).table.rows >= 1 {
                    old(self).table.rows - 1
                } else {
                    0
                };
                &&& r == Ok::<crate::event::Outcome, S::Err>(crate::event::Outcome::Changed)
                &&& (row >= last ==> final(self).mode == Mode::Insert && final(self).editor_data@.len() == old(self).editor_data@.len() + 1 && final(self).table.selection.lead_row == Some((row + 1) as usize))
                &&& (row < last ==> final(self).mode == Mode::Edit && final(self).editor_data@.len() == old(self).editor_data@.len() && final(self).table.selection.lead_row == Some((row + 1) as usize))
            }))),
            (*event == crate::event::InputEvent::KeyPress(crate::event::Key::Up) || *event
                == crate::event::InputEvent::KeyPress(crate::event::Key::Down)) ==> (old(
                self,
            ).table.selection.lead_row matches Some(row) ==> (r is Ok ==> ({
                &&& r == Ok::<crate::event::Outcome, S::Err>(crate::event::Outcome::Changed)
                &&& final(self).mode == Mode::View
                &&& (exists|v: S::Data|
                    final(self).editor_data@ == old(self).editor_data@.update(row as int, v))
                &&& final(self).table.rows == old(self).table.rows
            }))),
            (match *event {
                crate::event::InputEvent::KeyPress(crate::event::Key::Esc) => false,
                crate::event::InputEvent::KeyPress(crate::event::Key::Enter) => false,
                crate::event::InputEvent::KeyPress(crate::event::Key::Up) => false,
                crate::event::InputEvent::KeyPress(crate::event::Key::Down) => false,
                _ => true,
            }) ==> r == Ok::<crate::event::Outcome, S::Err>(crate::event::Outcome::Continue)
                && *final(self) == *old(self),
    {
        match *event {
            crate::event::InputEvent::KeyPress(crate::event::Key::Esc) => {
                self.cancel();
                Ok(crate::event::Outcome::Changed)
            },
            crate::event::InputEvent::KeyPress(crate::event::Key::Enter) => {
                let last = self.table.rows().saturating_sub(1);
                let at_last = match self.table.selected() {
                    Some(r) => r >= last,
                    None => true,
                };
                if at_last {
                    match self.commit_and_append(ctx) {
                        Ok(u) => u,
                        Err(e) => {
                            return Err(e);
                        },
                    };
                } else {
                    match self.commit_and_edit(ctx) {
                        Ok(u) => u,
                        Err(e) => {
                            return Err(e);
                        },
                    };
                }
                Ok(crate::event::Outcome::Changed)
            },
            crate::event::InputEvent::KeyPress(crate::event::Key::Up) => {
                match self.commit(ctx) {
                    Ok(u) => u,
                    Err(e) => {
                        return Err(e);
                    },
                };
                Ok(crate::event::Outcome::Changed)
            },
            crate::event::InputEvent::KeyPress(crate::event::Key::Down) => {
                match self.commit(ctx) {
                    Ok(u) => u,
                    Err(e) => {
                        return Err(e);
                    },
                };
                Ok(crate::event::Outcome::Changed)
            },
            _ => Ok(crate::event::Outcome::Continue),
        }
    }

    /// Feed one input event through the overlay. While an edit runs,
    /// the caller's editor sees the event first; only an event it
    /// declines reaches the editing key map of `handle_edit_keys`.
    /// While viewing, the editing keys start or end an edit. Anything
    /// not consumed is reported back as `Continue`.
    pub fn handle(&mut self, event: &crate::event::InputEvent, ctx: &S::Context) -> (r: Result<
        crate::event::Outcome,
        S::Err,
    >)
        requires
            old(self).wf(),
            old(self).spec_room(),
        ensures
            final(self).wf(),
            old(self).mode == Mode::View ==> (match *event {
                crate::event::InputEvent::KeyPress(crate::event::Key::Insert) => (match old(
                    self,
                ).table.selection.lead_row {
                    Some(row) => if row <= old(self).editor_data@.len() {
                        r is Ok ==> final(self).mode == Mode::Insert && final(self).editor_data@.len() == old(self).editor_data@.len() + 1 && final(self).table.selection.lead_row == Some(row)
                    } else {
                        *final(self) == *old(self)
                    },
                    None => *final(self) == *old(self),
                }),
                crate::event::InputEvent::KeyPress(crate::event::Key::Delete) => (match old(
                    self,
                ).table.selection.lead_row {
                    Some(row) => if row < old(self).editor_data@.len() {
                        final(self).editor_data@ == old(self).editor_data@.remove(row as int)
                            && final(self).table.rows == old(self).table.rows - 1 && final(self).mode == Mode::View
                    } else {
                        *final(self) == *old(self)
                    },
                    None => *final(self) == *old(self),
                }),
                crate::event::InputEvent::KeyPress(crate::event::Key::Enter) => (match old(
                    self,
                ).table.selection.lead_row {
                    Some(row) => if row < old(self).editor_data@.len() {
                        r is Ok ==> final(self).mode == Mode::Edit && final(self).editor_data@
                            == old(self).editor_data@ && final(self).table.selection.lead_row
                            == Some(row)
                    } else {
                        *final(self) == *old(self)
                    },
                    None => *final(self) == *old(self),
                }),
                crate::event::InputEvent::KeyPress(crate::event::Key::F2) => (match old(
                    self,
                ).table.selection.lead_row {
                    Some(row) => if row < old(self).editor_data@.len() {
                        r is Ok ==> final(self).mode == Mode::Edit && final(self).editor_data@
                            == old(self).editor_data@ && final(self).table.selection.lead_row
                            == Some(row)
                    } else {
                        *final(self) == *old(self)
                    },
                    None => *final(self) == *old(self),
                }),
                crate::event::InputEvent::KeyPress(crate::event::Key::Down) => (match old(
                    self,
                ).table.selection.lead_row {
                    Some(row) => if row + 1 >= old(self).table.rows && row < old(
                        self,
                    ).editor_data@.len() {
                        r is Ok ==> final(self).mode == Mode::Insert && final(self).editor_data@.len() == old(self).editor_data@.len() + 1 && final(self).table.selection.lead_row == Some((row + 1) as usize)
                    } else {
                        r == Ok::<crate::event::Outcome, S::Err>(crate::event::Outcome::Continue)
                            && *final(self) == *old(self)
                    },
                    None => r == Ok::<crate::event::Outcome, S::Err>(
                        crate::event::Outcome::Continue,
                    ) && *final(self) == *old(self),
                }),
                crate::event::InputEvent::DoubleClick(x, y) => (r is Ok ==> ((final(self).mode
                    == Mode::Edit && final(self).editor_data@ == old(self).editor_data@ && final(self).table.rows == old(self).table.rows) || *final(self) == *old(self))),
                _ => r == Ok::<crate::event::Outcome, S::Err>(crate::event::Outcome::Continue)
                    && *final(self) == *old(self),
            }),
    {
        if self.mode == Mode::Edit || self.mode == Mode::Insert {
            let handled = match self.editor.handle(event, ctx) {
                Ok(o) => o,
                Err(e) => {
                    return Err(e);
                },
            };
            match handled {
                crate::event::Outcome::Continue => {},
                crate::event::Outcome::Unchanged => {
                    return Ok(crate::event::Outcome::Unchanged);
                },
                crate::event::Outcome::Changed => {
                    if let Some(col) = self.editor.focused_col() {
                        if self.table.hscroll.offset <= usize::MAX - 2
                            && self.table.hscroll.offset + self.table.hscroll.page_len
                            <= usize::MAX - 2 {
                            self.table.scroll_to_col(col);
                        }
                    }
                    return Ok(crate::event::Outcome::Changed);
                },
            }
            self.handle_edit_keys(event, ctx)
        } else {
            match *event {
                crate::event::InputEvent::DoubleClick(x, y) => {
                    if self.table.row_areas.len() <= usize::MAX - self.table.vscroll.offset {
                        match self.table.cell_at_clicked((x, y)) {
                            Some(cell) => {
                                if cell.1 < self.editor_data.len() {
                                    match self.edit(cell.1, ctx) {
                                        Ok(u) => u,
                                        Err(e) => {
                                            return Err(e);
                                        },
                                    };
                                    Ok(crate::event::Outcome::Changed)
                                } else {
                                    Ok(crate::event::Outcome::Continue)
                                }
                            },
                            None => Ok(crate::event::Outcome::Continue),
                        }
                    } else {
                        Ok(crate::event::Outcome::Continue)
                    }
                },
                crate::event::InputEvent::KeyPress(crate::event::Key::Insert) => {
                    if let Some(row) = self.table.selected() {
                        if row <= self.editor_data.len() {
                            match self.edit_new(row, ctx) {
                                Ok(u) => u,
                                Err(e) => {
                                    return Err(e);
                                },
                            };
                        }
                    }
                    Ok(crate::event::Outcome::Changed)
                },
                crate::event::InputEvent::KeyPress(crate::event::Key::Delete) => {
                    if let Some(row) = self.table.selected() {
                        self.remove(row);
                    }
                    Ok(crate::event::Outcome::Changed)
                },
                crate::event::InputEvent::KeyPress(crate::event::Key::Enter) => {
                    if let Some(row) = self.table.selected() {
                        if row < self.editor_data.len() {
                            match self.edit(row, ctx) {
                                Ok(u) => u,
                                Err(e) => {
                                    return Err(e);
                                },
                            };
                        }
                    }
                    Ok(crate::event::Outcome::Changed)
                },
                crate::event::InputEvent::KeyPress(crate::event::Key::F2) => {
                    if let Some(row) = self.table.selected() {
                        if row < self.editor_data.len() {
                            match self.edit(row, ctx) {
                                Ok(u) => u,
                                Err(e) => {
                                    return Err(e);
                                },
                            };
                        }
                    }
                    Ok(crate::event::Outcome::Changed)
                },
                crate::event::InputEvent::KeyPress(crate::event::Key::Down) => {
                    match self.table.selected() {
                        Some(row) => {
                            let last = self.table.rows().saturating_sub(1);
                            if row >= last && row < self.editor_data.len() {
                                match self.edit_new(row + 1, ctx) {
                                    Ok(u) => u,
                                    Err(e) => {
                                        return Err(e);
                                    },
                                };
                                Ok(crate::event::Outcome::Changed)
                            } else {
                                Ok(crate::event::Outcome::Continue)
                            }
                        },
                        None => Ok(crate::event::Outcome::Continue),
                    }
                },
                _ => Ok(crate::event::Outcome::Continue),
            }
        }
    }
}

} // verus!

verus! {

/// Row-wise editing of a table over an owned `Vec`: the table, a
/// facade for its data, and the caller's editor widget.
pub struct EditVec<TD, I, E> {
    pub table: crate::table::Table<TD, I>,
    pub table_data: TD,
    pub editor: E,
}

impl<TD, I, E> EditVec<TD, I, E> {
    pub fn new(table_data: TD, table: crate::table::Table<TD, I>, editor: E) -> (r: Self)
        ensures
            r.table == table,
            r.table_data == table_data,
            r.editor == editor,
    {
        EditVec { table, table_data, editor }
    }
}

impl<
    D,
    TD: EditorData<D>,
    I: crate::data::TableDataIter,
    E: Editor,
> EditVec<TD, I, E> where E::State: EditorState<Data = D> {
    /// Render the table over the backing rows, and the editor widget
    /// over the selected row while an edit is running.
    pub fn render(
        self,
        area: Region,
        buf: &mut ratatui::buffer::Buffer,
        state: &mut EditVecState<E::State>,
    )
        requires
            old(state).spec_room(),
            self.table.layout_width is Some || !self.table.auto_layout_width,
        ensures
            final(state).editor_data == old(state).editor_data,
            final(state).mode == old(state).mode,
            final(state).editor_focus == old(state).editor_focus,
            final(state).name == old(state).name,
            final(state).table.rows == old(state).editor_data@.len(),
            final(state).table.area == area,
            final(state).table.vscroll.offset <= final(state).table.vscroll.max_offset,
            final(state).table.selection == old(state).table.selection,
    {
        let EditVec { table, mut table_data, editor } = self;
        table_data.set_data(&state.editor_data);
        let widget = table.data(table_data);
        widget.render(area, buf, &mut state.table);

        if state.mode == Mode::Insert || state.mode == Mode::Edit {
            if let Some(row) = state.table.selected() {
                if state.table.vscroll.page_len <= usize::MAX - state.table.vscroll.offset {
                    if let Some(cells) = state.table.row_cells(row) {
                        editor.render(cells.0, &cells.1, buf, &mut state.editor);
                    }
                }
            }
        }
    }

}

} // verus!
