use rat_ftable::edit::EditVecState;
use rat_ftable::edit::EditorState;
use rat_ftable::edit::Mode;
use rat_ftable::event::EditOutcome;
use rat_ftable::event::InputEvent;
use rat_ftable::event::Key;
use rat_ftable::event::Outcome;
use rat_ftable::selection::RowSelection;
use rat_ftable::table_state::TableState;

/// A row editor over plain strings: the buffer is a string, a fresh
/// row is empty, and committing appends a marker.
struct StringEditor {
    buffer: String,
    fail_new: bool,
}

impl EditorState for StringEditor {
    type Data = String;
    type Context = ();
    type Err = String;

    fn new_edit_data(&mut self, _ctx: &()) -> Result<String, String> {
        if self.fail_new {
            Err("no new rows".to_string())
        } else {
            Ok(String::new())
        }
    }

    fn set_edit_data(&mut self, data: &String, _ctx: &()) -> Result<(), String> {
        self.buffer = data.clone();
        Ok(())
    }

    fn get_edit_data(&mut self, data: &mut String, _ctx: &()) -> Result<(), String> {
        *data = format!("{}!", self.buffer);
        Ok(())
    }

    fn focused_col(&self) -> Option<usize> {
        None
    }

    fn screen_cursor(&self) -> Option<(u16, u16)> {
        None
    }

    fn handle(&mut self, _event: &InputEvent, _ctx: &()) -> Result<Outcome, String> {
        Ok(Outcome::Continue)
    }
}

fn sample_state() -> EditVecState<StringEditor> {
    let mut s = EditVecState::new(StringEditor { buffer: String::new(), fail_new: false });
    s.editor_data = vec!["a".to_string(), "b".to_string(), "c".to_string()];
    s.table.rows = 3;
    s
}

#[test]
fn edit_new_then_cancel_restores_everything() {
    // inserting a fresh row and cancelling leaves row count and row
    // contents exactly as they were
    let mut s = sample_state();
    let before = s.editor_data.clone();
    let rows_before = s.table.rows();

    s.edit_new(1, &()).expect("insert");
    assert_eq!(s.mode, Mode::Insert);
    assert_eq!(s.editor_data.len(), 4);
    assert_eq!(s.table.rows(), 4);
    assert_eq!(s.table.selected(), Some(1));

    s.cancel();
    assert_eq!(s.mode, Mode::View);
    assert_eq!(s.editor_data, before);
    assert_eq!(s.table.rows(), rows_before);
}

#[test]
fn cancel_of_edit_keeps_the_row() {
    let mut s = sample_state();
    s.table.select(Some(2));
    s.edit(2, &()).expect("edit");
    assert_eq!(s.mode, Mode::Edit);
    s.cancel();
    assert_eq!(s.mode, Mode::View);
    assert_eq!(s.editor_data, vec!["a", "b", "c"]);
    assert_eq!(s.table.rows(), 3);
}

#[test]
fn commit_writes_the_buffer_back() {
    let mut s = sample_state();
    s.edit(2, &()).expect("edit");
    s.commit(&()).expect("commit");
    assert_eq!(s.mode, Mode::View);
    assert_eq!(s.editor_data, vec!["a", "b", "c!"]);
    assert_eq!(s.table.rows(), 3);
}

#[test]
fn failed_edit_new_changes_nothing() {
    let mut s = sample_state();
    s.editor.fail_new = true;
    let r = s.edit_new(1, &());
    assert!(r.is_err());
    assert_eq!(s.mode, Mode::View);
    assert_eq!(s.editor_data.len(), 3);
    assert_eq!(s.table.rows(), 3);
}

#[test]
fn wrong_state_calls_are_silent() {
    // a second edit_new while inserting is a silent no-op
    let mut s = sample_state();
    s.edit_new(0, &()).expect("insert");
    assert_eq!(s.editor_data.len(), 4);
    s.edit_new(0, &()).expect("silent");
    assert_eq!(s.editor_data.len(), 4);
    assert_eq!(s.mode, Mode::Insert);
}

#[test]
fn remove_only_while_viewing() {
    let mut s = sample_state();
    s.remove(1);
    assert_eq!(s.editor_data, vec!["a", "c"]);
    assert_eq!(s.table.rows(), 2);
    s.edit(0, &()).expect("edit");
    s.remove(0);
    assert_eq!(s.editor_data, vec!["a", "c"]);
}

#[test]
fn commit_and_append_starts_the_next_insert() {
    let mut s = sample_state();
    s.edit(1, &()).expect("edit");
    s.commit_and_append(&()).expect("commit");
    assert_eq!(s.mode, Mode::Insert);
    assert_eq!(s.editor_data.len(), 4);
    assert_eq!(s.table.selected(), Some(2));
    assert_eq!(s.editor_data[1], "b!");
}

#[test]
fn commit_and_edit_moves_to_the_next_row() {
    let mut s = sample_state();
    s.edit(0, &()).expect("edit");
    s.commit_and_edit(&()).expect("commit");
    assert_eq!(s.mode, Mode::Edit);
    assert_eq!(s.table.selected(), Some(1));
    assert_eq!(s.editor_data[0], "a!");
}

#[test]
fn overlay_esc_cancels() {
    let mut s = sample_state();
    s.edit_new(3, &()).expect("insert");
    let r = s.handle(&InputEvent::KeyPress(Key::Esc), &()).expect("handled");
    assert_eq!(r, Outcome::Changed);
    assert_eq!(s.mode, Mode::View);
    assert_eq!(s.editor_data.len(), 3);
}

#[test]
fn overlay_insert_key_starts_an_insert() {
    let mut s = sample_state();
    s.table.select(Some(1));
    let r = s.handle(&InputEvent::KeyPress(Key::Insert), &()).expect("handled");
    assert_eq!(r, Outcome::Changed);
    assert_eq!(s.mode, Mode::Insert);
    assert_eq!(s.editor_data.len(), 4);
}

#[test]
fn table_edit_keymap_maps_keys() {
    let mut state: TableState<RowSelection> = TableState::new();
    state.rows = 5;
    state.select(Some(4));
    let r = rat_ftable::event::handle_edit_events(&mut state, true, &InputEvent::KeyPress(Key::Insert));
    assert_eq!(r, EditOutcome::Insert);
    let r = rat_ftable::event::handle_edit_events(&mut state, true, &InputEvent::KeyPress(Key::Delete));
    assert_eq!(r, EditOutcome::Remove);
    let r = rat_ftable::event::handle_edit_events(&mut state, true, &InputEvent::KeyPress(Key::Enter));
    assert_eq!(r, EditOutcome::Edit);
    // Down on the last selected row asks to append
    let r = rat_ftable::event::handle_edit_events(&mut state, true, &InputEvent::KeyPress(Key::Down));
    assert_eq!(r, EditOutcome::Append);
    state.select(Some(1));
    let r = rat_ftable::event::handle_edit_events(&mut state, true, &InputEvent::KeyPress(Key::Down));
    assert_eq!(r, EditOutcome::Continue);
    let r = rat_ftable::event::handle_edit_events(&mut state, true, &InputEvent::KeyRelease(Key::Enter));
    assert_eq!(r, EditOutcome::Unchanged);
}

#[test]
fn editing_moves_the_focus_and_back() {
    let mut s = sample_state();
    s.table.focus = true;
    s.edit(1, &()).expect("edit");
    assert!(!s.table.focus);
    assert!(s.editor_focus);
    s.cancel();
    assert!(s.table.focus);
    assert!(!s.editor_focus);
}

#[test]
fn edit_keys_escape_abandons_the_insert() {
    let mut s = sample_state();
    s.edit_new(2, &()).expect("insert");
    let r = s
        .handle_edit_keys(&InputEvent::KeyPress(Key::Esc), &())
        .expect("handled");
    assert_eq!(r, Outcome::Changed);
    assert_eq!(s.mode, Mode::View);
    assert_eq!(s.editor_data, vec!["a", "b", "c"]);
}

#[test]
fn edit_keys_up_commits() {
    let mut s = sample_state();
    s.edit(0, &()).expect("edit");
    let r = s
        .handle_edit_keys(&InputEvent::KeyPress(Key::Up), &())
        .expect("handled");
    assert_eq!(r, Outcome::Changed);
    assert_eq!(s.mode, Mode::View);
    assert_eq!(s.editor_data[0], "a!");
}

#[test]
fn edit_keys_enter_commits_and_moves_on() {
    let mut s = sample_state();
    s.edit(0, &()).expect("edit");
    let r = s
        .handle_edit_keys(&InputEvent::KeyPress(Key::Enter), &())
        .expect("handled");
    assert_eq!(r, Outcome::Changed);
    // not on the last row: the next row is edited
    assert_eq!(s.mode, Mode::Edit);
    assert_eq!(s.table.selected(), Some(1));
    assert_eq!(s.editor_data[0], "a!");

    let r = s
        .handle_edit_keys(&InputEvent::KeyPress(Key::Up), &())
        .expect("handled");
    assert_eq!(r, Outcome::Changed);
    s.table.select(Some(2));
    s.edit(2, &()).expect("edit");
    let r = s
        .handle_edit_keys(&InputEvent::KeyPress(Key::Enter), &())
        .expect("handled");
    assert_eq!(r, Outcome::Changed);
    // on the last row: a fresh row is appended and inserted
    assert_eq!(s.mode, Mode::Insert);
    assert_eq!(s.editor_data.len(), 4);
    assert_eq!(s.table.selected(), Some(3));
}
