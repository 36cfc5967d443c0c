use crate::task::{Task, TaskModel};
use crate::tasklist::{added, has_id, ListModel, TaskList};
use crate::tasklistview::{
    at_end, last_index, selected_at, task_of, with_task, Key, KeyOutcome, KeyPress, SelectionModel,
    TaskListView,
};
use crate::textinput::{
    chars_of, min_of, text_of, utf8_len, utf8_offset, without_char, InputMode, TextInputModel,
};
use vstd::prelude::*;

verus! {

/// The edit view as plain values: its line of text, and the id of the task
/// it modifies, or none where it creates a task.
pub struct EditModel {
    pub text: TextInputModel,
    pub task_uuid: Option<u128>,
}

/// The list and the list view after the edited text is saved: the modified
/// task takes the text as its description in place; a created task is
/// appended, and the selection follows to the end where it was at the end.
pub open spec fn saved(e: EditModel, m: ListModel, s: SelectionModel, id: u128) -> (ListModel, SelectionModel) {
    match e.task_uuid {
        Some(uuid) => if has_id(m.tasks, uuid) {
            (with_task(m, uuid, TaskModel { description: e.text.input, ..task_of(m, uuid) }), s)
        } else {
            (m, s)
        },
        None => {
            let m2 = added(m, TaskModel::fresh(id, e.text.input));
            (m2, if at_end(s, m) {
                selected_at(s, m2.shown(), last_index(m2.shown()))
            } else {
                s
            })
        },
    }
}

/// Whether the edit view takes the key: every key while editing; in normal
/// mode, without Control or Alt, `a`, and `m` where a task is selected.
pub open spec fn takes_key(e: EditModel, s: SelectionModel, key: KeyPress) -> bool {
    e.text.mode == InputMode::Editing || (!key.ctrl && !key.alt && (key.key == Key::Char('a') || (
    key.key == Key::Char('m') && s.selected_uuid is Some)))
}

/// The edit view, the list and the list view after a key; `id` is the id a
/// created task receives.
pub open spec fn edit_after(
    e: EditModel,
    m: ListModel,
    s: SelectionModel,
    key: KeyPress,
    id: u128,
) -> (EditModel, ListModel, SelectionModel) {
    if e.text.mode == InputMode::Normal {
        if !key.ctrl && !key.alt && key.key == Key::Char('a') {
            (
                EditModel {
                    text: TextInputModel { mode: InputMode::Editing, ..e.text },
                    task_uuid: None,
                },
                m,
                s,
            )
        } else if !key.ctrl && !key.alt && key.key == Key::Char('m') && s.selected_uuid is Some {
            let uuid = s.selected_uuid->0;
            let text = if has_id(m.tasks, uuid) {
                let d = task_of(m, uuid).description;
                TextInputModel { input: d, index: d.len() as usize, mode: InputMode::Editing }
            } else {
                TextInputModel { mode: InputMode::Editing, ..e.text }
            };
            (EditModel { text, task_uuid: Some(uuid) }, m, s)
        } else {
            (e, m, s)
        }
    } else {
        let t = e.text;
        match key.key {
            Key::Enter => {
                let (m2, s2) = saved(e, m, s, id);
                (EditModel { text: t.cleared(), ..e }, m2, s2)
            },
            Key::Char(c) => (EditModel { text: t.typed(c), ..e }, m, s),
            Key::Backspace => (EditModel { text: t.backspaced(), ..e }, m, s),
            Key::Left => (EditModel { text: t.moved_left(), ..e }, m, s),
            Key::Right => (EditModel { text: t.moved_right(), ..e }, m, s),
            Key::Esc => (
                EditModel { text: TextInputModel { mode: InputMode::Normal, ..t }, ..e },
                m,
                s,
            ),
            Key::Home => (EditModel { text: TextInputModel { index: 0, ..t }, ..e }, m, s),
            Key::End => (
                EditModel { text: TextInputModel { index: t.input.len() as usize, ..t }, ..e },
                m,
                s,
            ),
            Key::Delete => (
                EditModel {
                    text: TextInputModel { input: without_char(t.input, t.index as int), ..t },
                    ..e
                },
                m,
                s,
            ),
            _ => (e, m, s),
        }
    }
}

/// Whether a key changes the list, so that it is to be saved: Enter while
/// editing, where the task list changed or the modified task was found.
pub open spec fn edit_changes(
    e: EditModel,
    m: ListModel,
    s: SelectionModel,
    key: KeyPress,
    id: u128,
) -> bool {
    e.text.mode == InputMode::Editing && key.key == Key::Enter && (saved(e, m, s, id).0 != m || (
    e.task_uuid is Some && has_id(m.tasks, e.task_uuid->0)))
}

/// A one-line editor that creates a task, or modifies the description of the
/// selected one.
pub struct TaskEditView {
    input: Vec<char>,
    index: usize,
    mode: InputMode,
    task_uuid: Option<u128>,
}

impl View for TaskEditView {
    type V = EditModel;

    closed spec fn view(&self) -> EditModel {
        EditModel {
            text: TextInputModel { input: self.input@, index: self.index, mode: self.mode },
            task_uuid: self.task_uuid,
        }
    }
}

impl TaskEditView {
    pub fn new() -> (r: TaskEditView)
        ensures
            r@ == (EditModel {
                text: TextInputModel { input: Seq::empty(), index: 0, mode: InputMode::Normal },
                task_uuid: None,
            }),
    {
        TaskEditView { input: Vec::new(), index: 0, mode: InputMode::Normal, task_uuid: None }
    }

    /// The typed text.
    pub fn input_text(&self) -> (r: String)
        ensures
            r@ == self@.text.input,
    {
        text_of(&self.input)
    }

    /// The cursor position, in characters.
    pub fn cursor(&self) -> (r: usize)
        ensures
            r == self@.text.index,
    {
        self.index
    }

    pub fn mode(&self) -> (r: InputMode)
        ensures
            r == self@.text.mode,
    {
        self.mode
    }

    fn cursor_left(&mut self)
        ensures
            final(self)@ == (EditModel { text: old(self)@.text.moved_left(), ..old(self)@ }),
    {
        let cursor_moved_left = self.index.saturating_sub(1);
        self.index = self.clamp_cursor(cursor_moved_left);
    }

    fn cursor_right(&mut self)
        ensures
            final(self)@ == (EditModel { text: old(self)@.text.moved_right(), ..old(self)@ }),
    {
        let len = self.input.len();
        let cursor_moved_right = self.index.saturating_add(1);
        self.index = self.clamp_cursor(cursor_moved_right);
    }

    fn enter_char(&mut self, new_char: char)
        ensures
            final(self)@ == (EditModel { text: old(self)@.text.typed(new_char), ..old(self)@ }),
    {
        let index = if self.index < self.input.len() {
            self.index
        } else {
            self.input.len()
        };
        self.input.insert(index, new_char);
        self.cursor_right();
    }

    /// The byte offset of the cursor in the text's UTF-8 encoding, or the
    /// text's length in bytes where the cursor lies beyond it.
    pub fn byte_index(&self) -> (r: usize)
        requires
            self@.text.input.len() <= usize::MAX / 4,
        ensures
            r == utf8_len(
                self@.text.input.take(
                    min_of(self@.text.index as int, self@.text.input.len() as int),
                ),
            ),
    {
        utf8_offset(&self.input, self.index)
    }

    fn clamp_cursor(&self, new_cursor_pos: usize) -> (r: usize)
        ensures
            r == self@.text.clamped(new_cursor_pos as int),
    {
        if new_cursor_pos < self.input.len() {
            new_cursor_pos
        } else {
            self.input.len()
        }
    }

    fn reset_cursor(&mut self)
        ensures
            final(self)@ == (EditModel {
                text: TextInputModel { index: 0, ..old(self)@.text },
                ..old(self)@
            }),
    {
        self.index = 0;
    }

    /// Saves the text: as the new description of the task being modified,
    /// or as a new task. Then clears the line and leaves editing. Whether
    /// the list changed, so that it is to be saved.
    fn save_task(&mut self, task_list: &mut TaskList, task_list_view: &mut TaskListView) -> (changed: bool)
        requires
            old(task_list)@.wf(),
        ensures
            final(task_list)@.wf(),
            exists|id: u128|
                (final(task_list)@, final(task_list_view)@) == saved(
                    old(self)@,
                    old(task_list)@,
                    old(task_list_view)@,
                    id,
                ),
            changed == ((final(task_list)@ != old(task_list)@) || (old(self)@.task_uuid is Some
                && has_id(old(task_list)@.tasks, old(self)@.task_uuid->0))),
            final(self)@ == (EditModel { text: old(self)@.text.cleared(), ..old(self)@ }),
    {
        let ghost m = task_list@;
        let ghost s = task_list_view@;
        let text = text_of(&self.input);
        let ghost mut id: u128 = 0;
        let result = if let Some(task_uuid) = self.task_uuid {
            match task_list.get(task_uuid) {
                Some(task) => {
                    let mut task = task.duplicate();
                    task.update_description(text.as_str());
                    task_list.replace(task_uuid, task)
                },
                None => false,
            }
        } else {
            let at_end = task_list_view.is_at_end(task_list);
            let task = Task::new(text.as_str());
            proof {
                id = task@.id;
            }
            let appended = task_list.add(task);
            if at_end {
                task_list_view.move_end(task_list);
            }
            proof {
                if appended {
                    assert(task_list@.tasks.len() == m.tasks.len() + 1);
                }
            }
            appended
        };
        assert((task_list@, task_list_view@) == saved(self@, m, s, id));
        self.input = Vec::new();
        self.reset_cursor();
        self.mode = InputMode::Normal;
        assert(self@.text =~= old(self)@.text.cleared());
        result
    }

    fn delete_char_at(&mut self, index: usize)
        ensures
            final(self)@ == (EditModel {
                text: TextInputModel {
                    input: without_char(old(self)@.text.input, index as int),
                    ..old(self)@.text
                },
                ..old(self)@
            }),
    {
        if index < self.input.len() {
            self.input.remove(index);
        }
    }

    fn backspace_delete(&mut self)
        ensures
            final(self)@ == (EditModel { text: old(self)@.text.backspaced(), ..old(self)@ }),
    {
        if self.index > 0 {
            self.delete_char_at(self.index - 1);
            self.cursor_left();
        }
    }

    fn delete_at_cursor(&mut self)
        ensures
            final(self)@ == (EditModel {
                text: TextInputModel {
                    input: without_char(old(self)@.text.input, old(self)@.text.index as int),
                    ..old(self)@.text
                },
                ..old(self)@
            }),
    {
        self.delete_char_at(self.index);
    }

    /// Handles a key. In normal mode and without Control or Alt, `a` starts
    /// creating a task and `m` starts modifying the selected one, with its
    /// description as the text and the cursor at its end; other keys are
    /// left to the caller. While editing, every key is taken: Enter saves,
    /// Esc leaves editing, characters are typed, Backspace and Delete delete
    /// before and at the cursor, Home, End and the arrows move the cursor.
    pub fn handle_key(
        &mut self,
        key: KeyPress,
        task_list: &mut TaskList,
        task_list_view: &mut TaskListView,
    ) -> (r: KeyOutcome)
        requires
            old(task_list)@.wf(),
        ensures
            final(task_list)@.wf(),
            r.handled == takes_key(old(self)@, old(task_list_view)@, key),
            exists|id: u128|
                (final(self)@, final(task_list)@, final(task_list_view)@) == edit_after(
                    old(self)@,
                    old(task_list)@,
                    old(task_list_view)@,
                    key,
                    id,
                ) && r.changed == edit_changes(
                    old(self)@,
                    old(task_list)@,
                    old(task_list_view)@,
                    key,
                    id,
                ),
    {
        let ghost e0 = self@;
        let ghost m0 = task_list@;
        let ghost s0 = task_list_view@;
        let ghost mut wid: u128 = 0;
        let r = match self.mode {
            InputMode::Normal => {
                if !key.ctrl && !key.alt {
                    match key.key {
                        Key::Char('a') => {
                            self.mode = InputMode::Editing;
                            self.task_uuid = None;
                            KeyOutcome { handled: true, changed: false }
                        },
                        Key::Char('m') => {
                            if let Some(task_uuid) = task_list_view.selected_uuid() {
                                self.mode = InputMode::Editing;
                                self.task_uuid = Some(task_uuid);
                                if let Some(task) = task_list.get(task_uuid) {
                                    self.input = chars_of(task.description());
                                    self.index = self.input.len();
                                }
                                KeyOutcome { handled: true, changed: false }
                            } else {
                                KeyOutcome { handled: false, changed: false }
                            }
                        },
                        _ => KeyOutcome { handled: false, changed: false },
                    }
                } else {
                    KeyOutcome { handled: false, changed: false }
                }
            },
            InputMode::Editing => {
                let mut changed = false;
                match key.key {
                    Key::Enter => {
                        changed = self.save_task(task_list, task_list_view);
                        proof {
                            wid = choose|id: u128|
                                (task_list@, task_list_view@) == saved(e0, m0, s0, id);
                            assert(saved(e0, m0, s0, wid).0 == task_list@);
                            assert(changed == (task_list@ != m0 || (e0.task_uuid is Some
                                && has_id(m0.tasks, e0.task_uuid->0))));
                        }
                    },
                    Key::Char(to_insert) => self.enter_char(to_insert),
                    Key::Backspace => self.backspace_delete(),
                    Key::Left => self.cursor_left(),
                    Key::Right => self.cursor_right(),
                    Key::Esc => self.mode = InputMode::Normal,
                    Key::Home => self.index = 0,
                    Key::End => self.index = self.input.len(),
                    Key::Delete => self.delete_at_cursor(),
                    _ => {},
                }
                KeyOutcome { handled: true, changed }
            },
        };
        assert((self@, task_list@, task_list_view@) == edit_after(e0, m0, s0, key, wid));
        assert(r.changed == edit_changes(e0, m0, s0, key, wid));
        r
    }
}

} // verus!
