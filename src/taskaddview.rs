use crate::task::{Task, TaskModel};
use crate::tasklist::{added, TaskList};
use crate::tasklistview::{Key, KeyOutcome};
use crate::textinput::{min_of, text_of, utf8_len, utf8_offset, InputMode, TextInputModel};
use vstd::prelude::*;

verus! {

/// A one-line editor that adds the typed text as a new task.
pub struct TaskAddView {
    input: Vec<char>,
    index: usize,
    mode: InputMode,
}

impl View for TaskAddView {
    type V = TextInputModel;

    closed spec fn view(&self) -> TextInputModel {
        TextInputModel { input: self.input@, index: self.index, mode: self.mode }
    }
}

impl TaskAddView {
    pub fn new() -> (r: TaskAddView)
        ensures
            r@ == (TextInputModel { input: Seq::empty(), index: 0, mode: InputMode::Normal }),
    {
        TaskAddView { input: Vec::new(), index: 0, mode: InputMode::Normal }
    }

    /// The typed text.
    pub fn input_text(&self) -> (r: String)
        ensures
            r@ == self@.input,
    {
        text_of(&self.input)
    }

    /// The cursor position, in characters.
    pub fn cursor(&self) -> (r: usize)
        ensures
            r == self@.index,
    {
        self.index
    }

    pub fn mode(&self) -> (r: InputMode)
        ensures
            r == self@.mode,
    {
        self.mode
    }

    pub fn cursor_left(&mut self)
        ensures
            final(self)@ == old(self)@.moved_left(),
    {
        let cursor_moved_left = self.index.saturating_sub(1);
        self.index = self.clamp_cursor(cursor_moved_left);
    }

    pub fn cursor_right(&mut self)
        ensures
            final(self)@ == old(self)@.moved_right(),
    {
        let len = self.input.len();
        let cursor_moved_right = self.index.saturating_add(1);
        self.index = self.clamp_cursor(cursor_moved_right);
    }

    /// Inserts `new_char` at the cursor and moves the cursor past it.
    pub fn enter_char(&mut self, new_char: char)
        ensures
            final(self)@ == old(self)@.typed(new_char),
    {
        let index = if self.index < self.input.len() {
            self.index
        } else {
            self.input.len()
        };
        self.input.insert(index, new_char);
        self.cursor_right();
    }

    /// The byte offset of the cursor in the text's UTF-8 encoding, or the
    /// text's length in bytes where the cursor lies beyond it.
    pub fn byte_index(&self) -> (r: usize)
        requires
            self@.input.len() <= usize::MAX / 4,
        ensures
            r == utf8_len(self@.input.take(min_of(self@.index as int, self@.input.len() as int))),
    {
        utf8_offset(&self.input, self.index)
    }

    /// `new_cursor_pos`, held within the text.
    pub fn clamp_cursor(&self, new_cursor_pos: usize) -> (r: usize)
        ensures
            r == self@.clamped(new_cursor_pos as int),
    {
        if new_cursor_pos < self.input.len() {
            new_cursor_pos
        } else {
            self.input.len()
        }
    }

    pub fn reset_cursor(&mut self)
        ensures
            final(self)@ == (TextInputModel { index: 0, ..old(self)@ }),
    {
        self.index = 0;
    }

    /// Adds the typed text as a new task, then clears the line and leaves
    /// editing. Whether the list changed, so that it is to be saved.
    pub fn save_task(&mut self, task_list: &mut TaskList) -> (changed: bool)
        requires
            old(task_list)@.wf(),
        ensures
            final(task_list)@.wf(),
            exists|id: u128|
                final(task_list)@ == added(old(task_list)@, TaskModel::fresh(id, old(self)@.input)),
            changed == (final(task_list)@ != old(task_list)@),
            final(self)@ == old(self)@.cleared(),
    {
        let ghost before = task_list@;
        let text = text_of(&self.input);
        let task = Task::new(text.as_str());
        let ghost t = task@;
        let changed = task_list.add(task);
        proof {
            assert(task_list@ == added(before, TaskModel::fresh(t.id, self@.input)));
            if changed {
                assert(task_list@.tasks.len() == before.tasks.len() + 1);
            }
        }
        self.input = Vec::new();
        self.reset_cursor();
        self.mode = InputMode::Normal;
        assert(self@ =~= old(self)@.cleared());
        changed
    }

    /// Deletes the character before the cursor and moves the cursor back
    /// over it.
    pub fn delete_char(&mut self)
        ensures
            final(self)@ == old(self)@.backspaced(),
    {
        if self.index > 0 {
            let current_index = self.index;
            let from_left_to_current = current_index - 1;
            if from_left_to_current < self.input.len() {
                self.input.remove(from_left_to_current);
            }
            self.cursor_left();
        }
    }

    /// Handles a key. In normal mode, `a` starts editing; other keys are left
    /// to the caller. While editing, every key is taken: Enter adds the task,
    /// Esc leaves editing, characters are typed, Backspace deletes, and the
    /// arrows move the cursor.
    pub fn handle_key(&mut self, code: Key, task_list: &mut TaskList) -> (r: KeyOutcome)
        requires
            old(task_list)@.wf(),
        ensures
            final(task_list)@.wf(),
            r.handled == (old(self)@.mode == InputMode::Editing || code == Key::Char('a')),
            r.changed == (final(task_list)@ != old(task_list)@),
            old(self)@.mode == InputMode::Normal ==> final(task_list)@ == old(task_list)@
                && final(self)@ == (if code == Key::Char('a') {
                TextInputModel { mode: InputMode::Editing, ..old(self)@ }
            } else {
                old(self)@
            }),
            old(self)@.mode == InputMode::Editing ==> match code {
                Key::Enter => final(self)@ == old(self)@.cleared() && exists|id: u128|
                    final(task_list)@ == added(old(task_list)@, TaskModel::fresh(id, old(self)@.input)),
                Key::Char(c) => final(self)@ == old(self)@.typed(c),
                Key::Backspace => final(self)@ == old(self)@.backspaced(),
                Key::Left => final(self)@ == old(self)@.moved_left(),
                Key::Right => final(self)@ == old(self)@.moved_right(),
                Key::Esc => final(self)@ == (TextInputModel { mode: InputMode::Normal, ..old(self)@ }),
                _ => final(self)@ == old(self)@,
            },
            old(self)@.mode == InputMode::Editing && code != Key::Enter ==> final(task_list)@ == old(task_list)@,
    {
        match self.mode {
            InputMode::Normal => match code {
                Key::Char('a') => {
                    self.mode = InputMode::Editing;
                    KeyOutcome { handled: true, changed: false }
                },
                _ => KeyOutcome { handled: false, changed: false },
            },
            InputMode::Editing => {
                let mut changed = false;
                match code {
                    Key::Enter => changed = self.save_task(task_list),
                    Key::Char(to_insert) => self.enter_char(to_insert),
                    Key::Backspace => self.delete_char(),
                    Key::Left => self.cursor_left(),
                    Key::Right => self.cursor_right(),
                    Key::Esc => self.mode = InputMode::Normal,
                    _ => {},
                }
                KeyOutcome { handled: true, changed }
            },
        }
    }
}

} // verus!
