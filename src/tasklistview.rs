use crate::task::{line_text, local_now, TaskModel};
use crate::tasklist::{
    has_id, ids_unique, index_of, lemma_filter_keeps_unique, models, reconciled, shown_pred,
    ListModel, TaskList,
};
use vstd::prelude::*;

verus! {

/// A key as the views read it.
#[derive(Clone, Copy)]
pub enum Key {
    Char(char),
    Enter,
    Esc,
    Backspace,
    Delete,
    Left,
    Right,
    Up,
    Down,
    Home,
    End,
    Other,
}

/// A key press: the key, and whether Control or Alt was held.
#[derive(Clone, Copy)]
pub struct KeyPress {
    pub key: Key,
    pub ctrl: bool,
    pub alt: bool,
}

/// What handling a key did: whether the view took it, and whether the task
/// list changed, so that it is to be saved.
#[derive(Clone, Copy)]
pub struct KeyOutcome {
    pub handled: bool,
    pub changed: bool,
}

/// The selection as plain values: the selected task's id, the selected
/// position in the last view, the first position drawn, and the height of the
/// last area drawn into.
pub struct SelectionModel {
    pub selected_uuid: Option<u128>,
    pub selected: Option<usize>,
    pub offset: usize,
    pub viewport: Option<usize>,
}

/// The last position of a view, or 0 for an empty one.
pub open spec fn last_index(v: Seq<TaskModel>) -> usize {
    if v.len() == 0 {
        0
    } else {
        (v.len() - 1) as usize
    }
}

/// Selecting position `index` of view `v`: the position is recorded as it is,
/// the id is that of the task there, or none beyond the view.
pub open spec fn selected_at(s: SelectionModel, v: Seq<TaskModel>, index: usize) -> SelectionModel {
    SelectionModel {
        selected_uuid: if index < v.len() {
            Some(v[index as int].id)
        } else {
            None
        },
        selected: Some(index),
        ..s
    }
}

/// The selection fixed against view `v`: the selected task where `v` still
/// holds it, else the previous position clamped to `v`, else nothing where
/// `v` is empty.
pub open spec fn fixed(s: SelectionModel, v: Seq<TaskModel>) -> SelectionModel {
    if v.len() == 0 {
        SelectionModel { selected_uuid: None, selected: None, ..s }
    } else if s.selected_uuid is Some && has_id(v, s.selected_uuid->0) {
        selected_at(s, v, index_of(v, s.selected_uuid->0) as usize)
    } else {
        let prev = match s.selected {
            Some(i) => i,
            None => last_index(v),
        };
        let index = if prev < last_index(v) {
            prev
        } else {
            last_index(v)
        };
        SelectionModel { offset: 0, ..selected_at(s, v, index) }
    }
}

/// The selection after the view changed with time: fixed where there is a
/// selection; left for the first drawing to choose where there is none.
pub open spec fn refreshed(s: SelectionModel, v: Seq<TaskModel>) -> SelectionModel {
    if s.selected is Some {
        fixed(s, v)
    } else {
        s
    }
}

/// Moving the selection `n` positions up, stopping at the first.
pub open spec fn moved_up(s: SelectionModel, v: Seq<TaskModel>, n: usize) -> SelectionModel {
    match s.selected {
        Some(cur) => if cur > n {
            selected_at(s, v, (cur - n) as usize)
        } else {
            selected_at(s, v, 0)
        },
        None => s,
    }
}

/// Moving the selection `n` positions down, stopping at the last.
pub open spec fn moved_down(s: SelectionModel, v: Seq<TaskModel>, n: usize) -> SelectionModel {
    match s.selected {
        Some(cur) => if cur + n < last_index(v) {
            selected_at(s, v, (cur + n) as usize)
        } else {
            selected_at(s, v, last_index(v))
        },
        None => s,
    }
}

/// The first selection of a view: its last dotted task, else its first.
pub open spec fn initial(s: SelectionModel, v: Seq<TaskModel>) -> SelectionModel {
    if exists|i: int| 0 <= i < v.len() && v[i].dot {
        selected_at(s, v, last_dotted(v) as usize)
    } else {
        selected_at(s, v, 0)
    }
}

/// The position of the last dotted task of `v`.
pub open spec fn last_dotted(v: Seq<TaskModel>) -> int {
    choose|i: int| 0 <= i < v.len() && v[i].dot && forall|k: int| i < k < v.len() ==> !v[k].dot
}

/// Whether the selected task is the last of the view, or no task of the view
/// is selected.
pub open spec fn at_end(s: SelectionModel, m: ListModel) -> bool {
    if s.selected_uuid is Some && has_id(m.shown(), s.selected_uuid->0) {
        index_of(m.shown(), s.selected_uuid->0) == m.shown().len() - 1
    } else {
        true
    }
}

/// Whether a command on the selected task has a task to act on.
pub open spec fn acts_on(s: SelectionModel, m: ListModel) -> bool {
    s.selected_uuid is Some && has_id(m.tasks, s.selected_uuid->0)
}

/// The task with id `id` in the list.
pub open spec fn task_of(m: ListModel, id: u128) -> TaskModel {
    m.tasks[index_of(m.tasks, id)]
}

/// The list with `t` in place of the task with id `id`.
pub open spec fn with_task(m: ListModel, id: u128, t: TaskModel) -> ListModel {
    ListModel { tasks: m.tasks.update(index_of(m.tasks, id), t), ..m }
}

/// The list with the task with id `id` taken out and `t` appended.
pub open spec fn with_task_at_bottom(m: ListModel, id: u128, t: TaskModel) -> ListModel {
    ListModel { tasks: m.tasks.remove(index_of(m.tasks, id)).push(t), ..m }
}

/// The list without the task with id `id`.
pub open spec fn without_task(m: ListModel, id: u128) -> ListModel {
    ListModel { tasks: m.tasks.remove(index_of(m.tasks, id)), ..m }
}

/// A command of the list view.
#[derive(Clone, Copy)]
pub enum ListCommand {
    Start,
    End,
    Up(usize),
    Down(usize),
    ToggleDot,
    Complete,
    RecurDaily,
    Delete,
    SnoozeTomorrow,
    SnoozeSecond,
}

/// The task after `cmd`, for the commands that transform the selected task.
pub open spec fn transformed(cmd: ListCommand, t: TaskModel, now: i64) -> TaskModel {
    match cmd {
        ListCommand::ToggleDot => TaskModel { dot: !t.dot, ..t },
        ListCommand::Complete => t.completed(now),
        ListCommand::RecurDaily => if t.is_recurring() {
            TaskModel { recur_interval_days: None, recur_next: None, ..t }
        } else {
            TaskModel { recur_interval_days: Some(1u64), ..t }
        },
        ListCommand::SnoozeTomorrow => t.snoozed_tomorrow(now),
        ListCommand::SnoozeSecond => t.snoozed_second(now),
        _ => t,
    }
}

/// Whether `cmd` changes the task list.
pub open spec fn changes(cmd: ListCommand, s: SelectionModel, m: ListModel) -> bool {
    match cmd {
        ListCommand::ToggleDot | ListCommand::Complete | ListCommand::RecurDaily
        | ListCommand::Delete | ListCommand::SnoozeTomorrow | ListCommand::SnoozeSecond => acts_on(
            s,
            m,
        ),
        _ => false,
    }
}

/// The selection and the list after `cmd`. A command on the selected task
/// copies it, transforms it, and puts it back: in place where it stays
/// current and dotted or its recurrence toggles, at the bottom where its dot
/// goes or it stops being current. Completing, snoozing and deleting first
/// move the selection down, so that it lands on the next task.
pub open spec fn after(cmd: ListCommand, s: SelectionModel, m: ListModel) -> (
    SelectionModel,
    ListModel,
) {
    let v = m.shown();
    match cmd {
        ListCommand::Start => (selected_at(s, v, 0), m),
        ListCommand::End => (selected_at(s, v, last_index(v)), m),
        ListCommand::Up(n) => (moved_up(s, v, n), m),
        ListCommand::Down(n) => (moved_down(s, v, n), m),
        ListCommand::Delete => if s.selected_uuid is Some {
            let m2 = if has_id(m.tasks, s.selected_uuid->0) {
                without_task(m, s.selected_uuid->0)
            } else {
                m
            };
            (fixed(moved_down(s, v, 1), m2.shown()), m2)
        } else {
            (s, m)
        },
        _ => if acts_on(s, m) {
            let id = s.selected_uuid->0;
            let t = transformed(cmd, task_of(m, id), m.now);
            match cmd {
                ListCommand::ToggleDot => {
                    let m2 = if t.dot {
                        with_task(m, id, t)
                    } else {
                        with_task_at_bottom(m, id, t)
                    };
                    (fixed(s, m2.shown()), m2)
                },
                ListCommand::RecurDaily => {
                    let m2 = with_task(m, id, t);
                    (fixed(s, m2.shown()), m2)
                },
                _ => {
                    let m2 = with_task_at_bottom(m, id, t);
                    (fixed(moved_down(s, v, 1), m2.shown()), m2)
                },
            }
        } else {
            (s, m)
        },
    }
}

/// The command a key press asks the list view for; `page` is the number of
/// positions that a page moves.
pub open spec fn command_for(k: KeyPress, page: usize) -> Option<ListCommand> {
    if !k.ctrl && !k.alt {
        match k.key {
            Key::Char('g') => Some(ListCommand::Start),
            Key::Char('G') => Some(ListCommand::End),
            Key::Char('j') | Key::Down => Some(ListCommand::Down(1)),
            Key::Char('k') | Key::Up => Some(ListCommand::Up(1)),
            Key::Char('.') => Some(ListCommand::ToggleDot),
            Key::Char('d') => Some(ListCommand::Complete),
            Key::Char('r') => Some(ListCommand::RecurDaily),
            Key::Char('x') => Some(ListCommand::Delete),
            Key::Char('z') => Some(ListCommand::SnoozeTomorrow),
            Key::Char('Z') => Some(ListCommand::SnoozeSecond),
            _ => None,
        }
    } else if k.ctrl {
        match k.key {
            Key::Char('u') => Some(ListCommand::Up(page)),
            Key::Char('d') => Some(ListCommand::Down(page)),
            _ => None,
        }
    } else {
        None
    }
}

/// A page: half the height of the last area drawn into, or one position.
pub open spec fn page_of(s: SelectionModel) -> usize {
    match s.viewport {
        Some(h) => (h / 2) as usize,
        None => 1,
    }
}

/// The shown tasks of a list have unique ids.
pub proof fn lemma_shown_unique(m: ListModel)
    requires
        m.wf(),
    ensures
        ids_unique(m.shown()),
{
    lemma_filter_keeps_unique(m.tasks, shown_pred(m.filters, m.now));
}

/// After another task than the selected one is replaced, in place or at the
/// bottom, fixing the selection keeps the selected task, at its new position
/// in the view, provided the view showed it before.
pub proof fn lemma_selection_follows_identity(
    s: SelectionModel,
    m: ListModel,
    other: u128,
    t: TaskModel,
    at_bottom: bool,
)
    requires
        m.wf(),
        m.tasks.len() <= usize::MAX,
        s.selected_uuid is Some,
        has_id(m.shown(), s.selected_uuid->0),
        has_id(m.tasks, other),
        other != s.selected_uuid->0,
        t.id == other,
    ensures
        ({
            let m2 = if at_bottom {
                with_task_at_bottom(m, other, t)
            } else {
                with_task(m, other, t)
            };
            &&& fixed(s, m2.shown()).selected_uuid == s.selected_uuid
            &&& fixed(s, m2.shown()).selected == Some(
                index_of(m2.shown(), s.selected_uuid->0) as usize,
            )
        }),
{
    broadcast use Seq::lemma_filter_contains_rev;

    let a = s.selected_uuid->0;
    let p = shown_pred(m.filters, m.now);
    let v = m.shown();
    let j = index_of(v, a);
    let x = v[j];
    assert(v.contains(x));
    m.tasks.lemma_filter_pred(p, j);
    assert(m.tasks.contains(x));
    let ia = choose|ia: int| 0 <= ia < m.tasks.len() && m.tasks[ia] == x;
    let io = index_of(m.tasks, other);
    assert(ia != io);
    let m2 = if at_bottom {
        with_task_at_bottom(m, other, t)
    } else {
        with_task(m, other, t)
    };
    let k = if at_bottom && ia > io {
        ia - 1
    } else {
        ia
    };
    assert(m2.tasks[k] == x);
    assert(m2.filters == m.filters && m2.now == m.now);
    m2.tasks.lemma_filter_contains(p, k);
    let v2 = m2.shown();
    let q = choose|q: int| 0 <= q < v2.len() && v2[q] == x;
    assert(has_id(v2, a));
    let idx = index_of(v2, a);
    assert(v2[idx].id == a);
    m2.tasks.lemma_filter_len(p);
}

/// Turning a dot off, completing and snoozing put the selected task last,
/// after all the other tasks, which keep their order.
pub proof fn lemma_demotion_order(cmd: ListCommand, s: SelectionModel, m: ListModel)
    requires
        acts_on(s, m),
        match cmd {
            ListCommand::ToggleDot => task_of(m, s.selected_uuid->0).dot,
            ListCommand::Complete | ListCommand::SnoozeTomorrow | ListCommand::SnoozeSecond => true,
            _ => false,
        },
    ensures
        ({
            let id = s.selected_uuid->0;
            let i = index_of(m.tasks, id);
            let r = after(cmd, s, m).1.tasks;
            &&& r.len() == m.tasks.len()
            &&& r[r.len() - 1] == transformed(cmd, task_of(m, id), m.now)
            &&& forall|j: int|
                0 <= j < r.len() - 1 ==> #[trigger] r[j] == m.tasks[if j < i {
                    j
                } else {
                    j + 1
                }]
        }),
{
}

/// The view of the task list with a cursor that follows the selected task by
/// its id.
pub struct TaskListView {
    selected_uuid: Option<u128>,
    selected: Option<usize>,
    offset: usize,
    viewport: Option<usize>,
}

impl View for TaskListView {
    type V = SelectionModel;

    closed spec fn view(&self) -> SelectionModel {
        SelectionModel {
            selected_uuid: self.selected_uuid,
            selected: self.selected,
            offset: self.offset,
            viewport: self.viewport,
        }
    }
}

/// The id of the task at position `index` of the view `shown`.
fn id_at(task_list: &TaskList, shown: &Vec<usize>, index: usize) -> (r: u128)
    requires
        index < shown@.len(),
        shown@.len() == task_list@.shown().len(),
        forall|j: int| 0 <= j < shown@.len() ==> #[trigger] shown@[j] < task_list@.tasks.len(),
        forall|j: int|
            0 <= j < shown@.len() ==> task_list@.tasks[#[trigger] shown@[j] as int]
                == task_list@.shown()[j],
    ensures
        r == task_list@.shown()[index as int].id,
{
    let tasks = task_list.tasks();
    let k = shown[index];
    assert(tasks@[k as int]@ == task_list@.tasks[k as int]);
    tasks[k].uuid()
}

impl TaskListView {
    pub fn new() -> (r: TaskListView)
        ensures
            r@ == (SelectionModel { selected_uuid: None, selected: None, offset: 0, viewport: None }),
    {
        TaskListView { selected_uuid: None, selected: None, offset: 0, viewport: None }
    }

    /// Selects position `index` of the list's view.
    fn select(&mut self, task_list: &TaskList, index: usize)
        ensures
            final(self)@ == selected_at(old(self)@, task_list@.shown(), index),
    {
        let shown = task_list.filtered_tasks();
        if index < shown.len() {
            self.selected_uuid = Some(id_at(task_list, &shown, index));
        } else {
            self.selected_uuid = None;
        }
        self.selected = Some(index);
    }

    /// The id of the selected task.
    pub fn selected_uuid(&self) -> (r: Option<u128>)
        ensures
            r == self@.selected_uuid,
    {
        self.selected_uuid
    }

    /// The selected position, as last recorded.
    pub fn selected_position(&self) -> (r: Option<usize>)
        ensures
            r == self@.selected,
    {
        self.selected
    }

    /// The first position drawn.
    pub fn offset(&self) -> (r: usize)
        ensures
            r == self@.offset,
    {
        self.offset
    }

    /// Records the first position that the last drawing showed.
    pub fn set_offset(&mut self, offset: usize)
        ensures
            final(self)@ == (SelectionModel { offset, ..old(self)@ }),
    {
        self.offset = offset;
    }

    /// Records the height of the area that the last drawing filled.
    pub fn set_viewport(&mut self, height: usize)
        ensures
            final(self)@ == (SelectionModel { viewport: Some(height), ..old(self)@ }),
    {
        self.viewport = Some(height);
    }

    /// The position of the selected task in the list's view, where it is
    /// there.
    pub fn selected_index(&self, task_list: &TaskList) -> (r: Option<usize>)
        requires
            task_list@.wf(),
        ensures
            r == (if self@.selected_uuid is Some && has_id(
                task_list@.shown(),
                self@.selected_uuid->0,
            ) {
                Some(index_of(task_list@.shown(), self@.selected_uuid->0) as usize)
            } else {
                None::<usize>
            }),
    {
        let ghost v = task_list@.shown();
        proof {
            lemma_shown_unique(task_list@);
        }
        match self.selected_uuid {
            None => None,
            Some(uuid) => {
                let shown = task_list.filtered_tasks();
                let mut j: usize = 0;
                while j < shown.len()
                    invariant
                        v == task_list@.shown(),
                        ids_unique(v),
                        self@.selected_uuid == Some(uuid),
                        j <= shown@.len(),
                        shown@.len() == v.len(),
                        forall|k: int| 0 <= k < shown@.len() ==> #[trigger] shown@[k] < task_list@.tasks.len(),
                        forall|k: int|
                            0 <= k < shown@.len() ==> task_list@.tasks[#[trigger] shown@[k] as int]
                                == v[k],
                        forall|k: int| 0 <= k < j ==> v[k].id != uuid,
                    decreases shown@.len() - j,
                {
                    if id_at(task_list, &shown, j) == uuid {
                        proof {
                            assert(v[j as int].id == uuid);
                            assert(has_id(v, uuid));
                            let i = index_of(v, uuid);
                            assert(v[i].id == uuid);
                            assert(i == j);
                        }
                        return Some(j);
                    }
                    j += 1;
                }
                None
            },
        }
    }

    /// Fixes the selection after the list or its filters changed: it follows
    /// the selected task where the view still holds it, else keeps the
    /// previous position clamped to the view, else clears where the view is
    /// empty.
    pub fn fix_selection(&mut self, task_list: &TaskList)
        requires
            task_list@.wf(),
        ensures
            final(self)@ == fixed(old(self)@, task_list@.shown()),
    {
        let count = task_list.filtered_tasks().len();
        if count == 0 {
            self.selected_uuid = None;
            self.selected = None;
            return;
        }
        let last_index = count - 1;
        if let Some(index) = self.selected_index(task_list) {
            self.select(task_list, index);
            return;
        }
        let prev = match self.selected {
            Some(i) => i,
            None => last_index,
        };
        let index = if prev < last_index {
            prev
        } else {
            last_index
        };
        // The selected task has left the view: draw the view from its start.
        self.offset = 0;
        self.select(task_list, index);
    }

    pub fn move_up_n(&mut self, task_list: &TaskList, n: usize)
        ensures
            final(self)@ == moved_up(old(self)@, task_list@.shown(), n),
    {
        if let Some(current) = self.selected {
            if current > n {
                self.select(task_list, current - n);
            } else {
                self.select(task_list, 0);
            }
        }
    }

    pub fn move_up(&mut self, task_list: &TaskList)
        ensures
            final(self)@ == moved_up(old(self)@, task_list@.shown(), 1),
    {
        self.move_up_n(task_list, 1);
    }

    pub fn move_down_n(&mut self, task_list: &TaskList, n: usize)
        ensures
            final(self)@ == moved_down(old(self)@, task_list@.shown(), n),
    {
        if let Some(current) = self.selected {
            let count = task_list.filtered_tasks().len();
            let last_index: usize = if count == 0 {
                0
            } else {
                count - 1
            };
            if n < last_index && current < last_index - n {
                self.select(task_list, current + n);
            } else {
                self.select(task_list, last_index);
            }
        }
    }

    pub fn move_down(&mut self, task_list: &TaskList)
        ensures
            final(self)@ == moved_down(old(self)@, task_list@.shown(), 1),
    {
        self.move_down_n(task_list, 1);
    }

    pub fn move_start(&mut self, task_list: &TaskList)
        ensures
            final(self)@ == selected_at(old(self)@, task_list@.shown(), 0),
    {
        self.select(task_list, 0);
    }

    pub fn move_end(&mut self, task_list: &TaskList)
        ensures
            final(self)@ == selected_at(old(self)@, task_list@.shown(), last_index(task_list@.shown())),
    {
        let count = task_list.filtered_tasks().len();
        let last_index: usize = if count == 0 {
            0
        } else {
            count - 1
        };
        self.select(task_list, last_index);
    }

    /// Whether the selected task is the last of the view, or no task of the
    /// view is selected.
    pub fn is_at_end(&self, task_list: &TaskList) -> (r: bool)
        requires
            task_list@.wf(),
        ensures
            r == at_end(self@, task_list@),
    {
        match self.selected_index(task_list) {
            Some(index) => {
                let count = task_list.filtered_tasks().len();
                count > 0 && index == count - 1
            },
            None => true,
        }
    }
    /// Runs the list's reconciliation at `now`, as `TaskList::pre_render_at`
    /// does, then fixes the selection against the view as it now stands,
    /// where there is one. Whether the list is to be saved.
    pub fn pre_render_at(&mut self, task_list: &mut TaskList, now: i64) -> (changed: bool)
        requires
            old(task_list)@.wf(),
        ensures
            final(task_list)@.wf(),
            final(task_list)@ == (ListModel {
                tasks: reconciled(old(task_list)@.tasks, true, false, now),
                filters: old(task_list)@.filters,
                now,
            }),
            final(self)@ == refreshed(old(self)@, final(task_list)@.shown()),
            changed == exists|i: int|
                0 <= i < old(task_list)@.tasks.len() && #[trigger] old(
                    task_list,
                )@.tasks[i].snooze_expiring(now),
    {
        let changed = task_list.pre_render_at(now);
        if self.selected.is_some() {
            self.fix_selection(task_list);
        }
        changed
    }

    /// Runs the list's reconciliation now, then fixes the selection, as
    /// `pre_render_at` does. Must run before each drawing. Whether the list
    /// is to be saved.
    pub fn pre_render(&mut self, task_list: &mut TaskList) -> (changed: bool)
        requires
            old(task_list)@.wf(),
        ensures
            final(task_list)@.wf(),
            final(task_list)@ == (ListModel {
                tasks: reconciled(old(task_list)@.tasks, true, false, final(task_list)@.now),
                filters: old(task_list)@.filters,
                now: final(task_list)@.now,
            }),
            final(self)@ == refreshed(old(self)@, final(task_list)@.shown()),
    {
        self.pre_render_at(task_list, local_now())
    }

    /// Prepares a drawing of the view: selects a first task where none was
    /// selected (the last dotted task, else the first), and returns the line
    /// of each shown task, in order.
    pub fn render_lines(&mut self, task_list: &TaskList) -> (r: Vec<String>)
        ensures
            final(self)@ == (if old(self)@.selected is None && task_list@.shown().len() > 0 {
                initial(old(self)@, task_list@.shown())
            } else {
                old(self)@
            }),
            r@.len() == task_list@.shown().len(),
            forall|j: int| 0 <= j < r@.len() ==> #[trigger] r@[j]@ == line_text(task_list@.shown()[j]),
    {
        let ghost v = task_list@.shown();
        let shown = task_list.filtered_tasks();
        let tasks = task_list.tasks();
        if self.selected.is_none() && shown.len() > 0 {
            let mut j = shown.len();
            let mut found: Option<usize> = None;
            while j > 0 && found.is_none()
                invariant
                    j <= shown@.len(),
                    shown@.len() == v.len(),
                    v == task_list@.shown(),
                    models(tasks@) == task_list@.tasks,
                    forall|k: int| 0 <= k < shown@.len() ==> #[trigger] shown@[k] < task_list@.tasks.len(),
                    forall|k: int|
                        0 <= k < shown@.len() ==> task_list@.tasks[#[trigger] shown@[k] as int]
                            == v[k],
                    found matches Some(p) ==> p < v.len() && v[p as int].dot && forall|k: int|
                        p < k < v.len() ==> !v[k].dot,
                    found is None ==> forall|k: int| j <= k < v.len() ==> !v[k].dot,
                decreases j,
            {
                j -= 1;
                let k = shown[j];
                assert(tasks@[k as int]@ == v[j as int]);
                if tasks[k].dot() {
                    found = Some(j);
                }
            }
            match found {
                Some(p) => {
                    proof {
                        let q = last_dotted(v);
                        assert(v[q].dot);
                        if q < p {
                        } else if q > p {
                        }
                    }
                    self.select(task_list, p);
                },
                None => self.select(task_list, 0),
            }
        }
        let mut lines: Vec<String> = Vec::new();
        let mut i: usize = 0;
        while i < shown.len()
            invariant
                i <= shown@.len(),
                shown@.len() == v.len(),
                v == task_list@.shown(),
                models(tasks@) == task_list@.tasks,
                forall|k: int| 0 <= k < shown@.len() ==> #[trigger] shown@[k] < task_list@.tasks.len(),
                forall|k: int|
                    0 <= k < shown@.len() ==> task_list@.tasks[#[trigger] shown@[k] as int] == v[k],
                lines@.len() == i,
                forall|k: int| 0 <= k < i ==> #[trigger] lines@[k]@ == line_text(v[k]),
            decreases shown@.len() - i,
        {
            let k = shown[i];
            assert(tasks@[k as int]@ == v[i as int]);
            lines.push(tasks[k].display_line());
            i += 1;
        }
        lines
    }

    /// Toggles the dot of the selected task: a task that gains its dot stays
    /// in place, one that loses it moves to the bottom. Whether the list
    /// changed, so that it is to be saved.
    pub fn toggle_dot(&mut self, task_list: &mut TaskList) -> (changed: bool)
        requires
            old(task_list)@.wf(),
        ensures
            final(task_list)@.wf(),
            (final(self)@, final(task_list)@) == after(ListCommand::ToggleDot, old(self)@, old(task_list)@),
            changed == changes(ListCommand::ToggleDot, old(self)@, old(task_list)@),
    {
        if let Some(selected_uuid) = self.selected_uuid {
            if let Some(task) = task_list.get(selected_uuid) {
                let mut task = task.duplicate();
                task.toggle_dot();
                if task.dot() {
                    task_list.replace(selected_uuid, task);
                } else {
                    task_list.replace_at_bottom(selected_uuid, task);
                }
                self.fix_selection(task_list);
                return true;
            }
        }
        false
    }

    /// Deletes the selected task, after moving the selection down. Whether
    /// the list changed, so that it is to be saved.
    pub fn delete(&mut self, task_list: &mut TaskList) -> (changed: bool)
        requires
            old(task_list)@.wf(),
        ensures
            final(task_list)@.wf(),
            (final(self)@, final(task_list)@) == after(ListCommand::Delete, old(self)@, old(task_list)@),
            changed == changes(ListCommand::Delete, old(self)@, old(task_list)@),
    {
        if let Some(selected_uuid) = self.selected_uuid {
            self.move_down(task_list);
            let removed = task_list.remove(selected_uuid);
            self.fix_selection(task_list);
            removed
        } else {
            false
        }
    }

    /// Completes the selected task at the list's instant and moves it to the
    /// bottom, after moving the selection down. Whether the list changed, so
    /// that it is to be saved.
    pub fn complete(&mut self, task_list: &mut TaskList) -> (changed: bool)
        requires
            old(task_list)@.wf(),
        ensures
            final(task_list)@.wf(),
            (final(self)@, final(task_list)@) == after(ListCommand::Complete, old(self)@, old(task_list)@),
            changed == changes(ListCommand::Complete, old(self)@, old(task_list)@),
    {
        if let Some(selected_uuid) = self.selected_uuid {
            if let Some(task) = task_list.get(selected_uuid) {
                let mut task = task.duplicate();
                task.complete_at(task_list.now());
                // The next task of the view is selected once this one leaves it.
                self.move_down(task_list);
                task_list.replace_at_bottom(selected_uuid, task);
                self.fix_selection(task_list);
                return true;
            }
        }
        false
    }

    /// Makes the selected task recur daily, or ends its recurrence where it
    /// recurs; it stays in place. Whether the list changed, so that it is to
    /// be saved.
    pub fn recur_daily(&mut self, task_list: &mut TaskList) -> (changed: bool)
        requires
            old(task_list)@.wf(),
        ensures
            final(task_list)@.wf(),
            (final(self)@, final(task_list)@) == after(ListCommand::RecurDaily, old(self)@, old(task_list)@),
            changed == changes(ListCommand::RecurDaily, old(self)@, old(task_list)@),
    {
        if let Some(selected_uuid) = self.selected_uuid {
            if let Some(task) = task_list.get(selected_uuid) {
                let mut task = task.duplicate();
                if task.is_recurring() {
                    task.clear_recur();
                } else {
                    task.set_recur_daily();
                }
                task_list.replace(selected_uuid, task);
                self.fix_selection(task_list);
                return true;
            }
        }
        false
    }

    /// Snoozes the selected task until the next 05:00 after the list's
    /// instant and moves it to the bottom, after moving the selection down.
    /// Whether the list changed, so that it is to be saved.
    pub fn snooze_tomorrow(&mut self, task_list: &mut TaskList) -> (changed: bool)
        requires
            old(task_list)@.wf(),
        ensures
            final(task_list)@.wf(),
            (final(self)@, final(task_list)@) == after(ListCommand::SnoozeTomorrow, old(self)@, old(task_list)@),
            changed == changes(ListCommand::SnoozeTomorrow, old(self)@, old(task_list)@),
    {
        if let Some(selected_uuid) = self.selected_uuid {
            if let Some(task) = task_list.get(selected_uuid) {
                let mut task = task.duplicate();
                task.snooze_tomorrow_at(task_list.now());
                self.move_down(task_list);
                task_list.replace_at_bottom(selected_uuid, task);
                self.fix_selection(task_list);
                return true;
            }
        }
        false
    }

    /// Snoozes the selected task for a second after the list's instant and
    /// moves it to the bottom, after moving the selection down. Whether the
    /// list changed, so that it is to be saved.
    pub fn snooze_1s(&mut self, task_list: &mut TaskList) -> (changed: bool)
        requires
            old(task_list)@.wf(),
        ensures
            final(task_list)@.wf(),
            (final(self)@, final(task_list)@) == after(ListCommand::SnoozeSecond, old(self)@, old(task_list)@),
            changed == changes(ListCommand::SnoozeSecond, old(self)@, old(task_list)@),
    {
        if let Some(selected_uuid) = self.selected_uuid {
            if let Some(task) = task_list.get(selected_uuid) {
                let mut task = task.duplicate();
                task.snooze_1s_at(task_list.now());
                self.move_down(task_list);
                task_list.replace_at_bottom(selected_uuid, task);
                self.fix_selection(task_list);
                return true;
            }
        }
        false
    }

    /// Handles a key of the list view. Keys without Control or Alt move the
    /// selection or act on the selected task; Control with `u` or `d` moves a
    /// page. Keys with Alt alone are taken and ignored; others are left to
    /// the caller.
    pub fn handle_key(&mut self, key: KeyPress, tasks: &mut TaskList) -> (r: KeyOutcome)
        requires
            old(tasks)@.wf(),
        ensures
            final(tasks)@.wf(),
            r.handled == (command_for(key, page_of(old(self)@)) is Some || (key.alt && !key.ctrl)),
            match command_for(key, page_of(old(self)@)) {
                Some(cmd) => (final(self)@, final(tasks)@) == after(cmd, old(self)@, old(tasks)@)
                    && r.changed == changes(cmd, old(self)@, old(tasks)@),
                None => final(self)@ == old(self)@ && final(tasks)@ == old(tasks)@ && !r.changed,
            },
    {
        let page_height: usize = match self.viewport {
            Some(height) => height / 2,
            None => 1,
        };
        let mut changed = false;
        if !key.ctrl && !key.alt {
            match key.key {
                Key::Char('g') => self.move_start(tasks),
                Key::Char('G') => self.move_end(tasks),
                Key::Char('j') | Key::Down => self.move_down(tasks),
                Key::Char('k') | Key::Up => self.move_up(tasks),
                Key::Char('.') => changed = self.toggle_dot(tasks),
                Key::Char('d') => changed = self.complete(tasks),
                Key::Char('r') => changed = self.recur_daily(tasks),
                Key::Char('x') => changed = self.delete(tasks),
                Key::Char('z') => changed = self.snooze_tomorrow(tasks),
                Key::Char('Z') => changed = self.snooze_1s(tasks),
                _ => return KeyOutcome { handled: false, changed: false },
            }
        } else if key.ctrl {
            match key.key {
                Key::Char('u') => self.move_up_n(tasks, page_height),
                Key::Char('d') => self.move_down_n(tasks, page_height),
                _ => return KeyOutcome { handled: false, changed: false },
            }
        }
        KeyOutcome { handled: true, changed }
    }
}

} // verus!
