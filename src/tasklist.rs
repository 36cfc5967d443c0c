use crate::task::{local_now, Task, TaskModel};
use vstd::prelude::*;

verus! {

broadcast use vstd::seq_lib::group_seq_properties;

/// The display options: which tasks the list shows. Not persisted.
#[derive(Clone, Copy)]
pub struct Filters {
    /// Show completed tasks too.
    pub show_completed: bool,
    /// Hide tasks that wait out a recurrence cooldown or a snooze.
    pub future_filter: bool,
    /// Show dotted tasks only.
    pub show_dotted_only: bool,
}

impl Filters {
    /// The options a list starts with: completed tasks hidden, tasks that are
    /// not current hidden, dotted and undotted tasks shown.
    pub open spec fn initial() -> Filters {
        Filters { show_completed: false, future_filter: true, show_dotted_only: false }
    }
}

/// Whether the options show task `t` at instant `now`.
pub open spec fn shows(f: Filters, now: i64, t: TaskModel) -> bool {
    &&& (f.show_completed || !t.is_complete())
    &&& (!f.future_filter || !t.not_current(now))
    &&& (!f.show_dotted_only || t.dot)
}

pub open spec fn shown_pred(f: Filters, now: i64) -> spec_fn(TaskModel) -> bool {
    |t: TaskModel| shows(f, now, t)
}

/// No two tasks share an id.
pub open spec fn ids_unique(s: Seq<TaskModel>) -> bool {
    forall|i: int, j: int| 0 <= i < s.len() && 0 <= j < s.len() && i != j ==> s[i].id != s[j].id
}

pub open spec fn has_id(s: Seq<TaskModel>, id: u128) -> bool {
    exists|i: int| 0 <= i < s.len() && s[i].id == id
}

/// The position of the task with id `id`.
pub open spec fn index_of(s: Seq<TaskModel>, id: u128) -> int {
    choose|i: int| 0 <= i < s.len() && s[i].id == id
}

/// Whether a reconciliation pass that looks at expired snoozes (`snoozed`)
/// and at recurring tasks (`recurring`) demotes task `t` at `now`.
pub open spec fn demotes(snoozed: bool, recurring: bool, now: i64, t: TaskModel) -> bool {
    (snoozed && t.snooze_expiring(now)) || (recurring && t.is_recurring())
}

pub open spec fn demote_pred(snoozed: bool, recurring: bool, now: i64) -> spec_fn(TaskModel) -> bool {
    |t: TaskModel| demotes(snoozed, recurring, now, t)
}

pub open spec fn keep_pred(snoozed: bool, recurring: bool, now: i64) -> spec_fn(TaskModel) -> bool {
    |t: TaskModel| !demotes(snoozed, recurring, now, t)
}

/// A demoted task loses its dot and its snooze.
pub open spec fn reset(t: TaskModel) -> TaskModel {
    TaskModel { dot: false, snooze_until: None, ..t }
}

pub open spec fn reset_all(s: Seq<TaskModel>) -> Seq<TaskModel> {
    s.map_values(|t: TaskModel| reset(t))
}

/// The tasks after a reconciliation pass: those it keeps, in their order,
/// then those it demotes, in their order, each reset.
pub open spec fn reconciled(s: Seq<TaskModel>, snoozed: bool, recurring: bool, now: i64) -> Seq<
    TaskModel,
> {
    s.filter(keep_pred(snoozed, recurring, now)) + reset_all(
        s.filter(demote_pred(snoozed, recurring, now)),
    )
}

/// The list as plain values: its tasks in order, its display options, and the
/// instant of the last reconciliation, at which the view is taken.
pub struct ListModel {
    pub tasks: Seq<TaskModel>,
    pub filters: Filters,
    pub now: i64,
}

impl ListModel {
    pub open spec fn wf(self) -> bool {
        ids_unique(self.tasks)
    }

    /// The tasks the list shows, in order.
    pub open spec fn shown(self) -> Seq<TaskModel> {
        self.tasks.filter(shown_pred(self.filters, self.now))
    }
}

/// Why a list could not be restored.
pub enum LoadError {
    /// The stored list could not be read.
    Unreadable,
    /// The stored list could not be decoded.
    Undecodable,
    /// Two stored tasks share an id.
    DuplicateId,
}

/// Filtering keeps ids unique, and keeps only tasks of the sequence.
pub proof fn lemma_filter_keeps_unique(s: Seq<TaskModel>, p: spec_fn(TaskModel) -> bool)
    requires
        ids_unique(s),
    ensures
        ids_unique(s.filter(p)),
        forall|x: TaskModel| s.filter(p).contains(x) ==> s.contains(x),
    decreases s.len(),
{
    broadcast use Seq::lemma_filter_contains_rev;

    if s.len() > 0 {
        let r = s.drop_last();
        let last = s.last();
        assert(s =~= r.push(last));
        lemma_filter_keeps_unique(r, p);
        r.lemma_filter_push(last, p);
        let f = r.filter(p);
        if p(last) {
            assert forall|k: int| 0 <= k < f.len() implies f[k].id != last.id by {
                assert(f.contains(f[k]));
                let j = choose|j: int| 0 <= j < r.len() && r[j] == f[k];
                assert(s[j] == r[j]);
            }
            assert(ids_unique(f.push(last)));
        }
    }
}

/// A reconciliation pass keeps ids unique.
pub proof fn lemma_reconciled_unique(s: Seq<TaskModel>, snoozed: bool, recurring: bool, now: i64)
    requires
        ids_unique(s),
    ensures
        ids_unique(reconciled(s, snoozed, recurring, now)),
{
    broadcast use Seq::lemma_filter_pred;

    let kp = keep_pred(snoozed, recurring, now);
    let dp = demote_pred(snoozed, recurring, now);
    let a = s.filter(kp);
    let b = s.filter(dp);
    lemma_filter_keeps_unique(s, kp);
    lemma_filter_keeps_unique(s, dp);
    let rb = reset_all(b);
    let out = a + rb;
    assert forall|k: int, m: int| 0 <= k < a.len() && 0 <= m < b.len() implies a[k].id != b[
        m].id by {
        assert(a.contains(a[k]));
        assert(b.contains(b[m]));
        assert(s.contains(a[k]));
        assert(s.contains(b[m]));
        let p1 = choose|p1: int| 0 <= p1 < s.len() && s[p1] == a[k];
        let p2 = choose|p2: int| 0 <= p2 < s.len() && s[p2] == b[m];
        assert(kp(a[k]));
        assert(dp(b[m]));
        if p1 == p2 {
            assert(demotes(snoozed, recurring, now, a[k]));
        }
    }
    assert forall|i: int, j: int|
        0 <= i < out.len() && 0 <= j < out.len() && i != j implies out[i].id != out[j].id by {
        if i < a.len() && j < a.len() {
        } else if i >= a.len() && j >= a.len() {
            assert(out[i].id == b[i - a.len()].id);
            assert(out[j].id == b[j - a.len()].id);
        } else if i < a.len() {
            assert(out[j].id == b[j - a.len()].id);
        } else {
            assert(out[i].id == b[i - a.len()].id);
        }
    }
}

/// The list after adding `t`: unchanged where a task with its id is there,
/// else with `t` appended.
pub open spec fn added(m: ListModel, t: TaskModel) -> ListModel {
    if has_id(m.tasks, t.id) {
        m
    } else {
        ListModel { tasks: m.tasks.push(t), ..m }
    }
}

/// The list after adding each of `ts`, in order.
pub open spec fn added_all(m: ListModel, ts: Seq<TaskModel>) -> ListModel
    decreases ts.len(),
{
    if ts.len() == 0 {
        m
    } else {
        added(added_all(m, ts.drop_last()), ts.last())
    }
}

/// Adding a task keeps ids unique.
pub proof fn lemma_add_keeps_ids_unique(m: ListModel, t: TaskModel)
    requires
        m.wf(),
    ensures
        added(m, t).wf(),
{
    if !has_id(m.tasks, t.id) {
        let r = m.tasks.push(t);
        assert forall|i: int, j: int|
            0 <= i < r.len() && 0 <= j < r.len() && i != j implies r[i].id != r[j].id by {
            if i == m.tasks.len() as int {
                assert(m.tasks[j].id != t.id);
            } else if j == m.tasks.len() as int {
                assert(m.tasks[i].id != t.id);
            }
        }
    }
}

/// Whatever tasks are added, one after another, no two tasks of the list
/// ever share an id.
pub proof fn lemma_adds_keep_ids_unique(m: ListModel, ts: Seq<TaskModel>)
    requires
        m.wf(),
    ensures
        added_all(m, ts).wf(),
    decreases ts.len(),
{
    if ts.len() > 0 {
        lemma_adds_keep_ids_unique(m, ts.drop_last());
        lemma_add_keeps_ids_unique(added_all(m, ts.drop_last()), ts.last());
    }
}

/// With completed tasks hidden, tasks that are not current hidden, and
/// dotted tasks only, the list shows exactly those of its tasks that are
/// incomplete, current and dotted.
pub proof fn lemma_focus_filters(m: ListModel)
    requires
        m.filters == (Filters { show_completed: false, future_filter: true, show_dotted_only: true }),
    ensures
        forall|i: int|
            0 <= i < m.tasks.len() ==> (m.shown().contains(#[trigger] m.tasks[i]) <==> (
            !m.tasks[i].is_complete() && !m.tasks[i].not_current(m.now) && m.tasks[i].dot)),
        forall|x: TaskModel| m.shown().contains(x) ==> m.tasks.contains(x),
{
    broadcast use Seq::lemma_filter_contains_rev;

    let p = shown_pred(m.filters, m.now);
    assert forall|i: int| 0 <= i < m.tasks.len() implies (m.shown().contains(
        #[trigger] m.tasks[i],
    ) <==> (!m.tasks[i].is_complete() && !m.tasks[i].not_current(m.now) && m.tasks[i].dot)) by {
        if m.shown().contains(m.tasks[i]) {
            let j = choose|j: int| 0 <= j < m.shown().len() && m.shown()[j] == m.tasks[i];
            m.tasks.lemma_filter_pred(p, j);
        }
        if p(m.tasks[i]) {
            m.tasks.lemma_filter_contains(p, i);
        }
    }
}

/// Filtering keeps order: two tasks that pass, one before the other, stay
/// one before the other.
pub proof fn lemma_filter_keeps_order(s: Seq<TaskModel>, p: spec_fn(TaskModel) -> bool, i: int, j: int)
    requires
        0 <= i < j < s.len(),
        p(s[i]),
        p(s[j]),
    ensures
        exists|a: int, b: int|
            0 <= a < b < s.filter(p).len() && s.filter(p)[a] == s[i] && s.filter(p)[b] == s[j],
    decreases s.len(),
{
    let r = s.drop_last();
    assert(s =~= r.push(s.last()));
    r.lemma_filter_push(s.last(), p);
    let f = r.filter(p);
    if j < s.len() - 1 {
        lemma_filter_keeps_order(r, p, i, j);
        let (a, b) = choose|a: int, b: int|
            0 <= a < b < f.len() && f[a] == r[i] && f[b] == r[j];
        assert(s.filter(p)[a] == s[i] && s.filter(p)[b] == s[j]);
    } else {
        r.lemma_filter_contains(p, i);
        let a = choose|a: int| 0 <= a < f.len() && f[a] == r[i];
        assert(s.filter(p)[a] == s[i] && s.filter(p)[f.len() as int] == s[j]);
    }
}

/// A reconciliation pass puts every task that it demotes after every task
/// that it keeps, and keeps the order among the tasks it keeps and among the
/// tasks it demotes.
pub proof fn lemma_reconcile_order(
    s: Seq<TaskModel>,
    snoozed: bool,
    recurring: bool,
    now: i64,
    i: int,
    j: int,
)
    requires
        0 <= i < s.len(),
        0 <= j < s.len(),
    ensures
        !demotes(snoozed, recurring, now, s[i]) && demotes(snoozed, recurring, now, s[j])
            ==> exists|a: int, b: int|
            0 <= a < b < reconciled(s, snoozed, recurring, now).len() && reconciled(
                s,
                snoozed,
                recurring,
                now,
            )[a] == s[i] && reconciled(s, snoozed, recurring, now)[b] == reset(s[j]),
        i < j && !demotes(snoozed, recurring, now, s[i]) && !demotes(snoozed, recurring, now, s[j])
            ==> exists|a: int, b: int|
            0 <= a < b < reconciled(s, snoozed, recurring, now).len() && reconciled(
                s,
                snoozed,
                recurring,
                now,
            )[a] == s[i] && reconciled(s, snoozed, recurring, now)[b] == s[j],
        i < j && demotes(snoozed, recurring, now, s[i]) && demotes(snoozed, recurring, now, s[j])
            ==> exists|a: int, b: int|
            0 <= a < b < reconciled(s, snoozed, recurring, now).len() && reconciled(
                s,
                snoozed,
                recurring,
                now,
            )[a] == reset(s[i]) && reconciled(s, snoozed, recurring, now)[b] == reset(s[j]),
{
    let kp = keep_pred(snoozed, recurring, now);
    let dp = demote_pred(snoozed, recurring, now);
    let ka = s.filter(kp);
    let da = s.filter(dp);
    let r = reconciled(s, snoozed, recurring, now);
    if !demotes(snoozed, recurring, now, s[i]) && demotes(snoozed, recurring, now, s[j]) {
        s.lemma_filter_contains(kp, i);
        s.lemma_filter_contains(dp, j);
        let a = choose|a: int| 0 <= a < ka.len() && ka[a] == s[i];
        let b = choose|b: int| 0 <= b < da.len() && da[b] == s[j];
        assert(r[a] == s[i]);
        assert(r[ka.len() + b] == reset(s[j]));
    }
    if i < j && !demotes(snoozed, recurring, now, s[i]) && !demotes(
        snoozed,
        recurring,
        now,
        s[j],
    ) {
        lemma_filter_keeps_order(s, kp, i, j);
        let (a, b) = choose|a: int, b: int|
            0 <= a < b < ka.len() && ka[a] == s[i] && ka[b] == s[j];
        assert(r[a] == s[i] && r[b] == s[j]);
    }
    if i < j && demotes(snoozed, recurring, now, s[i]) && demotes(snoozed, recurring, now, s[j]) {
        lemma_filter_keeps_order(s, dp, i, j);
        let (a, b) = choose|a: int, b: int|
            0 <= a < b < da.len() && da[a] == s[i] && da[b] == s[j];
        assert(r[ka.len() + a] == reset(s[i]) && r[ka.len() + b] == reset(s[j]));
    }
}

/// Replacing a task at the bottom, whatever the replacement: it comes last,
/// and every other task keeps its relative order before it.
pub proof fn lemma_replace_at_bottom_order(m: ListModel, id: u128, t: TaskModel)
    requires
        has_id(m.tasks, id),
    ensures
        ({
            let i = index_of(m.tasks, id);
            let r = m.tasks.remove(i).push(t);
            &&& r.len() == m.tasks.len()
            &&& r[r.len() - 1] == t
            &&& forall|j: int|
                0 <= j < r.len() - 1 ==> #[trigger] r[j] == m.tasks[if j < i {
                    j
                } else {
                    j + 1
                }]
        }),
{
    assert(0 <= index_of(m.tasks, id) < m.tasks.len());
}

/// The ordered, persisted sequence of tasks, with its display options.
pub struct TaskList {
    tasks: Vec<Task>,
    filters: Filters,
    now: i64,
}

pub open spec fn models(v: Seq<Task>) -> Seq<TaskModel> {
    v.map_values(|t: Task| t@)
}

impl View for TaskList {
    type V = ListModel;

    closed spec fn view(&self) -> ListModel {
        ListModel { tasks: models(self.tasks@), filters: self.filters, now: self.now }
    }
}


/// Whether no two of the tasks share an id.
fn ids_distinct(tasks: &Vec<Task>) -> (r: bool)
    ensures
        r == ids_unique(models(tasks@)),
{
    let ghost s = models(tasks@);
    let mut i: usize = 0;
    while i < tasks.len()
        invariant
            i <= tasks.len(),
            s == models(tasks@),
            forall|a: int, b: int|
                0 <= a < i && 0 <= b < s.len() && a != b ==> s[a].id != s[b].id,
        decreases tasks.len() - i,
    {
        let mut j: usize = 0;
        while j < tasks.len()
            invariant
                i < tasks.len(),
                j <= tasks.len(),
                s == models(tasks@),
                forall|a: int, b: int|
                    0 <= a < i && 0 <= b < s.len() && a != b ==> s[a].id != s[b].id,
                forall|b: int| 0 <= b < j && b != i ==> s[i as int].id != s[b].id,
            decreases tasks.len() - j,
        {
            if j != i && tasks[i].uuid() == tasks[j].uuid() {
                assert(s[i as int].id == s[j as int].id);
                return false;
            }
            j += 1;
        }
        i += 1;
    }
    true
}

impl TaskList {
    /// An empty list whose view is taken at `now`.
    pub fn new_at(now: i64) -> (r: TaskList)
        ensures
            r@ == (ListModel { tasks: Seq::empty(), filters: Filters::initial(), now }),
            r@.wf(),
    {
        let r = TaskList {
            tasks: Vec::new(),
            filters: Filters { show_completed: false, future_filter: true, show_dotted_only: false },
            now,
        };
        assert(r@.tasks =~= Seq::empty());
        r
    }

    /// An empty list whose view is taken now.
    pub fn new() -> (r: TaskList)
        ensures
            r@.tasks.len() == 0,
            r@.filters == Filters::initial(),
            r@.wf(),
    {
        TaskList::new_at(local_now())
    }

    /// The list restored from stored tasks at `now`, after a reconciliation
    /// pass over expired snoozes and recurring tasks; with it, whether that
    /// pass changed anything, so that the list is to be saved.
    pub fn load_at(tasks: Vec<Task>, now: i64) -> (r: Result<(TaskList, bool), LoadError>)
        ensures
            r is Ok <==> ids_unique(models(tasks@)),
            r matches Err(e) ==> e is DuplicateId,
            r matches Ok((l, changed)) ==> {
                &&& l@ == (ListModel {
                    tasks: reconciled(models(tasks@), true, true, now),
                    filters: Filters::initial(),
                    now,
                })
                &&& l@.wf()
                &&& changed == exists|i: int|
                    0 <= i < tasks@.len() && demotes(true, true, now, #[trigger] models(tasks@)[i])
            },
    {
        if !ids_distinct(&tasks) {
            return Err(LoadError::DuplicateId);
        }
        let mut list = TaskList {
            tasks,
            filters: Filters { show_completed: false, future_filter: true, show_dotted_only: false },
            now,
        };
        let changed = list.reset_task_positions(true, true);
        Ok((list, changed))
    }

    /// The list restored from stored tasks now, as `load_at` does.
    pub fn load(tasks: Vec<Task>) -> (r: Result<(TaskList, bool), LoadError>)
        ensures
            r is Ok <==> ids_unique(models(tasks@)),
            r matches Err(e) ==> e is DuplicateId,
            r matches Ok((l, changed)) ==> {
                &&& l@ == (ListModel {
                    tasks: reconciled(models(tasks@), true, true, l@.now),
                    filters: Filters::initial(),
                    now: l@.now,
                })
                &&& l@.wf()
                &&& changed == exists|i: int|
                    0 <= i < tasks@.len() && demotes(true, true, l@.now, #[trigger] models(tasks@)[i])
            },
    {
        TaskList::load_at(tasks, local_now())
    }

    /// The position of the task with id `uuid`.
    fn position(&self, uuid: u128) -> (r: Option<usize>)
        requires
            self@.wf(),
        ensures
            r matches Some(i) ==> i == index_of(self@.tasks, uuid) && self@.tasks[i as int].id
                == uuid && i < self@.tasks.len(),
            r is None <==> !has_id(self@.tasks, uuid),
    {
        let mut i: usize = 0;
        while i < self.tasks.len()
            invariant
                self@.wf(),
                i <= self.tasks.len(),
                forall|k: int| 0 <= k < i ==> self@.tasks[k].id != uuid,
            decreases self.tasks.len() - i,
        {
            if self.tasks[i].uuid() == uuid {
                proof {
                    assert(self@.tasks[i as int].id == uuid);
                    let j = index_of(self@.tasks, uuid);
                    assert(self@.tasks[j].id == uuid);
                }
                return Some(i);
            }
            i += 1;
        }
        None
    }

    /// Appends a task at the end, unless a task with its id is already there.
    /// Whether it was added, so that the list is to be saved.
    pub fn add(&mut self, task: Task) -> (appended: bool)
        requires
            old(self)@.wf(),
        ensures
            final(self)@.wf(),
            appended == !has_id(old(self)@.tasks, task@.id),
            final(self)@ == added(old(self)@, task@),
    {
        if self.position(task.uuid()).is_some() {
            return false;
        }
        let ghost before = self.tasks@;
        let ghost t = task@;
        self.tasks.push(task);
        assert(self@.tasks =~= models(before).push(t));
        true
    }

    /// The tasks the list shows, as positions into `tasks`, in order.
    pub fn filtered_tasks(&self) -> (r: Vec<usize>)
        ensures
            r@.len() == self@.shown().len(),
            forall|j: int| 0 <= j < r@.len() ==> #[trigger] r@[j] < self@.tasks.len(),
            forall|j: int|
                0 <= j < r@.len() ==> self@.tasks[#[trigger] r@[j] as int] == self@.shown()[j],
            forall|j: int, k: int| 0 <= j < k < r@.len() ==> r@[j] < r@[k],
    {
        let ghost s = self@.tasks;
        let ghost p = shown_pred(self.filters, self.now);
        let mut r: Vec<usize> = Vec::new();
        let mut i: usize = 0;
        while i < self.tasks.len()
            invariant
                i <= self.tasks.len(),
                s == self@.tasks,
                p == shown_pred(self.filters, self.now),
                r@.len() == s.take(i as int).filter(p).len(),
                forall|j: int| 0 <= j < r@.len() ==> #[trigger] r@[j] < i,
                forall|j: int|
                    0 <= j < r@.len() ==> s[#[trigger] r@[j] as int] == s.take(i as int).filter(
                        p,
                    )[j],
                forall|j: int, k: int| 0 <= j < k < r@.len() ==> r@[j] < r@[k],
            decreases self.tasks.len() - i,
        {
            let t = &self.tasks[i];
            let show = (self.filters.show_completed || !t.is_complete()) && (
            !self.filters.future_filter || !t.not_current_at(self.now)) && (
            !self.filters.show_dotted_only || t.dot());
            proof {
                assert(s.take(i + 1) =~= s.take(i as int).push(s[i as int]));
                s.take(i as int).lemma_filter_push(s[i as int], p);
                assert(show == p(s[i as int]));
            }
            let ghost before = r@;
            if show {
                r.push(i);
                assert(r@[r@.len() - 1] == i);
                assert(forall|j: int| 0 <= j < before.len() ==> r@[j] == before[j]);
            }
            i += 1;
        }
        assert(s.take(s.len() as int) =~= s);
        r
    }

    /// All the tasks, in order.
    pub fn tasks(&self) -> (r: &[Task])
        ensures
            models(r@) == self@.tasks,
    {
        self.tasks.as_slice()
    }

    /// The task with id `uuid`.
    pub fn get(&self, uuid: u128) -> (r: Option<&Task>)
        requires
            self@.wf(),
        ensures
            r is Some <==> has_id(self@.tasks, uuid),
            r matches Some(t) ==> t@ == self@.tasks[index_of(self@.tasks, uuid)],
    {
        match self.position(uuid) {
            Some(i) => Some(&self.tasks[i]),
            None => None,
        }
    }

    /// Puts `task` in place of the task with its id, where there is one.
    /// Whether it did, so that the list is to be saved.
    pub fn replace(&mut self, uuid: u128, task: Task) -> (replaced: bool)
        requires
            old(self)@.wf(),
            task@.id == uuid,
        ensures
            final(self)@.wf(),
            replaced == has_id(old(self)@.tasks, uuid),
            final(self)@ == (if replaced {
                ListModel {
                    tasks: old(self)@.tasks.update(index_of(old(self)@.tasks, uuid), task@),
                    ..old(self)@
                }
            } else {
                old(self)@
            }),
    {
        match self.position(uuid) {
            Some(i) => {
                let ghost before = self@.tasks;
                let ghost t = task@;
                self.tasks.remove(i);
                self.tasks.insert(i, task);
                assert(self@.tasks =~= before.update(i as int, t));
                true
            },
            None => false,
        }
    }

    /// Removes the task with id `uuid` and appends `task` at the end, where
    /// there is such a task. Whether it did, so that the list is to be saved.
    pub fn replace_at_bottom(&mut self, uuid: u128, task: Task) -> (replaced: bool)
        requires
            old(self)@.wf(),
            task@.id == uuid,
        ensures
            final(self)@.wf(),
            replaced == has_id(old(self)@.tasks, uuid),
            final(self)@ == (if replaced {
                ListModel {
                    tasks: old(self)@.tasks.remove(index_of(old(self)@.tasks, uuid)).push(task@),
                    ..old(self)@
                }
            } else {
                old(self)@
            }),
    {
        match self.position(uuid) {
            Some(i) => {
                let ghost before = self@.tasks;
                let ghost t = task@;
                self.tasks.remove(i);
                self.tasks.push(task);
                assert(self@.tasks =~= before.remove(i as int).push(t));
                true
            },
            None => false,
        }
    }

    /// Removes the task with id `uuid`, where there is one. Whether it did,
    /// so that the list is to be saved.
    pub fn remove(&mut self, uuid: u128) -> (removed: bool)
        requires
            old(self)@.wf(),
        ensures
            final(self)@.wf(),
            removed == has_id(old(self)@.tasks, uuid),
            final(self)@ == (if removed {
                ListModel {
                    tasks: old(self)@.tasks.remove(index_of(old(self)@.tasks, uuid)),
                    ..old(self)@
                }
            } else {
                old(self)@
            }),
    {
        match self.position(uuid) {
            Some(i) => {
                let ghost before = self@.tasks;
                self.tasks.remove(i);
                assert(self@.tasks =~= before.remove(i as int));
                true
            },
            None => false,
        }
    }

    /// Takes the view at `now`, then demotes every task whose snooze has
    /// expired. Whether anything changed, so that the list is to be saved.
    pub fn pre_render_at(&mut self, now: i64) -> (changed: bool)
        requires
            old(self)@.wf(),
        ensures
            final(self)@.wf(),
            final(self)@ == (ListModel {
                tasks: reconciled(old(self)@.tasks, true, false, now),
                filters: old(self)@.filters,
                now,
            }),
            changed == exists|i: int|
                0 <= i < old(self)@.tasks.len() && #[trigger] old(self)@.tasks[i].snooze_expiring(
                    now,
                ),
    {
        self.now = now;
        self.reset_task_positions(true, false)
    }

    /// Takes the view now, then demotes every task whose snooze has expired,
    /// as `pre_render_at` does. Must run before each render.
    pub fn pre_render(&mut self) -> (changed: bool)
        requires
            old(self)@.wf(),
        ensures
            final(self)@.wf(),
            final(self)@ == (ListModel {
                tasks: reconciled(old(self)@.tasks, true, false, final(self)@.now),
                filters: old(self)@.filters,
                now: final(self)@.now,
            }),
            changed == exists|i: int|
                0 <= i < old(self)@.tasks.len() && #[trigger] old(self)@.tasks[i].snooze_expiring(
                    final(self)@.now,
                ),
    {
        self.pre_render_at(local_now())
    }

    /// The reconciliation pass: every task that it demotes (an expired snooze
    /// where `snoozed`, a recurrence where `recurring`) loses its dot and its
    /// snooze and moves to the bottom; the others keep their order. Whether
    /// any task was demoted.
    pub fn reset_task_positions(&mut self, snoozed: bool, recurring: bool) -> (changed: bool)
        requires
            old(self)@.wf(),
        ensures
            final(self)@.wf(),
            final(self)@ == (ListModel {
                tasks: reconciled(old(self)@.tasks, snoozed, recurring, old(self)@.now),
                ..old(self)@
            }),
            changed == exists|i: int|
                0 <= i < old(self)@.tasks.len() && demotes(
                    snoozed,
                    recurring,
                    old(self)@.now,
                    #[trigger] old(self)@.tasks[i],
                ),
    {
        let ghost s = self@.tasks;
        let ghost kp = keep_pred(snoozed, recurring, self.now);
        let ghost dp = demote_pred(snoozed, recurring, self.now);
        let now = self.now;
        let mut out: Vec<Task> = Vec::new();
        let mut i: usize = 0;
        while i < self.tasks.len()
            invariant
                i <= self.tasks.len(),
                s == self@.tasks,
                now == self.now,
                kp == keep_pred(snoozed, recurring, now),
                models(out@) == s.take(i as int).filter(kp),
            decreases self.tasks.len() - i,
        {
            let t = &self.tasks[i];
            proof {
                assert(s.take(i + 1) =~= s.take(i as int).push(s[i as int]));
                s.take(i as int).lemma_filter_push(s[i as int], kp);
            }
            if !(snoozed && t.snooze_expiring_at(now) || recurring && t.is_recurring()) {
                let ghost before = out@;
                let d = t.duplicate();
                out.push(d);
                assert(models(out@) =~= models(before).push(s[i as int]));
            }
            i += 1;
        }
        assert(s.take(s.len() as int) =~= s);
        let ghost kept = models(out@);
        let mut changed = false;
        i = 0;
        while i < self.tasks.len()
            invariant
                i <= self.tasks.len(),
                s == self@.tasks,
                now == self.now,
                dp == demote_pred(snoozed, recurring, now),
                kept == s.filter(keep_pred(snoozed, recurring, now)),
                models(out@) == kept + reset_all(s.take(i as int).filter(dp)),
                changed == exists|k: int|
                    0 <= k < i && demotes(snoozed, recurring, now, #[trigger] s[k]),
            decreases self.tasks.len() - i,
        {
            let t = &self.tasks[i];
            proof {
                assert(s.take(i + 1) =~= s.take(i as int).push(s[i as int]));
                s.take(i as int).lemma_filter_push(s[i as int], dp);
            }
            if snoozed && t.snooze_expiring_at(now) || recurring && t.is_recurring() {
                let ghost before = out@;
                let mut d = t.duplicate();
                d.remove_dot();
                d.unsnooze();
                out.push(d);
                assert(reset_all(s.take(i + 1).filter(dp)) =~= reset_all(
                    s.take(i as int).filter(dp),
                ).push(reset(s[i as int])));
                assert(models(out@) =~= models(before).push(reset(s[i as int])));
                changed = true;
            }
            i += 1;
        }
        assert(s.take(s.len() as int) =~= s);
        self.tasks = out;
        proof {
            lemma_reconciled_unique(s, snoozed, recurring, now);
        }
        changed
    }

    pub fn toggle_future_filter(&mut self)
        ensures
            final(self)@ == (ListModel {
                filters: Filters { future_filter: !old(self)@.filters.future_filter, ..old(self)@.filters },
                ..old(self)@
            }),
    {
        self.filters.future_filter = !self.filters.future_filter;
    }

    pub fn toggle_dotted_only(&mut self)
        ensures
            final(self)@ == (ListModel {
                filters: Filters {
                    show_dotted_only: !old(self)@.filters.show_dotted_only,
                    ..old(self)@.filters
                },
                ..old(self)@
            }),
    {
        self.filters.show_dotted_only = !self.filters.show_dotted_only;
    }

    pub fn toggle_show_completed(&mut self)
        ensures
            final(self)@ == (ListModel {
                filters: Filters {
                    show_completed: !old(self)@.filters.show_completed,
                    ..old(self)@.filters
                },
                ..old(self)@
            }),
    {
        self.filters.show_completed = !self.filters.show_completed;
    }

    pub fn filters(&self) -> (r: Filters)
        ensures
            r == self@.filters,
    {
        self.filters
    }

    /// The instant at which the view is taken.
    pub fn now(&self) -> (r: i64)
        ensures
            r == self@.now,
    {
        self.now
    }
}

} // verus!
