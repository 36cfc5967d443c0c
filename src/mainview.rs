use crate::task::{decimal_text, detail_text, line_text, u64_string};
use crate::tasklist::{has_id, reconciled, Filters, ListModel, TaskList};
use crate::tasklistview::{
    after, changes, command_for, fixed, initial, page_of, refreshed, task_of, Key, KeyPress,
    SelectionModel,
    TaskListView,
};
use crate::taskeditview::{edit_after, edit_changes, takes_key, EditModel, TaskEditView};
use crate::textinput::InputMode;
use vstd::prelude::*;
use vstd::string::*;

verus! {

/// What the host is to do after a key: quit, and save the task list.
#[derive(Clone, Copy)]
pub struct Step {
    pub quit: bool,
    pub save: bool,
}

/// The session as plain values.
pub struct MainModel {
    pub tasks: ListModel,
    pub selection: SelectionModel,
    pub edit: EditModel,
    pub load_failed: bool,
    pub write_fails: u64,
    pub details_pane: bool,
    pub help_pane: bool,
}

impl MainModel {
    pub open spec fn wf(self) -> bool {
        self.tasks.wf()
    }
}

/// Whether the list view takes the key.
pub open spec fn list_takes(s: SelectionModel, key: KeyPress) -> bool {
    command_for(key, page_of(s)) is Some || (key.alt && !key.ctrl)
}

/// The status line: the count of failed saves where there were any, else a
/// failed load where it failed, else a reminder of the main keys.
pub open spec fn status_text(load_failed: bool, write_fails: u64) -> Seq<char> {
    if write_fails > 0 {
        "** ERROR: Write failed "@ + decimal_text(write_fails as nat) + " times"@
    } else if load_failed {
        "** ERROR: Load failed - started with empty task list"@
    } else {
        "j/k = down/up, . = dot, q = quit"@
    }
}

/// The main screen's state: the task list, its list view and edit view, the
/// count of failed saves, and which side panes show.
pub struct MainView {
    tasks: TaskList,
    load_failed: bool,
    task_list_view: TaskListView,
    task_edit_view: TaskEditView,
    write_fails: u64,
    details_pane: bool,
    help_pane: bool,
}

impl View for MainView {
    type V = MainModel;

    closed spec fn view(&self) -> MainModel {
        MainModel {
            tasks: self.tasks@,
            selection: self.task_list_view@,
            edit: self.task_edit_view@,
            load_failed: self.load_failed,
            write_fails: self.write_fails,
            details_pane: self.details_pane,
            help_pane: self.help_pane,
        }
    }
}

impl MainView {
    /// The session over a loaded list; `load_failed` where loading failed
    /// and the list starts empty.
    pub fn new(tasks: TaskList, load_failed: bool) -> (r: MainView)
        requires
            tasks@.wf(),
        ensures
            r@.tasks == tasks@,
            r@.load_failed == load_failed,
            r@.write_fails == 0,
            !r@.details_pane && !r@.help_pane,
            r@.selection == (SelectionModel {
                selected_uuid: None,
                selected: None,
                offset: 0,
                viewport: None,
            }),
            r@.edit.text.mode == InputMode::Normal,
            r@.wf(),
    {
        MainView {
            tasks,
            load_failed,
            task_list_view: TaskListView::new(),
            task_edit_view: TaskEditView::new(),
            write_fails: 0,
            details_pane: false,
            help_pane: false,
        }
    }

    /// The task list.
    pub fn tasks(&self) -> (r: &TaskList)
        requires
            self@.wf(),
        ensures
            r@ == self@.tasks,
            r@.wf(),
    {
        &self.tasks
    }

    pub fn task_list_view(&self) -> (r: &TaskListView)
        ensures
            r@ == self@.selection,
    {
        &self.task_list_view
    }

    pub fn task_edit_view(&self) -> (r: &TaskEditView)
        ensures
            r@ == self@.edit,
    {
        &self.task_edit_view
    }

    pub fn details_pane(&self) -> (r: bool)
        ensures
            r == self@.details_pane,
    {
        self.details_pane
    }

    pub fn help_pane(&self) -> (r: bool)
        ensures
            r == self@.help_pane,
    {
        self.help_pane
    }

    /// Counts a save that failed.
    pub fn note_write_failure(&mut self)
        requires
            old(self)@.wf(),
        ensures
            final(self)@.wf(),
            final(self)@ == (MainModel {
                write_fails: if old(self)@.write_fails == u64::MAX {
                    u64::MAX
                } else {
                    (old(self)@.write_fails + 1) as u64
                },
                ..old(self)@
            }),
    {
        self.write_fails = self.write_fails.saturating_add(1);
    }

    /// Reconciles the list before a drawing, now, and fixes the selection.
    /// Whether the list is to be saved.
    pub fn pre_render(&mut self) -> (save: bool)
        requires
            old(self)@.wf(),
        ensures
            final(self)@.wf(),
            final(self)@ == (MainModel {
                tasks: ListModel {
                    tasks: reconciled(old(self)@.tasks.tasks, true, false, final(self)@.tasks.now),
                    now: final(self)@.tasks.now,
                    ..old(self)@.tasks
                },
                selection: refreshed(old(self)@.selection, final(self)@.tasks.shown()),
                ..old(self)@
            }),
    {
        self.task_list_view.pre_render(&mut self.tasks)
    }

    /// Reconciles the list before a drawing, at `now`, and fixes the
    /// selection. Whether the list is to be saved.
    pub fn pre_render_at(&mut self, now: i64) -> (save: bool)
        requires
            old(self)@.wf(),
        ensures
            final(self)@.wf(),
            final(self)@ == (MainModel {
                tasks: ListModel {
                    tasks: reconciled(old(self)@.tasks.tasks, true, false, now),
                    now,
                    ..old(self)@.tasks
                },
                selection: refreshed(old(self)@.selection, final(self)@.tasks.shown()),
                ..old(self)@
            }),
    {
        self.task_list_view.pre_render_at(&mut self.tasks, now)
    }

    /// Records the area of the list drawing: its height, and the first
    /// position it showed.
    pub fn record_list_area(&mut self, height: usize, offset: usize)
        requires
            old(self)@.wf(),
        ensures
            final(self)@.wf(),
            final(self)@ == (MainModel {
                selection: SelectionModel {
                    viewport: Some(height),
                    offset,
                    ..old(self)@.selection
                },
                ..old(self)@
            }),
    {
        self.task_list_view.set_viewport(height);
        self.task_list_view.set_offset(offset);
    }

    /// The lines of the list drawing, selecting a first task where none is.
    pub fn render_lines(&mut self) -> (r: Vec<String>)
        requires
            old(self)@.wf(),
        ensures
            final(self)@.wf(),
            final(self)@ == (MainModel {
                selection: if old(self)@.selection.selected is None && old(self)@.tasks.shown().len()
                    > 0 {
                    initial(old(self)@.selection, old(self)@.tasks.shown())
                } else {
                    old(self)@.selection
                },
                ..old(self)@
            }),
            r@.len() == old(self)@.tasks.shown().len(),
            forall|j: int|
                0 <= j < r@.len() ==> #[trigger] r@[j]@ == line_text(old(self)@.tasks.shown()[j]),
    {
        self.task_list_view.render_lines(&self.tasks)
    }

    /// The detail text of the selected task.
    pub fn selected_detail(&self) -> (r: String)
        requires
            self@.wf(),
        ensures
            r@ == (if self@.selection.selected_uuid is Some && has_id(
                self@.tasks.tasks,
                self@.selection.selected_uuid->0,
            ) {
                detail_text(task_of(self@.tasks, self@.selection.selected_uuid->0))
            } else {
                "Invalid task selected"@
            }),
    {
        if let Some(uuid) = self.task_list_view.selected_uuid() {
            if let Some(task) = self.tasks.get(uuid) {
                return task.detail_string();
            }
        }
        String::from_str("Invalid task selected")
    }

    /// The status line.
    pub fn status_line(&self) -> (r: String)
        ensures
            r@ == status_text(self@.load_failed, self@.write_fails),
    {
        if self.write_fails > 0 {
            let mut line = String::from_str("** ERROR: Write failed ");
            line.append(u64_string(self.write_fails).as_str());
            line.append(" times");
            line
        } else if self.load_failed {
            String::from_str("** ERROR: Load failed - started with empty task list")
        } else {
            String::from_str("j/k = down/up, . = dot, q = quit")
        }
    }

    /// Handles a key: the edit view first, then the list view, then the
    /// screen's own keys: `q` quits, `p` and `h` toggle the detail and help
    /// panes, `f` and `o` toggle the future and dotted-only filters and fix
    /// the selection.
    pub fn handle_key(&mut self, key: KeyPress) -> (r: Step)
        requires
            old(self)@.wf(),
        ensures
            final(self)@.wf(),
            final(self)@.load_failed == old(self)@.load_failed,
            final(self)@.write_fails == old(self)@.write_fails,
            !takes_key(old(self)@.edit, old(self)@.selection, key) && !list_takes(
                old(self)@.selection,
                key,
            ) ==> {
                let m = old(self)@.tasks;
                &&& !r.save
                &&& r.quit == (key.key == Key::Char('q'))
                &&& final(self)@ == match key.key {
                    Key::Char('p') => MainModel {
                        details_pane: !old(self)@.details_pane,
                        ..old(self)@
                    },
                    Key::Char('h') => MainModel { help_pane: !old(self)@.help_pane, ..old(self)@ },
                    Key::Char('f') => {
                        let m2 = ListModel {
                            filters: Filters { future_filter: !m.filters.future_filter, ..m.filters },
                            ..m
                        };
                        MainModel {
                            tasks: m2,
                            selection: fixed(old(self)@.selection, m2.shown()),
                            ..old(self)@
                        }
                    },
                    Key::Char('o') => {
                        let m2 = ListModel {
                            filters: Filters {
                                show_dotted_only: !m.filters.show_dotted_only,
                                ..m.filters
                            },
                            ..m
                        };
                        MainModel {
                            tasks: m2,
                            selection: fixed(old(self)@.selection, m2.shown()),
                            ..old(self)@
                        }
                    },
                    _ => old(self)@,
                }
            },
            takes_key(old(self)@.edit, old(self)@.selection, key) || list_takes(
                old(self)@.selection,
                key,
            ) ==> !r.quit && final(self)@.details_pane == old(self)@.details_pane
                && final(self)@.help_pane == old(self)@.help_pane,
            takes_key(old(self)@.edit, old(self)@.selection, key) ==> !r.quit && exists|id: u128|
                {
                    let (e2, m2, s2) = edit_after(
                        old(self)@.edit,
                        old(self)@.tasks,
                        old(self)@.selection,
                        key,
                        id,
                    );
                    &&& final(self)@ == (MainModel {
                        edit: e2,
                        tasks: m2,
                        selection: s2,
                        ..old(self)@
                    })
                    &&& r.save == #[trigger] edit_changes(
                        old(self)@.edit,
                        old(self)@.tasks,
                        old(self)@.selection,
                        key,
                        id,
                    )
                },
            !takes_key(old(self)@.edit, old(self)@.selection, key) && command_for(
                key,
                page_of(old(self)@.selection),
            ) is None && key.alt && !key.ctrl ==> final(self)@ == old(self)@ && !r.save && !r.quit,
            !takes_key(old(self)@.edit, old(self)@.selection, key) && command_for(
                key,
                page_of(old(self)@.selection),
            ) is Some ==> {
                let cmd = command_for(key, page_of(old(self)@.selection))->0;
                let (s2, m2) = after(cmd, old(self)@.selection, old(self)@.tasks);
                &&& final(self)@ == (MainModel { tasks: m2, selection: s2, ..old(self)@ })
                &&& r.save == changes(cmd, old(self)@.selection, old(self)@.tasks)
            },
    {
        let ghost e0 = self@;
        let edited = self.task_edit_view.handle_key(
            key,
            &mut self.tasks,
            &mut self.task_list_view,
        );
        if edited.handled {
            proof {
                let id = choose|id: u128|
                    (self.task_edit_view@, self.tasks@, self.task_list_view@) == edit_after(
                        e0.edit,
                        e0.tasks,
                        e0.selection,
                        key,
                        id,
                    ) && edited.changed == edit_changes(e0.edit, e0.tasks, e0.selection, key, id);
                assert(self@ == (MainModel {
                    edit: self.task_edit_view@,
                    tasks: self.tasks@,
                    selection: self.task_list_view@,
                    ..e0
                }));
            }
            return Step { quit: false, save: edited.changed };
        }
        let listed = self.task_list_view.handle_key(key, &mut self.tasks);
        if listed.handled {
            return Step { quit: false, save: listed.changed };
        }
        match key.key {
            Key::Char('q') => return Step { quit: true, save: false },
            Key::Char('p') => self.details_pane = !self.details_pane,
            Key::Char('h') => self.help_pane = !self.help_pane,
            Key::Char('f') => {
                self.tasks.toggle_future_filter();
                self.task_list_view.fix_selection(&self.tasks);
            },
            Key::Char('o') => {
                self.tasks.toggle_dotted_only();
                self.task_list_view.fix_selection(&self.tasks);
            },
            _ => {},
        }
        Step { quit: false, save: false }
    }
}

} // verus!
