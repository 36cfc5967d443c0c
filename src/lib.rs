//! A terminal task tracker's core: tasks with completion, dots, daily
//! recurrence and snoozing, the ordered task list with its display filters,
//! and the selection that follows a task through a re-filtered view.

pub mod mainview;
pub mod task;
pub mod taskaddview;
pub mod taskeditview;
pub mod tasklist;
pub mod tasklistview;
pub mod textinput;

pub use mainview::{MainView, Step};
pub use task::{in_n_days_5am, Task};
pub use taskaddview::TaskAddView;
pub use taskeditview::TaskEditView;
pub use tasklist::{Filters, LoadError, TaskList};
pub use tasklistview::{Key, KeyOutcome, KeyPress, ListCommand, TaskListView};
pub use textinput::InputMode;
