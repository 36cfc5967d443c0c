use task::{
    InputMode, Key, KeyPress, MainView, Task, TaskAddView, TaskEditView, TaskList, TaskListView,
};

fn press(k: Key) -> KeyPress {
    KeyPress { key: k, ctrl: false, alt: false }
}

fn key(c: char) -> KeyPress {
    press(Key::Char(c))
}

#[test]
fn add_view_types_and_saves() {
    let mut list = TaskList::new_at(0);
    let mut view = TaskAddView::new();
    assert!(!view.handle_key(Key::Char('x'), &mut list).handled);
    assert!(view.handle_key(Key::Char('a'), &mut list).handled);
    assert!(view.mode() == InputMode::Editing);
    for c in ['h', 'é', 'y'] {
        view.handle_key(Key::Char(c), &mut list);
    }
    assert_eq!(view.input_text(), "héy");
    assert_eq!(view.cursor(), 3);
    assert_eq!(view.byte_index(), 4);
    view.handle_key(Key::Left, &mut list);
    assert_eq!(view.byte_index(), 3);
    view.handle_key(Key::Backspace, &mut list);
    assert_eq!(view.input_text(), "hy");
    assert_eq!(view.cursor(), 1);
    let r = view.handle_key(Key::Enter, &mut list);
    assert!(r.handled && r.changed);
    assert_eq!(list.tasks().len(), 1);
    assert_eq!(list.tasks()[0].description(), "hy");
    assert_eq!(view.input_text(), "");
    assert!(view.mode() == InputMode::Normal);
}

#[test]
fn add_view_cursor_helpers() {
    let mut view = TaskAddView::new();
    view.enter_char('a');
    view.enter_char('b');
    assert_eq!(view.clamp_cursor(10), 2);
    assert_eq!(view.clamp_cursor(1), 1);
    view.reset_cursor();
    assert_eq!(view.cursor(), 0);
    view.cursor_left();
    assert_eq!(view.cursor(), 0);
    view.enter_char('z');
    assert_eq!(view.input_text(), "zab");
    view.cursor_right();
    view.cursor_right();
    view.cursor_right();
    assert_eq!(view.cursor(), 3);
    view.delete_char();
    assert_eq!(view.input_text(), "za");
    view.reset_cursor();
    view.delete_char();
    assert_eq!(view.input_text(), "za");
    assert_eq!(view.byte_index(), 0);
}

#[test]
fn edit_view_creates_and_follows_to_end() {
    let mut list = TaskList::new_at(0);
    assert!(list.add(Task::with_uuid("A", 1)));
    let mut lv = TaskListView::new();
    lv.render_lines(&list);
    let mut ev = TaskEditView::new();
    assert!(ev.handle_key(key('a'), &mut list, &mut lv).handled);
    ev.handle_key(key('B'), &mut list, &mut lv);
    let r = ev.handle_key(press(Key::Enter), &mut list, &mut lv);
    assert!(r.handled && r.changed);
    assert_eq!(list.tasks().len(), 2);
    assert_eq!(list.tasks()[1].description(), "B");
    assert_eq!(lv.selected_position(), Some(1));
    assert_eq!(lv.selected_uuid(), Some(list.tasks()[1].uuid()));
}

#[test]
fn edit_view_modifies_selected_description() {
    let mut list = TaskList::new_at(0);
    assert!(list.add(Task::with_uuid("A", 1)));
    assert!(list.add(Task::with_uuid("hello", 2)));
    let mut lv = TaskListView::new();
    lv.move_end(&list);
    let mut ev = TaskEditView::new();
    assert!(ev.handle_key(key('m'), &mut list, &mut lv).handled);
    assert_eq!(ev.input_text(), "hello");
    assert_eq!(ev.cursor(), 5);
    ev.handle_key(press(Key::Home), &mut list, &mut lv);
    assert_eq!(ev.cursor(), 0);
    ev.handle_key(press(Key::Delete), &mut list, &mut lv);
    assert_eq!(ev.input_text(), "ello");
    ev.handle_key(key('J'), &mut list, &mut lv);
    ev.handle_key(press(Key::End), &mut list, &mut lv);
    ev.handle_key(press(Key::Backspace), &mut list, &mut lv);
    assert_eq!(ev.input_text(), "Jell");
    assert_eq!(ev.byte_index(), 4);
    let r = ev.handle_key(press(Key::Enter), &mut list, &mut lv);
    assert!(r.changed);
    assert_eq!(list.get(2).unwrap().description(), "Jell");
    assert_eq!(list.tasks().len(), 2);
    assert!(ev.mode() == InputMode::Normal);
}

#[test]
fn edit_view_escape_and_unhandled_keys() {
    let mut list = TaskList::new_at(0);
    let mut lv = TaskListView::new();
    let mut ev = TaskEditView::new();
    assert!(!ev.handle_key(key('m'), &mut list, &mut lv).handled);
    assert!(!ev.handle_key(KeyPress { key: Key::Char('a'), ctrl: true, alt: false }, &mut list, &mut lv).handled);
    ev.handle_key(key('a'), &mut list, &mut lv);
    ev.handle_key(key('x'), &mut list, &mut lv);
    ev.handle_key(press(Key::Esc), &mut list, &mut lv);
    assert!(ev.mode() == InputMode::Normal);
    assert_eq!(list.tasks().len(), 0);
}

#[test]
fn main_view_status_lines() {
    let mv = MainView::new(TaskList::new_at(0), false);
    assert_eq!(mv.status_line(), "j/k = down/up, . = dot, q = quit");
    let mut failed = MainView::new(TaskList::new_at(0), true);
    assert_eq!(failed.status_line(), "** ERROR: Load failed - started with empty task list");
    failed.note_write_failure();
    failed.note_write_failure();
    failed.note_write_failure();
    assert_eq!(failed.status_line(), "** ERROR: Write failed 3 times");
}

#[test]
fn main_view_keys() {
    let mut list = TaskList::new_at(0);
    assert!(list.add(Task::with_uuid("A", 1)));
    let b = Task::from_parts(2, "B", true, None, None, None, None).unwrap();
    assert!(list.add(b));
    let mut mv = MainView::new(list, false);
    assert_eq!(mv.selected_detail(), "Invalid task selected");
    let lines = mv.render_lines();
    assert_eq!(lines, vec!["    A", "-   B"]);
    assert!(mv.selected_detail().starts_with("uuid: 00000000-0000-0000-0000-000000000002\n"));
    let s = mv.handle_key(key('p'));
    assert!(!s.quit && !s.save && mv.details_pane());
    mv.handle_key(key('h'));
    assert!(mv.help_pane());
    mv.handle_key(key('o'));
    assert!(mv.tasks().filters().show_dotted_only);
    assert_eq!(mv.task_list_view().selected_uuid(), Some(2));
    mv.handle_key(key('f'));
    assert!(!mv.tasks().filters().future_filter);
    let s = mv.handle_key(key('.'));
    assert!(s.save);
    assert_eq!(mv.task_list_view().selected_uuid(), None);
    let s = mv.handle_key(key('q'));
    assert!(s.quit);
    mv.handle_key(key('a'));
    assert!(mv.task_edit_view().mode() == InputMode::Editing);
    let s = mv.handle_key(key('q'));
    assert!(!s.quit);
}

#[test]
fn main_view_pre_render_and_area() {
    let snoozed = Task::from_parts(1, "A", true, None, None, None, Some(50)).unwrap();
    let mut list = TaskList::new_at(0);
    assert!(list.add(snoozed));
    assert!(list.add(Task::with_uuid("B", 2)));
    let mut mv = MainView::new(list, false);
    assert!(!mv.pre_render_at(10));
    assert!(mv.pre_render_at(50));
    let order: Vec<u128> = mv.tasks().tasks().iter().map(|t| t.uuid()).collect();
    assert_eq!(order, vec![2, 1]);
    mv.record_list_area(12, 3);
    assert_eq!(mv.task_list_view().offset(), 3);
}

#[test]
fn main_view_edit_keys_add_a_task() {
    let mut mv = MainView::new(TaskList::new_at(0), false);
    let s = mv.handle_key(key('a'));
    assert!(!s.quit && !s.save);
    assert!(mv.handle_key(key('q')).quit == false);
    mv.handle_key(key('x'));
    assert_eq!(mv.task_edit_view().input_text(), "qx");
    let s = mv.handle_key(press(Key::Enter));
    assert!(s.save && !s.quit);
    assert_eq!(mv.tasks().tasks().len(), 1);
    assert_eq!(mv.tasks().tasks()[0].description(), "qx");
    assert!(mv.task_edit_view().mode() == InputMode::Normal);
}

#[test]
fn main_view_alt_keys_are_swallowed() {
    let mut list = TaskList::new_at(0);
    assert!(list.add(Task::with_uuid("A", 1)));
    let mut mv = MainView::new(list, false);
    let s = mv.handle_key(KeyPress { key: Key::Char('q'), ctrl: false, alt: true });
    assert!(!s.quit && !s.save);
    assert!(!mv.details_pane());
}

#[test]
fn pre_render_fixes_the_selection() {
    let snoozed = Task::from_parts(1, "A", false, None, None, None, Some(50)).unwrap();
    let mut list = TaskList::new_at(0);
    assert!(list.add(Task::with_uuid("B", 2)));
    assert!(list.add(snoozed));
    assert!(list.add(Task::with_uuid("C", 3)));
    let mut mv = MainView::new(list, false);
    mv.render_lines();
    mv.handle_key(key('j'));
    assert_eq!(mv.task_list_view().selected_uuid(), Some(3));
    assert_eq!(mv.task_list_view().selected_position(), Some(1));
    assert!(mv.pre_render_at(50));
    // A reappears at the bottom; C stays selected, now at position 1 of B, C, A.
    assert_eq!(mv.task_list_view().selected_uuid(), Some(3));
    assert_eq!(mv.task_list_view().selected_position(), Some(1));
    mv.handle_key(key('j'));
    assert_eq!(mv.task_list_view().selected_uuid(), Some(1));
}

#[test]
fn pre_render_without_selection_leaves_first_choice_to_drawing() {
    let dotted = Task::from_parts(2, "B", true, None, None, None, None).unwrap();
    let mut list = TaskList::new_at(0);
    assert!(list.add(Task::with_uuid("A", 1)));
    assert!(list.add(dotted));
    assert!(list.add(Task::with_uuid("C", 3)));
    let mut lv = TaskListView::new();
    assert!(!lv.pre_render_at(&mut list, 10));
    assert_eq!(lv.selected_position(), None);
    lv.render_lines(&list);
    assert_eq!(lv.selected_uuid(), Some(2));
}
