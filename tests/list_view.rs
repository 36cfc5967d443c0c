use task::{Key, KeyPress, Task, TaskList, TaskListView};

fn key(c: char) -> KeyPress {
    KeyPress { key: Key::Char(c), ctrl: false, alt: false }
}

fn ctrl(c: char) -> KeyPress {
    KeyPress { key: Key::Char(c), ctrl: true, alt: false }
}

fn list_of(names: &[&str]) -> TaskList {
    let mut list = TaskList::new_at(1_704_067_200);
    for (i, n) in names.iter().enumerate() {
        assert!(list.add(Task::with_uuid(n, i as u128 + 1)));
    }
    list
}

fn shown_names(list: &TaskList) -> Vec<String> {
    list.filtered_tasks().iter().map(|&i| list.tasks()[i].description().to_string()).collect()
}

#[test]
fn scenario_last_dotted_then_complete() {
    let mut list = list_of(&["A", "B", "C"]);
    let mut view = TaskListView::new();
    view.move_start(&list);
    view.move_down(&list);
    assert_eq!(view.selected_uuid(), Some(2));
    assert!(view.toggle_dot(&mut list));
    assert!(list.get(2).unwrap().dot());

    let mut fresh = TaskListView::new();
    let lines = fresh.render_lines(&list);
    assert_eq!(lines, vec!["    A", "-   B", "    C"]);
    assert_eq!(fresh.selected_uuid(), Some(2));
    assert_eq!(fresh.selected_position(), Some(1));

    assert!(fresh.complete(&mut list));
    let b = list.get(2).unwrap();
    assert!(!b.dot());
    assert!(b.completed().is_some());
    let order: Vec<u128> = list.tasks().iter().map(|t| t.uuid()).collect();
    assert_eq!(order, vec![1, 3, 2]);
    assert_eq!(shown_names(&list), vec!["A", "C"]);
    assert_eq!(fresh.selected_uuid(), Some(3));
}

#[test]
fn initial_selection_without_dots_is_first() {
    let list = list_of(&["A", "B"]);
    let mut view = TaskListView::new();
    view.render_lines(&list);
    assert_eq!(view.selected_uuid(), Some(1));
    assert_eq!(view.selected_position(), Some(0));
}

#[test]
fn initial_selection_picks_last_dotted() {
    let mut list = TaskList::new_at(0);
    for (i, dot) in [true, false, true, false].iter().enumerate() {
        let t = Task::from_parts(i as u128 + 1, "t", *dot, None, None, None, None).unwrap();
        assert!(list.add(t));
    }
    let mut view = TaskListView::new();
    view.render_lines(&list);
    assert_eq!(view.selected_uuid(), Some(3));
}

#[test]
fn selection_follows_identity_when_another_task_moves() {
    let mut list = list_of(&["A", "B", "C"]);
    let mut view = TaskListView::new();
    view.move_start(&list);
    view.move_down(&list);
    assert_eq!(view.selected_uuid(), Some(2));
    let mut a = list.get(1).unwrap().duplicate();
    a.toggle_dot();
    a.toggle_dot();
    assert!(list.replace_at_bottom(1, a));
    view.fix_selection(&list);
    assert_eq!(view.selected_uuid(), Some(2));
    assert_eq!(view.selected_index(&list), Some(0));
    assert_eq!(view.selected_position(), Some(0));
}

#[test]
fn fix_selection_clamps_when_selected_task_leaves() {
    let mut list = list_of(&["A", "B", "C"]);
    let mut view = TaskListView::new();
    view.move_end(&list);
    assert_eq!(view.selected_uuid(), Some(3));
    view.set_offset(2);
    assert!(list.remove(3));
    view.fix_selection(&list);
    assert_eq!(view.selected_position(), Some(1));
    assert_eq!(view.selected_uuid(), Some(2));
    assert_eq!(view.offset(), 0);
}

#[test]
fn fix_selection_on_empty_view_clears() {
    let mut list = list_of(&["A"]);
    let mut view = TaskListView::new();
    view.move_start(&list);
    assert!(view.complete(&mut list));
    assert_eq!(view.selected_uuid(), None);
    assert_eq!(view.selected_position(), None);
    assert!(view.is_at_end(&list));
}

#[test]
fn moves_are_clamped() {
    let list = list_of(&["A", "B", "C", "D"]);
    let mut view = TaskListView::new();
    view.move_up(&list);
    assert_eq!(view.selected_position(), None);
    view.move_start(&list);
    view.move_up(&list);
    assert_eq!(view.selected_position(), Some(0));
    view.move_down_n(&list, 2);
    assert_eq!(view.selected_uuid(), Some(3));
    view.move_down_n(&list, 10);
    assert_eq!(view.selected_uuid(), Some(4));
    assert!(view.is_at_end(&list));
    view.move_up_n(&list, 2);
    assert_eq!(view.selected_uuid(), Some(2));
    assert!(!view.is_at_end(&list));
    view.move_up_n(&list, 10);
    assert_eq!(view.selected_uuid(), Some(1));
}

#[test]
fn dotting_stays_in_place_and_undotting_demotes() {
    let mut list = list_of(&["A", "B", "C"]);
    let mut view = TaskListView::new();
    view.move_start(&list);
    assert!(view.toggle_dot(&mut list));
    let order: Vec<u128> = list.tasks().iter().map(|t| t.uuid()).collect();
    assert_eq!(order, vec![1, 2, 3]);
    assert!(view.toggle_dot(&mut list));
    let order: Vec<u128> = list.tasks().iter().map(|t| t.uuid()).collect();
    assert_eq!(order, vec![2, 3, 1]);
    assert_eq!(view.selected_uuid(), Some(1));
    assert_eq!(view.selected_position(), Some(2));
}

#[test]
fn delete_selects_the_next_task() {
    let mut list = list_of(&["A", "B", "C"]);
    let mut view = TaskListView::new();
    view.move_start(&list);
    view.move_down(&list);
    assert!(view.delete(&mut list));
    assert_eq!(shown_names(&list), vec!["A", "C"]);
    assert_eq!(view.selected_uuid(), Some(3));
}

#[test]
fn recur_daily_toggles_in_place() {
    let mut list = list_of(&["A", "B"]);
    let mut view = TaskListView::new();
    view.move_start(&list);
    assert!(view.recur_daily(&mut list));
    assert_eq!(list.get(1).unwrap().recur_interval_days(), Some(1));
    assert!(view.recur_daily(&mut list));
    assert_eq!(list.get(1).unwrap().recur_interval_days(), None);
    assert_eq!(view.selected_uuid(), Some(1));
}

#[test]
fn snooze_hides_and_demotes() {
    let mut list = list_of(&["A", "B", "C"]);
    let mut view = TaskListView::new();
    view.move_start(&list);
    assert!(view.snooze_tomorrow(&mut list));
    assert_eq!(shown_names(&list), vec!["B", "C"]);
    assert_eq!(view.selected_uuid(), Some(2));
    assert_eq!(list.get(1).unwrap().snooze_until(), Some(1_704_067_200 + 18_000));
    assert!(view.snooze_1s(&mut list));
    assert_eq!(list.get(2).unwrap().snooze_until(), Some(1_704_067_201));
    assert_eq!(shown_names(&list), vec!["C"]);
}

#[test]
fn commands_without_selection_do_nothing() {
    let mut list = list_of(&["A"]);
    let mut view = TaskListView::new();
    assert!(!view.toggle_dot(&mut list));
    assert!(!view.complete(&mut list));
    assert!(!view.delete(&mut list));
    assert!(!view.recur_daily(&mut list));
    assert!(!view.snooze_tomorrow(&mut list));
    assert!(!list.get(1).unwrap().dot());
}

#[test]
fn keys_dispatch_to_commands() {
    let mut list = list_of(&["A", "B", "C", "D", "E", "F"]);
    let mut view = TaskListView::new();
    view.render_lines(&list);
    let r = view.handle_key(key('G'), &mut list);
    assert!(r.handled && !r.changed);
    assert_eq!(view.selected_uuid(), Some(6));
    view.handle_key(key('g'), &mut list);
    assert_eq!(view.selected_uuid(), Some(1));
    view.handle_key(key('j'), &mut list);
    assert_eq!(view.selected_uuid(), Some(2));
    view.handle_key(KeyPress { key: Key::Down, ctrl: false, alt: false }, &mut list);
    assert_eq!(view.selected_uuid(), Some(3));
    view.handle_key(key('k'), &mut list);
    assert_eq!(view.selected_uuid(), Some(2));
    let r = view.handle_key(key('.'), &mut list);
    assert!(r.handled && r.changed);
    assert!(list.get(2).unwrap().dot());
    let r = view.handle_key(key('q'), &mut list);
    assert!(!r.handled);
    let r = view.handle_key(KeyPress { key: Key::Char('j'), ctrl: false, alt: true }, &mut list);
    assert!(r.handled && !r.changed);
    assert_eq!(view.selected_uuid(), Some(2));
}

#[test]
fn page_keys_move_half_the_viewport() {
    let names: Vec<String> = (0..20).map(|i| format!("t{i}")).collect();
    let refs: Vec<&str> = names.iter().map(|s| s.as_str()).collect();
    let mut list = list_of(&refs);
    let mut view = TaskListView::new();
    view.render_lines(&list);
    view.handle_key(ctrl('d'), &mut list);
    assert_eq!(view.selected_position(), Some(1));
    view.set_viewport(10);
    view.handle_key(ctrl('d'), &mut list);
    assert_eq!(view.selected_position(), Some(6));
    view.handle_key(ctrl('u'), &mut list);
    assert_eq!(view.selected_position(), Some(1));
    let r = view.handle_key(ctrl('x'), &mut list);
    assert!(!r.handled);
}
