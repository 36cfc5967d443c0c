use task::{LoadError, Task, TaskList};

const JAN_1_2024: i64 = 1_704_067_200;
const DAY: i64 = 86_400;

fn ids(list: &TaskList) -> Vec<u128> {
    list.tasks().iter().map(|t| t.uuid()).collect()
}

fn shown_ids(list: &TaskList) -> Vec<u128> {
    list.filtered_tasks().iter().map(|&i| list.tasks()[i].uuid()).collect()
}

fn loaded(tasks: Vec<Task>, now: i64) -> (TaskList, bool) {
    match TaskList::load_at(tasks, now) {
        Ok(r) => r,
        Err(_) => panic!("load refused"),
    }
}

#[test]
fn adds_append_in_order() {
    let mut list = TaskList::new_at(0);
    assert!(list.add(Task::with_uuid("A", 1)));
    assert!(list.add(Task::with_uuid("B", 2)));
    assert!(list.add(Task::with_uuid("C", 3)));
    assert_eq!(ids(&list), vec![1, 2, 3]);
}

#[test]
fn add_refuses_a_shared_id() {
    let mut list = TaskList::new_at(0);
    assert!(list.add(Task::with_uuid("A", 1)));
    assert!(!list.add(Task::with_uuid("again", 1)));
    assert_eq!(ids(&list), vec![1]);
    assert_eq!(list.get(1).unwrap().description(), "A");
}

#[test]
fn many_random_adds_keep_ids_distinct() {
    let mut list = TaskList::new();
    for i in 0..50 {
        assert!(list.add(Task::new(&format!("t{i}"))));
    }
    let mut all = ids(&list);
    all.sort();
    all.dedup();
    assert_eq!(all.len(), 50);
}

#[test]
fn load_refuses_duplicate_ids() {
    let r = TaskList::load_at(vec![Task::with_uuid("a", 5), Task::with_uuid("b", 5)], 0);
    assert!(matches!(r, Err(LoadError::DuplicateId)));
}

#[test]
fn load_keeps_order_without_reconciliation_work() {
    let tasks = vec![Task::with_uuid("a", 1), Task::with_uuid("b", 2), Task::with_uuid("c", 3)];
    let (list, changed) = loaded(tasks, JAN_1_2024);
    assert!(!changed);
    assert_eq!(ids(&list), vec![1, 2, 3]);
    assert!(list.filters().future_filter);
    assert!(!list.filters().show_completed);
    assert!(!list.filters().show_dotted_only);
}

#[test]
fn load_demotes_recurring_and_expired_snoozes() {
    let recurring = Task::from_parts(1, "A", true, None, None, Some(1), None).unwrap();
    let plain_dotted = Task::from_parts(2, "B", true, None, None, None, None).unwrap();
    let expired = Task::from_parts(3, "C", true, None, None, None, Some(JAN_1_2024 - 1)).unwrap();
    let plain = Task::with_uuid("D", 4);
    let snoozed = Task::from_parts(5, "E", false, None, None, None, Some(JAN_1_2024 + DAY)).unwrap();
    let (list, changed) = loaded(vec![recurring, plain_dotted, expired, plain, snoozed], JAN_1_2024);
    assert!(changed);
    assert_eq!(ids(&list), vec![2, 4, 5, 1, 3]);
    assert!(!list.get(1).unwrap().dot());
    assert!(!list.get(3).unwrap().dot());
    assert_eq!(list.get(3).unwrap().snooze_until(), None);
    assert!(list.get(2).unwrap().dot());
    assert_eq!(list.get(5).unwrap().snooze_until(), Some(JAN_1_2024 + DAY));
}

#[test]
fn pre_render_demotes_only_expired_snoozes() {
    let recurring = Task::from_parts(1, "A", false, None, None, Some(1), None).unwrap();
    let snoozed = Task::from_parts(2, "B", true, None, None, None, Some(JAN_1_2024 + 10)).unwrap();
    let plain = Task::with_uuid("C", 3);
    let (mut list, _) = loaded(vec![Task::with_uuid("X", 9)], JAN_1_2024);
    assert!(list.add(recurring));
    assert!(list.add(snoozed));
    assert!(list.add(plain));
    assert!(!list.pre_render_at(JAN_1_2024 + 5));
    assert_eq!(ids(&list), vec![9, 1, 2, 3]);
    assert_eq!(shown_ids(&list), vec![9, 1, 3]);
    assert!(list.pre_render_at(JAN_1_2024 + 10));
    assert_eq!(ids(&list), vec![9, 1, 3, 2]);
    assert_eq!(shown_ids(&list), vec![9, 1, 3, 2]);
    assert!(!list.get(2).unwrap().dot());
    assert_eq!(list.now(), JAN_1_2024 + 10);
}

#[test]
fn replace_keeps_position_and_replace_at_bottom_demotes() {
    let mut list = TaskList::new_at(0);
    for (d, id) in [("A", 1), ("B", 2), ("C", 3)] {
        assert!(list.add(Task::with_uuid(d, id)));
    }
    let mut b = list.get(2).unwrap().duplicate();
    b.toggle_dot();
    assert!(list.replace(2, b));
    assert_eq!(ids(&list), vec![1, 2, 3]);
    assert!(list.get(2).unwrap().dot());
    let mut a = list.get(1).unwrap().duplicate();
    a.update_description("A2");
    assert!(list.replace_at_bottom(1, a));
    assert_eq!(ids(&list), vec![2, 3, 1]);
    assert_eq!(list.get(1).unwrap().description(), "A2");
    assert!(!list.replace(7, Task::with_uuid("none", 7)));
    assert!(!list.replace_at_bottom(7, Task::with_uuid("none", 7)));
    assert_eq!(ids(&list), vec![2, 3, 1]);
}

#[test]
fn remove_takes_the_task_out() {
    let mut list = TaskList::new_at(0);
    for (d, id) in [("A", 1), ("B", 2), ("C", 3)] {
        assert!(list.add(Task::with_uuid(d, id)));
    }
    assert!(list.remove(2));
    assert!(!list.remove(2));
    assert_eq!(ids(&list), vec![1, 3]);
    assert!(list.get(2).is_none());
}

/// Eight tasks, one for each combination of complete, current and dotted.
fn fixture(now: i64) -> TaskList {
    let mut list = TaskList::new_at(now);
    let mut id: u128 = 0;
    for complete in [false, true] {
        for current in [false, true] {
            for dot in [false, true] {
                id += 1;
                let t = Task::from_parts(
                    id,
                    &format!("{id}"),
                    dot,
                    if complete { Some(now - 100) } else { None },
                    None,
                    None,
                    if current { None } else { Some(now + 100) },
                )
                .unwrap();
                assert!(list.add(t));
            }
        }
    }
    list
}

#[test]
fn focus_filters_show_incomplete_current_dotted_only() {
    let mut list = fixture(JAN_1_2024);
    list.toggle_dotted_only();
    let f = list.filters();
    assert!(!f.show_completed && f.future_filter && f.show_dotted_only);
    // ids: 1 incomplete, not current, undotted ... 4 incomplete, current, dotted.
    assert_eq!(shown_ids(&list), vec![4]);
}

#[test]
fn each_filter_alone() {
    let mut list = fixture(JAN_1_2024);
    assert_eq!(shown_ids(&list), vec![3, 4]);
    list.toggle_future_filter();
    assert_eq!(shown_ids(&list), vec![1, 2, 3, 4]);
    list.toggle_show_completed();
    assert_eq!(shown_ids(&list), vec![1, 2, 3, 4, 5, 6, 7, 8]);
    list.toggle_dotted_only();
    assert_eq!(shown_ids(&list), vec![2, 4, 6, 8]);
    list.toggle_future_filter();
    assert_eq!(shown_ids(&list), vec![4, 8]);
}

#[test]
fn recurring_task_in_cooldown_is_hidden() {
    let mut t = Task::with_uuid("r", 1);
    t.set_recur_daily();
    t.complete_at(JAN_1_2024 + 6 * 3600);
    let mut list = TaskList::new_at(JAN_1_2024 + 7 * 3600);
    assert!(list.add(t));
    assert!(list.filtered_tasks().is_empty());
    assert!(!list.pre_render_at(JAN_1_2024 + DAY + 5 * 3600));
    assert_eq!(shown_ids(&list), vec![1]);
}
