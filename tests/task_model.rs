use task::{in_n_days_5am, Task};

const JAN_1_2024: i64 = 1_704_067_200;
const DAY: i64 = 86_400;
const FIVE_AM: i64 = 18_000;

#[test]
fn anchor_before_five_is_same_day() {
    assert_eq!(in_n_days_5am(JAN_1_2024 + FIVE_AM - 60, 1), JAN_1_2024 + FIVE_AM);
}

#[test]
fn anchor_after_five_is_next_day() {
    assert_eq!(in_n_days_5am(JAN_1_2024 + FIVE_AM + 60, 1), JAN_1_2024 + DAY + FIVE_AM);
}

#[test]
fn anchor_at_five_is_strictly_after() {
    assert_eq!(in_n_days_5am(JAN_1_2024 + FIVE_AM, 1), JAN_1_2024 + DAY + FIVE_AM);
}

#[test]
fn anchor_late_evening_and_early_morning_meet() {
    let evening = in_n_days_5am(JAN_1_2024 + 23 * 3600, 1);
    let morning = in_n_days_5am(JAN_1_2024 + DAY + 3600, 1);
    assert_eq!(evening, JAN_1_2024 + DAY + FIVE_AM);
    assert_eq!(morning, evening);
}

#[test]
fn anchor_three_days_out() {
    assert_eq!(in_n_days_5am(JAN_1_2024 + 6 * 3600, 3), JAN_1_2024 + 3 * DAY + FIVE_AM);
}

#[test]
fn anchor_before_epoch() {
    // 1969-12-31 04:00:00
    assert_eq!(in_n_days_5am(-DAY + 4 * 3600, 1), -DAY + FIVE_AM);
    // 1969-12-31 06:00:00
    assert_eq!(in_n_days_5am(-DAY + 6 * 3600, 1), FIVE_AM);
}

#[test]
fn anchor_holds_at_largest_instant() {
    assert_eq!(in_n_days_5am(i64::MAX - 10, 1), i64::MAX);
    assert_eq!(in_n_days_5am(0, u64::MAX), i64::MAX);
}

#[test]
fn recurrence_anchor_on_completion() {
    let mut early = Task::with_uuid("water plants", 1);
    early.set_recur_daily();
    let mut late = early.duplicate();
    early.complete_at(JAN_1_2024 + FIVE_AM - 60);
    late.complete_at(JAN_1_2024 + FIVE_AM + 60);
    assert_eq!(early.next_occurrence(), Some(JAN_1_2024 + FIVE_AM));
    assert_eq!(late.next_occurrence(), Some(JAN_1_2024 + DAY + FIVE_AM));
    assert_eq!(early.completed(), None);
    assert!(early.is_recurring());
}

#[test]
fn fresh_task_has_nothing_set() {
    let t = Task::with_uuid("buy milk", 42);
    assert_eq!(t.uuid(), 42);
    assert_eq!(t.description(), "buy milk");
    assert!(!t.dot());
    assert_eq!(t.completed(), None);
    assert_eq!(t.next_occurrence(), None);
    assert_eq!(t.recur_interval_days(), None);
    assert_eq!(t.snooze_until(), None);
}

#[test]
fn random_ids_differ() {
    let a = Task::new("a");
    let b = Task::new("b");
    assert_ne!(a.uuid(), b.uuid());
}

#[test]
fn complete_non_recurring_sets_completion_and_clears_dot() {
    let mut t = Task::with_uuid("a", 1);
    t.toggle_dot();
    assert!(t.dot());
    t.complete_at(1000);
    assert!(!t.dot());
    assert!(t.is_complete());
    assert_eq!(t.completed(), Some(1000));
    t.complete_at(2000);
    assert_eq!(t.completed(), Some(2000));
}

#[test]
fn complete_recurring_advances_each_time() {
    let mut t = Task::with_uuid("a", 1);
    t.set_recur_daily();
    t.toggle_dot();
    t.complete_at(JAN_1_2024 + 6 * 3600);
    assert!(!t.dot());
    assert!(!t.is_complete());
    assert_eq!(t.next_occurrence(), Some(JAN_1_2024 + DAY + FIVE_AM));
    assert!(t.not_current_at(JAN_1_2024 + 7 * 3600));
    assert!(!t.not_current_at(JAN_1_2024 + DAY + FIVE_AM));
}

#[test]
fn clear_recur_removes_next_occurrence() {
    let mut t = Task::with_uuid("a", 1);
    t.set_recur_daily();
    t.complete_at(0);
    t.clear_recur();
    assert!(!t.is_recurring());
    assert_eq!(t.next_occurrence(), None);
}

#[test]
fn snooze_tomorrow_and_expiry() {
    let mut t = Task::with_uuid("a", 1);
    t.toggle_dot();
    t.snooze_tomorrow_at(JAN_1_2024 + 6 * 3600);
    assert!(!t.dot());
    let until = JAN_1_2024 + DAY + FIVE_AM;
    assert_eq!(t.snooze_until(), Some(until));
    assert!(t.not_current_at(until - 1));
    assert!(!t.snooze_expiring_at(until - 1));
    assert!(t.snooze_expiring_at(until));
    assert!(!t.not_current_at(until));
    t.unsnooze();
    assert_eq!(t.snooze_until(), None);
    assert!(!t.snooze_expiring_at(until));
}

#[test]
fn snooze_one_second() {
    let mut t = Task::with_uuid("a", 1);
    t.toggle_dot();
    t.snooze_1s_at(100);
    assert!(!t.dot());
    assert_eq!(t.snooze_until(), Some(101));
    t.snooze_1s_at(i64::MAX);
    assert_eq!(t.snooze_until(), Some(i64::MAX));
}

#[test]
fn snooze_with_clock_is_set() {
    let mut t = Task::with_uuid("a", 1);
    t.snooze_1s();
    assert!(t.snooze_until().is_some());
    t.snooze_tomorrow();
    assert!(t.not_current());
    assert!(!t.snooze_expiring());
}

#[test]
fn from_parts_rejects_zero_interval() {
    assert!(Task::from_parts(1, "a", false, None, None, Some(0), None).is_none());
    let t = Task::from_parts(7, "b", true, Some(5), Some(6), Some(2), Some(8)).unwrap();
    assert_eq!(t.uuid(), 7);
    assert_eq!(t.description(), "b");
    assert!(t.dot());
    assert_eq!(t.completed(), Some(5));
    assert_eq!(t.next_occurrence(), Some(6));
    assert_eq!(t.recur_interval_days(), Some(2));
    assert_eq!(t.snooze_until(), Some(8));
}

#[test]
fn fields_read_back_give_the_same_task() {
    let t = Task::from_parts(9, "mixed", true, None, Some(11), Some(1), None).unwrap();
    let back = Task::from_parts(
        t.uuid(),
        t.description(),
        t.dot(),
        t.completed(),
        t.next_occurrence(),
        t.recur_interval_days(),
        t.snooze_until(),
    )
    .unwrap();
    assert_eq!(back.detail_string(), t.detail_string());
    assert_eq!(back.display_line(), t.display_line());
    assert_eq!(back.dot(), t.dot());
}

#[test]
fn display_line_markers() {
    let mut t = Task::with_uuid("plain", 1);
    assert_eq!(t.display_line(), "    plain");
    t.toggle_dot();
    assert_eq!(t.display_line(), "-   plain");
    t.set_recur_daily();
    assert_eq!(t.display_line(), "- R plain");
    let mut done = Task::with_uuid("done", 2);
    done.toggle_dot();
    done.complete_at(0);
    done.toggle_dot();
    assert_eq!(done.display_line(), "D   done");
}

#[test]
fn detail_string_lists_raw_fields() {
    let t = Task::from_parts(
        0x67e5504410b1426f9247bb680e5fe0c8,
        "x",
        false,
        Some(JAN_1_2024),
        None,
        Some(12),
        Some(JAN_1_2024 + FIVE_AM),
    )
    .unwrap();
    assert_eq!(
        t.detail_string(),
        "uuid: 67e55044-10b1-426f-9247-bb680e5fe0c8\n\
         completed: 2024-01-01 00:00:00\n\
         recur_next: None\n\
         recur_interval_days: 12\n\
         snooze_until: 2024-01-01 05:00:00\n"
    );
}

#[test]
fn detail_string_out_of_range_instant() {
    let t = Task::from_parts(0, "x", false, Some(i64::MAX), None, None, None).unwrap();
    assert!(t.detail_string().contains("completed: out of range\n"));
}

#[test]
fn update_description_and_remove_dot() {
    let mut t = Task::with_uuid("old", 1);
    t.update_description("new");
    assert_eq!(t.description(), "new");
    t.toggle_dot();
    t.remove_dot();
    assert!(!t.dot());
}
