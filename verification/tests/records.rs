use goals::{DailyObjective, DayWeekYear, StorageError, Upsert, WeeklyGoal};

fn week_10_of_2024() -> DayWeekYear {
    DayWeekYear::from_parts(64, 10, 2024).unwrap()
}

#[test]
fn new_goal_is_a_draft_for_the_week_of_the_date() {
    let goal = WeeklyGoal::new(String::from("Ship v1"), &week_10_of_2024());
    assert_eq!(goal.text, "Ship v1");
    assert_eq!(goal.week, 10);
    assert_eq!(goal.year, 2024);
    assert!(!goal.persisted());
}

#[test]
fn new_goal_keeps_the_text_as_it_is() {
    let goal = WeeklyGoal::new(String::from("  not trimmed "), &week_10_of_2024());
    assert_eq!(goal.text, "  not trimmed ");
}

#[test]
fn goal_from_db_is_persisted() {
    let goal = WeeklyGoal::from_db(String::from("Ship v1"), 10, 2024);
    assert_eq!(goal.text, "Ship v1");
    assert_eq!(goal.week, 10);
    assert_eq!(goal.year, 2024);
    assert!(goal.persisted());
}

#[test]
fn goal_input_trims_the_answer() {
    let goal = WeeklyGoal::input(&week_10_of_2024(), "  Ship v1\n");
    assert_eq!(goal, WeeklyGoal::new(String::from("Ship v1"), &week_10_of_2024()));
}

#[test]
fn goal_on_record_is_returned_and_nobody_is_asked() {
    let current =
        WeeklyGoal::get_current_or_input(&week_10_of_2024(), Some(String::from("Ship v1")));
    assert_eq!(current, Some(WeeklyGoal::from_db(String::from("Ship v1"), 10, 2024)));
}

#[test]
fn goal_not_on_record_has_to_be_asked_for() {
    assert_eq!(WeeklyGoal::get_current_or_input(&week_10_of_2024(), None), None);
}

#[test]
fn empty_text_on_record_is_still_a_goal() {
    let current = WeeklyGoal::get_current_or_input(&week_10_of_2024(), Some(String::new()));
    assert_eq!(current, Some(WeeklyGoal::from_db(String::new(), 10, 2024)));
}

#[test]
fn draft_goal_has_a_pending_write_of_its_row() {
    let goal = WeeklyGoal::new(String::from("Ship v1"), &week_10_of_2024());
    let row = Upsert { period: 10, year: 2024, text: String::from("Ship v1") };
    assert_eq!(goal.pending(), Some(row.clone()));
    assert_eq!(goal.row(), row);
}

#[test]
fn persisted_goal_has_no_pending_write() {
    let goal = WeeklyGoal::from_db(String::from("Ship v1"), 10, 2024);
    assert_eq!(goal.pending(), None);
    assert_eq!(goal.row(), Upsert { period: 10, year: 2024, text: String::from("Ship v1") });
}

#[test]
fn save_of_a_draft_persists_it_when_the_write_succeeded() {
    let mut goal = WeeklyGoal::new(String::from("Ship v1"), &week_10_of_2024());
    assert_eq!(goal.save(Ok(())), Ok(()));
    assert!(goal.persisted());
    assert_eq!(goal.text, "Ship v1");
    assert_eq!(goal.pending(), None);
}

#[test]
fn save_of_a_draft_keeps_it_a_draft_when_the_store_was_unavailable() {
    let mut goal = WeeklyGoal::new(String::from("Ship v1"), &week_10_of_2024());
    assert_eq!(goal.save(Err(StorageError::Unavailable)), Err(StorageError::Unavailable));
    assert!(!goal.persisted());
    assert!(goal.pending().is_some());
    assert_eq!(goal.save(Ok(())), Ok(()));
    assert!(goal.persisted());
}

#[test]
fn save_of_a_draft_reports_a_conflict() {
    let mut goal = WeeklyGoal::new(String::from("Ship v1"), &week_10_of_2024());
    assert_eq!(goal.save(Err(StorageError::Conflict)), Err(StorageError::Conflict));
    assert!(!goal.persisted());
}

#[test]
fn save_of_a_persisted_goal_succeeds_whatever_the_outcome() {
    let mut goal = WeeklyGoal::from_db(String::from("Ship v1"), 10, 2024);
    assert_eq!(goal.save(Err(StorageError::Unavailable)), Ok(()));
    assert!(goal.persisted());
    assert_eq!(goal.save(Ok(())), Ok(()));
    assert!(goal.persisted());
}

#[test]
fn saved_goal_is_not_written_again_after_an_edit() {
    let mut goal = WeeklyGoal::new(String::from("Ship v1"), &week_10_of_2024());
    assert!(goal.pending().is_some());
    assert_eq!(goal.save(Ok(())), Ok(()));
    goal.text = String::from("Ship v2");
    assert_eq!(goal.pending(), None);
    assert_eq!(goal.save(Ok(())), Ok(()));
    assert_eq!(goal.text, "Ship v2");
}

#[test]
fn default_goal_is_an_empty_draft() {
    let goal = WeeklyGoal::default();
    assert_eq!(goal.text, "");
    assert_eq!(goal.week, 0);
    assert_eq!(goal.year, 0);
    assert!(!goal.persisted());
}

#[test]
fn goals_differ_by_each_field() {
    let goal = WeeklyGoal::from_db(String::from("Ship v1"), 10, 2024);
    assert_ne!(goal, WeeklyGoal::from_db(String::from("Ship v2"), 10, 2024));
    assert_ne!(goal, WeeklyGoal::from_db(String::from("Ship v1"), 11, 2024));
    assert_ne!(goal, WeeklyGoal::from_db(String::from("Ship v1"), 10, 2025));
    assert_ne!(goal, WeeklyGoal::new(String::from("Ship v1"), &week_10_of_2024()));
    assert_eq!(goal.clone(), goal);
}

#[test]
fn goal_to_text_is_its_text() {
    let goal = WeeklyGoal::from_db(String::from("Ship v1"), 10, 2024);
    assert_eq!(goal.to_text(), "Ship v1");
    assert_eq!(goal.week(), 10);
}

#[test]
fn goal_from_str_is_a_draft_for_this_week() {
    let before = DayWeekYear::new();
    let goal = WeeklyGoal::from("Hello");
    let after = DayWeekYear::new();
    assert!(!goal.persisted());
    if before == after {
        assert_eq!(goal.week, before.week());
        assert_eq!(goal.year, before.year());
    }
}

#[test]
fn new_objective_is_a_draft_for_the_day_of_the_date() {
    let objective = DailyObjective::new(String::from("Write tests"), &week_10_of_2024());
    assert_eq!(objective.text, "Write tests");
    assert_eq!(objective.day, 64);
    assert_eq!(objective.year, 2024);
    assert!(!objective.persisted());
}

#[test]
fn objective_from_db_is_persisted() {
    let objective = DailyObjective::from_db(String::from("Write tests"), 64, 2024);
    assert_eq!(objective.day, 64);
    assert_eq!(objective.year, 2024);
    assert!(objective.persisted());
    assert_eq!(objective.to_text(), "Write tests");
    assert_eq!(objective.day(), 64);
}

#[test]
fn objective_input_trims_the_answer() {
    let objective = DailyObjective::input(&week_10_of_2024(), "\tWrite tests  ");
    assert_eq!(objective, DailyObjective::new(String::from("Write tests"), &week_10_of_2024()));
}

#[test]
fn current_objective_is_the_one_on_record() {
    let today = week_10_of_2024();
    assert_eq!(DailyObjective::get_current(&today, None), None);
    assert_eq!(
        DailyObjective::get_current(&today, Some(String::from("Write tests"))),
        Some(DailyObjective::from_db(String::from("Write tests"), 64, 2024))
    );
}

#[test]
fn default_answer_is_the_text_of_the_current_objective() {
    let current = Some(DailyObjective::from_db(String::from("Write tests"), 64, 2024));
    assert_eq!(DailyObjective::default_answer(&current), Some(String::from("Write tests")));
}

#[test]
fn no_default_answer_without_a_current_objective_or_with_an_empty_one() {
    assert_eq!(DailyObjective::default_answer(&None), None);
    let empty = Some(DailyObjective::from_db(String::new(), 64, 2024));
    assert_eq!(DailyObjective::default_answer(&empty), None);
}

#[test]
fn objective_save_follows_the_outcome_of_the_write() {
    let mut objective = DailyObjective::new(String::from("Write tests"), &week_10_of_2024());
    assert_eq!(
        objective.pending(),
        Some(Upsert { period: 64, year: 2024, text: String::from("Write tests") })
    );
    assert_eq!(objective.save(Err(StorageError::Unavailable)), Err(StorageError::Unavailable));
    assert!(!objective.persisted());
    assert_eq!(objective.save(Ok(())), Ok(()));
    assert!(objective.persisted());
    assert_eq!(objective.pending(), None);
    assert_eq!(objective.save(Err(StorageError::Conflict)), Ok(()));
}

#[test]
fn objectives_of_day_1_in_two_years_have_different_rows() {
    let a = DailyObjective::new(
        String::from("plan"),
        &DayWeekYear::from_parts(1, 1, 2024).unwrap(),
    );
    let b = DailyObjective::new(
        String::from("plan"),
        &DayWeekYear::from_parts(1, 1, 2025).unwrap(),
    );
    assert_ne!(a, b);
    assert_ne!(a.row(), b.row());
    assert_eq!(a.row().period, b.row().period);
    assert_ne!(a.row().year, b.row().year);
}

#[test]
fn objectives_differ_by_each_field() {
    let objective = DailyObjective::from_db(String::from("Write tests"), 64, 2024);
    assert_ne!(objective, DailyObjective::from_db(String::from("Write docs"), 64, 2024));
    assert_ne!(objective, DailyObjective::from_db(String::from("Write tests"), 65, 2024));
    assert_ne!(objective, DailyObjective::from_db(String::from("Write tests"), 64, 2023));
    assert_ne!(objective, DailyObjective::new(String::from("Write tests"), &week_10_of_2024()));
    assert_eq!(objective.clone(), objective);
}
