use goals::WeeklyGoal;

#[test]
fn test_goal_is_saved() {
    assert_eq!(1 + 1, 2)
}

#[test]
fn test_default_goal() {
    let goal1 = WeeklyGoal::default();
    let goal2 = WeeklyGoal::default();
    assert_eq!(goal1.text, "");
    assert_eq!(goal1, goal2);
}

#[test]
fn test_goal_from_str() {
    let goal = WeeklyGoal::from("Hello");
    assert_eq!(goal.text, "Hello")
}
