use goals::{
    wizard, DailyObjective, DayWeekYear, Disposition, Notice, Reply, Request, Session,
    SessionError, Step, StorageError, StoredTask, Task, TaskStatus, TaskWrite, Upsert, WeeklyGoal,
};

fn today() -> DayWeekYear {
    DayWeekYear::from_parts(45, 7, 2025).unwrap()
}

fn ask(request: Request) -> Step {
    Step { notice: None, request }
}

fn show(notice: Notice, request: Request) -> Step {
    Step { notice: Some(notice), request }
}

fn text(s: &str) -> Reply {
    Reply::Text(String::from(s))
}

fn row(s: &str) -> Reply {
    Reply::Row(Some(String::from(s)))
}

fn goal_notice(s: &str) -> Notice {
    Notice::Goal { text: String::from(s), week: 7 }
}

fn objective_notice(s: &str) -> Notice {
    Notice::Objective { text: String::from(s), day: 45 }
}

fn find_objective() -> Request {
    Request::FindObjective { day: 45, year: 2025 }
}

fn texts(tasks: &Vec<Task>) -> Vec<String> {
    tasks.iter().map(|task| task.to_text()).collect()
}

/// A wizard that has the goal and the objective from the store and waits for the tasks.
fn wizard_at_the_tasks() -> Session {
    let (mut session, _) = wizard(today());
    session.step(row("Finish report"));
    let step = session.step(row("Write the summary"));
    assert_eq!(step.request, Request::ListTasks);
    session
}

fn stored(id: i64, text: &str, status: &str) -> StoredTask {
    StoredTask { id, text: Some(String::from(text)), status: String::from(status) }
}

fn three_unfinished() -> Vec<StoredTask> {
    vec![
        stored(1, "email client", "T"),
        stored(2, "done long ago", "D"),
        stored(3, "review PR", "T"),
        stored(4, "write tests", "T"),
    ]
}

#[test]
fn wizard_starts_with_its_title_and_the_lookup_of_the_week() {
    let (session, first) = wizard(today());
    assert_eq!(first, show(Notice::Title, Request::FindGoal { week: 7, year: 2025 }));
    assert!(!session.is_finished());
    assert_eq!(session.result(), Ok(()));
    assert_eq!(*session.goal(), None);
    assert_eq!(*session.objective(), None);
}

#[test]
fn wizard_shows_a_goal_on_record_and_asks_nobody() {
    let (mut session, _) = wizard(today());
    let step = session.step(row("Finish report"));
    assert_eq!(step, show(goal_notice("Finish report"), find_objective()));
    assert_eq!(*session.goal(), Some(WeeklyGoal::from_db(String::from("Finish report"), 7, 2025)));
}

#[test]
fn wizard_asks_for_a_goal_that_is_not_on_record_and_saves_it() {
    let (mut session, _) = wizard(today());
    assert_eq!(session.step(Reply::Row(None)), ask(Request::AskGoal));
    let step = session.step(text("  Finish report "));
    assert_eq!(
        step,
        ask(Request::SaveGoal(Upsert { period: 7, year: 2025, text: String::from("Finish report") }))
    );
    let goal = session.goal().clone().unwrap();
    assert_eq!(goal.text, "Finish report");
    assert!(!goal.persisted());
    let step = session.step(Reply::Done);
    assert_eq!(step, show(goal_notice("Finish report"), find_objective()));
    let goal = session.goal().clone().unwrap();
    assert_eq!(goal.text, "Finish report");
    assert!(goal.persisted());
}

#[test]
fn wizard_ends_when_the_lookup_of_the_goal_fails() {
    let (mut session, _) = wizard(today());
    let step = session.step(Reply::Failed(StorageError::Unavailable));
    assert_eq!(step, ask(Request::Finish(Err(SessionError::StorageUnavailable))));
    assert!(session.is_finished());
    assert_eq!(session.result(), Err(SessionError::StorageUnavailable));
}

#[test]
fn wizard_ends_when_the_user_cannot_be_asked_for_the_goal() {
    let (mut session, _) = wizard(today());
    session.step(Reply::Row(None));
    let step = session.step(Reply::InputClosed);
    assert_eq!(step, ask(Request::Finish(Err(SessionError::InputClosed))));
    assert_eq!(*session.goal(), None);
}

#[test]
fn wizard_ends_when_the_goal_cannot_be_written() {
    let (mut session, _) = wizard(today());
    session.step(Reply::Row(None));
    session.step(text("Finish report"));
    let step = session.step(Reply::Failed(StorageError::Unavailable));
    assert_eq!(step, ask(Request::Finish(Err(SessionError::StorageUnavailable))));
    assert!(!session.goal().clone().unwrap().persisted());
}

#[test]
fn wizard_reports_a_conflict_as_a_schema_violation() {
    let (mut session, _) = wizard(today());
    session.step(Reply::Row(None));
    session.step(text("Finish report"));
    let step = session.step(Reply::Failed(StorageError::Conflict));
    assert_eq!(step, ask(Request::Finish(Err(SessionError::SchemaViolation))));
}

#[test]
fn wizard_shows_an_objective_on_record_and_goes_on_to_the_tasks() {
    let (mut session, _) = wizard(today());
    session.step(row("Finish report"));
    let step = session.step(row("Write the summary"));
    assert_eq!(step, show(objective_notice("Write the summary"), Request::ListTasks));
    assert_eq!(
        *session.objective(),
        Some(DailyObjective::from_db(String::from("Write the summary"), 45, 2025))
    );
}

#[test]
fn wizard_asks_for_an_objective_that_is_not_on_record_and_saves_it() {
    let (mut session, _) = wizard(today());
    session.step(row("Finish report"));
    let step = session.step(Reply::Row(None));
    assert_eq!(step, ask(Request::AskObjective { default: None }));
    let step = session.step(text("Write the summary\n"));
    assert_eq!(
        step,
        ask(Request::SaveObjective(Upsert {
            period: 45,
            year: 2025,
            text: String::from("Write the summary")
        }))
    );
    assert!(!session.objective().clone().unwrap().persisted());
    let step = session.step(Reply::Done);
    assert_eq!(step, show(objective_notice("Write the summary"), Request::ListTasks));
    assert!(session.objective().clone().unwrap().persisted());
}

#[test]
fn wizard_invites_tasks_at_once_where_none_is_unfinished() {
    let mut session = wizard_at_the_tasks();
    let rows = vec![stored(1, "old", "D"), stored(2, "gone", "X"), stored(3, "later", "S")];
    assert_eq!(session.step(Reply::Tasks(rows)), ask(Request::AskTask));
    assert!(session.tasks().is_empty());
    let mut session = wizard_at_the_tasks();
    assert_eq!(session.step(Reply::Tasks(Vec::new())), ask(Request::AskTask));
}

#[test]
fn wizard_goes_through_the_unfinished_tasks_then_takes_new_ones() {
    let mut session = wizard_at_the_tasks();
    let step = session.step(Reply::Tasks(three_unfinished()));
    assert_eq!(
        step,
        show(
            Notice::Unfinished(vec![
                String::from("email client"),
                String::from("review PR"),
                String::from("write tests")
            ]),
            Request::AskDisposition { task: String::from("email client") }
        )
    );
    let step = session.step(Reply::Choice(Disposition::MoveToToday));
    assert_eq!(step, ask(Request::AskDisposition { task: String::from("review PR") }));
    let step = session.step(Reply::Choice(Disposition::Discard));
    assert_eq!(step, ask(Request::AskDisposition { task: String::from("write tests") }));
    let step = session.step(Reply::Choice(Disposition::Snooze));
    assert_eq!(step, ask(Request::AskTask));

    assert_eq!(texts(&session.today_list()), ["email client"]);
    assert_eq!(texts(session.tasks()), ["email client", "review PR", "write tests"]);
    let statuses: Vec<TaskStatus> = session.tasks().iter().map(|task| task.status()).collect();
    assert_eq!(statuses, [TaskStatus::ToDo, TaskStatus::Discarded, TaskStatus::ToDo]);

    assert_eq!(session.step(text(" call bank ")), ask(Request::AskTask));
    assert_eq!(session.step(text("book flight")), ask(Request::AskTask));
    assert_eq!(texts(&session.today_list()), ["email client", "call bank", "book flight"]);

    let step = session.step(text("   "));
    assert_eq!(
        step,
        ask(Request::SaveTask(TaskWrite {
            id: Some(3),
            text: String::from("review PR"),
            status: TaskStatus::Discarded
        }))
    );
    let step = session.step(Reply::Done);
    assert_eq!(
        step,
        ask(Request::SaveTask(TaskWrite {
            id: None,
            text: String::from("call bank"),
            status: TaskStatus::ToDo
        }))
    );
    let step = session.step(Reply::Done);
    assert_eq!(
        step,
        ask(Request::SaveTask(TaskWrite {
            id: None,
            text: String::from("book flight"),
            status: TaskStatus::ToDo
        }))
    );
    let step = session.step(Reply::Done);
    assert_eq!(step, ask(Request::Finish(Ok(()))));
    assert!(session.is_finished());
    assert_eq!(
        texts(session.tasks()),
        ["email client", "review PR", "write tests", "call bank", "book flight"]
    );
    assert!(session.tasks().iter().all(|task| task.persisted()));
    assert_eq!(texts(&session.today_list()), ["email client", "call bank", "book flight"]);
    assert!(session.today_list().iter().all(|task| task.persisted()));
}

#[test]
fn wizard_ends_without_a_write_where_no_task_changed() {
    let mut session = wizard_at_the_tasks();
    session.step(Reply::Tasks(three_unfinished()));
    session.step(Reply::Choice(Disposition::MoveToToday));
    session.step(Reply::Choice(Disposition::Snooze));
    session.step(Reply::Choice(Disposition::Snooze));
    let step = session.step(text(""));
    assert_eq!(step, ask(Request::Finish(Ok(()))));
    assert_eq!(texts(&session.today_list()), ["email client"]);
}

#[test]
fn wizard_takes_the_end_of_input_as_the_end_of_the_entry() {
    let mut session = wizard_at_the_tasks();
    session.step(Reply::Tasks(Vec::new()));
    session.step(text("call bank"));
    let step = session.step(Reply::InputClosed);
    assert_eq!(
        step,
        ask(Request::SaveTask(TaskWrite {
            id: None,
            text: String::from("call bank"),
            status: TaskStatus::ToDo
        }))
    );
    assert_eq!(session.step(Reply::Done), ask(Request::Finish(Ok(()))));
}

#[test]
fn wizard_ends_when_no_choice_can_be_had_for_a_task() {
    let mut session = wizard_at_the_tasks();
    session.step(Reply::Tasks(three_unfinished()));
    session.step(Reply::Choice(Disposition::Discard));
    let step = session.step(Reply::InputClosed);
    assert_eq!(step, ask(Request::Finish(Err(SessionError::InputClosed))));
}

#[test]
fn wizard_ends_when_the_tasks_cannot_be_read() {
    let mut session = wizard_at_the_tasks();
    let step = session.step(Reply::Failed(StorageError::Unavailable));
    assert_eq!(step, ask(Request::Finish(Err(SessionError::StorageUnavailable))));
}

#[test]
fn wizard_reports_a_task_that_was_not_saved_and_saves_the_rest() {
    let mut session = wizard_at_the_tasks();
    session.step(Reply::Tasks(Vec::new()));
    session.step(text("call bank"));
    session.step(text("book flight"));
    session.step(text("pay rent"));
    let step = session.step(text(""));
    assert!(matches!(step.request, Request::SaveTask(_)));
    let step = session.step(Reply::Failed(StorageError::Conflict));
    assert_eq!(
        step,
        show(
            Notice::TaskNotSaved { text: String::from("call bank") },
            Request::SaveTask(TaskWrite {
                id: None,
                text: String::from("book flight"),
                status: TaskStatus::ToDo
            })
        )
    );
    let step = session.step(Reply::Done);
    assert!(matches!(step.request, Request::SaveTask(_)));
    let step = session.step(Reply::Failed(StorageError::Unavailable));
    assert_eq!(
        step,
        show(
            Notice::TaskNotSaved { text: String::from("pay rent") },
            Request::Finish(Err(SessionError::SchemaViolation))
        )
    );
    let saved: Vec<bool> = session.tasks().iter().map(|task| task.persisted()).collect();
    assert_eq!(saved, [false, true, false]);
    assert_eq!(session.result(), Err(SessionError::SchemaViolation));
}

#[test]
fn finished_session_stays_finished() {
    let (mut session, _) = wizard(today());
    session.step(Reply::Failed(StorageError::Conflict));
    for reply in [Reply::Done, text("again"), Reply::Row(None), Reply::InputClosed] {
        let step = session.step(reply);
        assert_eq!(step, ask(Request::Finish(Err(SessionError::SchemaViolation))));
        assert!(session.is_finished());
    }
}

#[test]
fn reply_that_does_not_fit_a_lookup_counts_as_a_failure_of_the_store() {
    let (mut session, _) = wizard(today());
    let step = session.step(text("not a row"));
    assert_eq!(step, ask(Request::Finish(Err(SessionError::StorageUnavailable))));
}

#[test]
fn reply_that_does_not_fit_a_question_counts_as_closed_input() {
    let (mut session, _) = wizard(today());
    session.step(Reply::Row(None));
    let step = session.step(Reply::Done);
    assert_eq!(step, ask(Request::Finish(Err(SessionError::InputClosed))));
}

#[test]
fn weekly_entry_asks_shows_confirms_and_saves() {
    let (mut session, first) = WeeklyGoal::input_and_save(today());
    assert_eq!(first, ask(Request::AskGoal));
    let step = session.step(text(" Finish report "));
    assert_eq!(step, show(goal_notice("Finish report"), Request::ConfirmGoal));
    let step = session.step(Reply::Confirmed(true));
    assert_eq!(
        step,
        ask(Request::SaveGoal(Upsert { period: 7, year: 2025, text: String::from("Finish report") }))
    );
    assert!(!session.goal().clone().unwrap().persisted());
    let step = session.step(Reply::Done);
    assert_eq!(step, ask(Request::Finish(Ok(()))));
    assert!(session.goal().clone().unwrap().persisted());
    assert!(session.is_finished());
}

#[test]
fn weekly_entry_saves_nothing_when_the_user_says_no() {
    let (mut session, _) = WeeklyGoal::input_and_save(today());
    session.step(text("Finish report"));
    let step = session.step(Reply::Confirmed(false));
    assert_eq!(step, show(Notice::Cancelled, Request::Finish(Ok(()))));
    assert!(!session.goal().clone().unwrap().persisted());
}

#[test]
fn weekly_entry_saves_nothing_when_the_confirmation_cannot_be_read() {
    let (mut session, _) = WeeklyGoal::input_and_save(today());
    session.step(text("Finish report"));
    let step = session.step(Reply::InputClosed);
    assert_eq!(step, show(Notice::NoAnswer, Request::Finish(Ok(()))));
    assert!(!session.goal().clone().unwrap().persisted());
}

#[test]
fn weekly_entry_ends_when_the_goal_cannot_be_read() {
    let (mut session, _) = WeeklyGoal::input_and_save(today());
    let step = session.step(Reply::InputClosed);
    assert_eq!(step, ask(Request::Finish(Err(SessionError::InputClosed))));
}

#[test]
fn weekly_entry_ends_when_the_goal_cannot_be_written() {
    let (mut session, _) = WeeklyGoal::input_and_save(today());
    session.step(text("Finish report"));
    session.step(Reply::Confirmed(true));
    let step = session.step(Reply::Failed(StorageError::Unavailable));
    assert_eq!(step, ask(Request::Finish(Err(SessionError::StorageUnavailable))));
    assert!(!session.goal().clone().unwrap().persisted());
}

#[test]
fn daily_entry_shows_the_goal_on_record_then_asks_for_the_objective() {
    let (mut session, first) = DailyObjective::input_and_save(today());
    assert_eq!(first, ask(Request::FindGoal { week: 7, year: 2025 }));
    let step = session.step(row("Finish report"));
    assert_eq!(step, show(goal_notice("Finish report"), find_objective()));
    let step = session.step(Reply::Row(None));
    assert_eq!(step, ask(Request::AskObjective { default: None }));
    let step = session.step(text("Write the summary"));
    assert_eq!(step, show(objective_notice("Write the summary"), Request::ConfirmObjective));
    let step = session.step(Reply::Confirmed(true));
    assert_eq!(
        step,
        ask(Request::SaveObjective(Upsert {
            period: 45,
            year: 2025,
            text: String::from("Write the summary")
        }))
    );
    let step = session.step(Reply::Done);
    assert_eq!(step, ask(Request::Finish(Ok(()))));
    assert!(session.objective().clone().unwrap().persisted());
}

#[test]
fn daily_entry_asks_for_a_missing_goal_and_does_not_save_it() {
    let (mut session, _) = DailyObjective::input_and_save(today());
    assert_eq!(session.step(Reply::Row(None)), ask(Request::AskGoal));
    let step = session.step(text("Finish report"));
    assert_eq!(step, show(goal_notice("Finish report"), find_objective()));
    assert!(!session.goal().clone().unwrap().persisted());
}

#[test]
fn daily_entry_offers_the_objective_on_record_as_the_answer() {
    let (mut session, _) = DailyObjective::input_and_save(today());
    session.step(row("Finish report"));
    let step = session.step(row("Write the summary"));
    assert_eq!(
        step,
        ask(Request::AskObjective { default: Some(String::from("Write the summary")) })
    );
    let step = session.step(text("Write the summary"));
    assert_eq!(step, show(objective_notice("Write the summary"), Request::ConfirmObjective));
    let step = session.step(Reply::Confirmed(true));
    assert!(matches!(step.request, Request::SaveObjective(_)));
}

#[test]
fn daily_entry_offers_no_empty_answer() {
    let (mut session, _) = DailyObjective::input_and_save(today());
    session.step(row("Finish report"));
    let step = session.step(row(""));
    assert_eq!(step, ask(Request::AskObjective { default: None }));
}

#[test]
fn daily_entry_saves_nothing_when_the_user_says_no() {
    let (mut session, _) = DailyObjective::input_and_save(today());
    session.step(row("Finish report"));
    session.step(Reply::Row(None));
    session.step(text("Write the summary"));
    let step = session.step(Reply::Confirmed(false));
    assert_eq!(step, show(Notice::Cancelled, Request::Finish(Ok(()))));
    let (mut session, _) = DailyObjective::input_and_save(today());
    session.step(row("Finish report"));
    session.step(Reply::Row(None));
    session.step(text("Write the summary"));
    let step = session.step(Reply::InputClosed);
    assert_eq!(step, show(Notice::NoAnswer, Request::Finish(Ok(()))));
}

#[test]
fn daily_entry_ends_when_a_lookup_fails() {
    let (mut session, _) = DailyObjective::input_and_save(today());
    let step = session.step(Reply::Failed(StorageError::Unavailable));
    assert_eq!(step, ask(Request::Finish(Err(SessionError::StorageUnavailable))));
    let (mut session, _) = DailyObjective::input_and_save(today());
    session.step(row("Finish report"));
    let step = session.step(Reply::Failed(StorageError::Unavailable));
    assert_eq!(step, ask(Request::Finish(Err(SessionError::StorageUnavailable))));
}

#[test]
fn storage_errors_map_to_session_errors() {
    assert_eq!(SessionError::from(StorageError::Unavailable), SessionError::StorageUnavailable);
    assert_eq!(SessionError::from(StorageError::Conflict), SessionError::SchemaViolation);
}

#[test]
fn errors_say_what_went_wrong() {
    assert_eq!(StorageError::Unavailable.message(), "the store is unavailable");
    assert_eq!(StorageError::Conflict.message(), "the store already holds a row with this key");
    assert_eq!(SessionError::StorageUnavailable.message(), "the store is unavailable");
    assert_eq!(SessionError::InputClosed.message(), "no answer could be read");
    assert_eq!(
        SessionError::SchemaViolation.message(),
        "the store already holds a row with this key"
    );
}
