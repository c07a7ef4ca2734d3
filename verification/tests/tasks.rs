use goals::{Disposition, StorageError, StoredTask, Task, TaskStatus, TaskWrite};

fn texts(tasks: &Vec<Task>) -> Vec<String> {
    tasks.iter().map(|task| task.to_text()).collect()
}

fn statuses(tasks: &Vec<Task>) -> Vec<TaskStatus> {
    tasks.iter().map(|task| task.status()).collect()
}

fn three_unfinished() -> Vec<Task> {
    vec![
        Task::from_db(1, String::from("email client"), TaskStatus::ToDo),
        Task::from_db(2, String::from("review PR"), TaskStatus::ToDo),
        Task::from_db(3, String::from("write tests"), TaskStatus::ToDo),
    ]
}

#[test]
fn status_codes_are_t_d_s_x() {
    assert_eq!(TaskStatus::ToDo.code(), 'T');
    assert_eq!(TaskStatus::Done.code(), 'D');
    assert_eq!(TaskStatus::Snoozed.code(), 'S');
    assert_eq!(TaskStatus::Discarded.code(), 'X');
}

#[test]
fn status_codes_read_back() {
    for status in
        [TaskStatus::ToDo, TaskStatus::Done, TaskStatus::Snoozed, TaskStatus::Discarded]
    {
        assert_eq!(TaskStatus::from_code(status.code()), Some(status));
    }
}

#[test]
fn unknown_status_codes_are_refused() {
    assert_eq!(TaskStatus::from_code('t'), None);
    assert_eq!(TaskStatus::from_code('?'), None);
    assert_eq!(TaskStatus::from_code(' '), None);
}

#[test]
fn default_status_is_to_do() {
    assert_eq!(TaskStatus::default(), TaskStatus::ToDo);
}

#[test]
fn new_task_is_unsaved_and_has_no_identity() {
    let task = Task::new(String::from("email client"), TaskStatus::ToDo);
    assert_eq!(task.to_text(), "email client");
    assert_eq!(task.status(), TaskStatus::ToDo);
    assert!(!task.persisted());
    assert_eq!(task.id(), None);
}

#[test]
fn default_task_is_an_empty_task_to_do() {
    let task = Task::default();
    assert_eq!(task.to_text(), "");
    assert_eq!(task.status(), TaskStatus::ToDo);
    assert!(!task.persisted());
    assert_eq!(task.id(), None);
}

#[test]
fn task_from_db_is_persisted_under_its_identity() {
    let task = Task::from_db(7, String::from("review PR"), TaskStatus::Done);
    assert_eq!(task.to_text(), "review PR");
    assert_eq!(task.status(), TaskStatus::Done);
    assert!(task.persisted());
    assert_eq!(task.id(), Some(7));
}

#[test]
fn clone_of_a_task_has_the_same_fields() {
    let task = Task::from_db(7, String::from("review PR"), TaskStatus::Snoozed);
    let copy = task.clone();
    assert_eq!(copy.to_text(), "review PR");
    assert_eq!(copy.status(), TaskStatus::Snoozed);
    assert!(copy.persisted());
    assert_eq!(copy.id(), Some(7));
}

#[test]
fn discarding_a_task_to_do_changes_it_and_leaves_it_unsaved() {
    let task = Task::from_db(2, String::from("review PR"), TaskStatus::ToDo);
    let after = task.reconcile(Disposition::Discard);
    assert_eq!(after.status(), TaskStatus::Discarded);
    assert!(!after.persisted());
    assert_eq!(after.id(), Some(2));
    assert_eq!(after.to_text(), "review PR");
    assert!(!task.moves_to_today(Disposition::Discard));
}

#[test]
fn moving_a_task_to_today_leaves_it_as_it_is() {
    let task = Task::from_db(1, String::from("email client"), TaskStatus::ToDo);
    let after = task.reconcile(Disposition::MoveToToday);
    assert_eq!(after.status(), TaskStatus::ToDo);
    assert!(after.persisted());
    assert!(task.moves_to_today(Disposition::MoveToToday));
}

#[test]
fn snoozing_a_task_leaves_it_to_do() {
    let task = Task::from_db(3, String::from("write tests"), TaskStatus::ToDo);
    let after = task.reconcile(Disposition::Snooze);
    assert_eq!(after.status(), TaskStatus::ToDo);
    assert!(after.persisted());
    assert!(!task.moves_to_today(Disposition::Snooze));
}

#[test]
fn a_task_done_or_discarded_stays_so() {
    for status in [TaskStatus::Done, TaskStatus::Discarded] {
        for choice in [Disposition::MoveToToday, Disposition::Discard, Disposition::Snooze] {
            let task = Task::from_db(4, String::from("old"), status);
            let after = task.reconcile(choice);
            assert_eq!(after.status(), status);
            assert!(after.persisted());
            assert!(!task.moves_to_today(choice));
        }
    }
}

#[test]
fn list_keeps_the_tasks_to_do_in_order() {
    let stored = vec![
        Task::from_db(1, String::from("a"), TaskStatus::ToDo),
        Task::from_db(2, String::from("b"), TaskStatus::Done),
        Task::from_db(3, String::from("c"), TaskStatus::ToDo),
        Task::from_db(4, String::from("d"), TaskStatus::Discarded),
        Task::from_db(5, String::from("e"), TaskStatus::Snoozed),
        Task::from_db(6, String::from("a"), TaskStatus::ToDo),
    ];
    let todo = Task::list(&stored);
    assert_eq!(texts(&todo), ["a", "c", "a"]);
    let ids: Vec<Option<i64>> = todo.iter().map(|task| task.id()).collect();
    assert_eq!(ids, [Some(1), Some(3), Some(6)]);
    assert!(todo.iter().all(|task| task.persisted()));
}

#[test]
fn list_of_no_tasks_and_of_finished_tasks_is_empty() {
    assert!(Task::list(&Vec::new()).is_empty());
    let finished = vec![
        Task::from_db(1, String::from("a"), TaskStatus::Done),
        Task::from_db(2, String::from("b"), TaskStatus::Discarded),
    ];
    assert!(Task::list(&finished).is_empty());
}

#[test]
fn get_todos_is_empty_where_nothing_is_to_do() {
    assert_eq!(texts(&Task::get_todos(&Vec::new())), Vec::<String>::new());
    let finished = vec![
        StoredTask { id: 1, text: Some(String::from("a")), status: String::from("D") },
        StoredTask { id: 2, text: Some(String::from("b")), status: String::from("X") },
        StoredTask { id: 3, text: Some(String::from("c")), status: String::from("S") },
    ];
    assert!(Task::get_todos(&finished).is_empty());
}

#[test]
fn get_todos_returns_the_tasks_to_do_in_the_order_of_the_rows() {
    let rows = vec![
        StoredTask { id: 1, text: Some(String::from("a")), status: String::from("D") },
        StoredTask { id: 2, text: Some(String::from("b")), status: String::from("T") },
        StoredTask { id: 3, text: Some(String::from("c")), status: String::from("not a status") },
        StoredTask { id: 4, text: None, status: String::from("T") },
        StoredTask { id: 5, text: Some(String::from("b")), status: String::from("T") },
    ];
    let todo = Task::get_todos(&rows);
    assert_eq!(texts(&todo), ["b", "", "b"]);
    let ids: Vec<Option<i64>> = todo.iter().map(|task| task.id()).collect();
    assert_eq!(ids, [Some(2), Some(4), Some(5)]);
    assert!(todo.iter().all(|task| task.persisted() && task.status() == TaskStatus::ToDo));
}

#[test]
fn reprioritize_moves_discards_and_snoozes() {
    let choices = vec![Disposition::MoveToToday, Disposition::Discard, Disposition::Snooze];
    let r = Task::reprioritize(&three_unfinished(), &choices);
    assert_eq!(texts(&r.today), ["email client"]);
    assert_eq!(texts(&r.tasks), ["email client", "review PR", "write tests"]);
    assert_eq!(
        statuses(&r.tasks),
        [TaskStatus::ToDo, TaskStatus::Discarded, TaskStatus::ToDo]
    );
    let unsaved: Vec<bool> = r.tasks.iter().map(|task| !task.persisted()).collect();
    assert_eq!(unsaved, [false, true, false]);
}

#[test]
fn reprioritize_leaves_tasks_without_a_choice_for_another_day() {
    let choices = vec![Disposition::Discard];
    let r = Task::reprioritize(&three_unfinished(), &choices);
    assert!(r.today.is_empty());
    assert_eq!(
        statuses(&r.tasks),
        [TaskStatus::Discarded, TaskStatus::ToDo, TaskStatus::ToDo]
    );
}

#[test]
fn reprioritize_ignores_choices_beyond_the_tasks() {
    let choices = vec![
        Disposition::MoveToToday,
        Disposition::MoveToToday,
        Disposition::MoveToToday,
        Disposition::Discard,
    ];
    let r = Task::reprioritize(&three_unfinished(), &choices);
    assert_eq!(texts(&r.today), ["email client", "review PR", "write tests"]);
    assert_eq!(r.tasks.len(), 3);
}

#[test]
fn reprioritize_of_nothing_is_nothing() {
    let r = Task::reprioritize(&Vec::new(), &vec![Disposition::MoveToToday]);
    assert!(r.tasks.is_empty());
    assert!(r.today.is_empty());
    let r = Task::reprioritize(&Vec::new(), &Vec::new());
    assert!(r.tasks.is_empty());
    assert!(r.today.is_empty());
}

#[test]
fn input_of_a_text_is_a_new_task_to_do() {
    let task = Task::input("  write tests \n").unwrap();
    assert_eq!(task.to_text(), "write tests");
    assert_eq!(task.status(), TaskStatus::ToDo);
    assert!(!task.persisted());
    assert_eq!(task.id(), None);
}

#[test]
fn input_of_a_blank_answer_is_no_task() {
    assert!(Task::input("").is_none());
    assert!(Task::input("   \t").is_none());
}

#[test]
fn input_new_tasks_stops_at_the_first_blank_answer() {
    let mut todo = vec![Task::from_db(1, String::from("email client"), TaskStatus::ToDo)];
    let answers = vec![
        String::from("call bank "),
        String::from(" book flight"),
        String::from("  "),
        String::from("never read"),
    ];
    Task::input_new_tasks(&mut todo, &answers);
    assert_eq!(texts(&todo), ["email client", "call bank", "book flight"]);
    assert!(todo[0].persisted());
    assert!(!todo[1].persisted());
    assert!(!todo[2].persisted());
    assert_eq!(statuses(&todo), [TaskStatus::ToDo, TaskStatus::ToDo, TaskStatus::ToDo]);
}

#[test]
fn input_new_tasks_takes_every_answer_where_none_is_blank() {
    let mut todo = Vec::new();
    Task::input_new_tasks(&mut todo, &vec![String::from("a"), String::from("b")]);
    assert_eq!(texts(&todo), ["a", "b"]);
}

#[test]
fn input_new_tasks_adds_nothing_without_answers() {
    let mut todo = vec![Task::new(String::from("a"), TaskStatus::ToDo)];
    Task::input_new_tasks(&mut todo, &Vec::new());
    assert_eq!(texts(&todo), ["a"]);
    Task::input_new_tasks(&mut todo, &vec![String::new(), String::from("b")]);
    assert_eq!(texts(&todo), ["a"]);
}

#[test]
fn new_task_has_a_pending_write_without_identity() {
    let task = Task::new(String::from("call bank"), TaskStatus::ToDo);
    assert_eq!(
        task.pending(),
        Some(TaskWrite { id: None, text: String::from("call bank"), status: TaskStatus::ToDo })
    );
}

#[test]
fn discarded_task_has_a_pending_write_under_its_identity() {
    let task = Task::from_db(2, String::from("review PR"), TaskStatus::ToDo)
        .reconcile(Disposition::Discard);
    assert_eq!(
        task.pending(),
        Some(TaskWrite {
            id: Some(2),
            text: String::from("review PR"),
            status: TaskStatus::Discarded
        })
    );
}

#[test]
fn persisted_task_has_no_pending_write() {
    let task = Task::from_db(2, String::from("review PR"), TaskStatus::ToDo);
    assert_eq!(task.pending(), None);
}

#[test]
fn task_save_follows_the_outcome_of_the_write() {
    let mut task = Task::new(String::from("call bank"), TaskStatus::ToDo);
    assert_eq!(task.save(Err(StorageError::Unavailable)), Err(StorageError::Unavailable));
    assert!(!task.persisted());
    assert_eq!(task.save(Err(StorageError::Conflict)), Err(StorageError::Conflict));
    assert!(!task.persisted());
    assert_eq!(task.save(Ok(())), Ok(()));
    assert!(task.persisted());
    assert_eq!(task.pending(), None);
    assert_eq!(task.save(Err(StorageError::Unavailable)), Ok(()));
    assert!(task.persisted());
}

#[test]
fn status_column_has_to_be_exactly_one_code() {
    assert_eq!(TaskStatus::from_column("T"), Some(TaskStatus::ToDo));
    assert_eq!(TaskStatus::from_column("D"), Some(TaskStatus::Done));
    assert_eq!(TaskStatus::from_column("S"), Some(TaskStatus::Snoozed));
    assert_eq!(TaskStatus::from_column("X"), Some(TaskStatus::Discarded));
    assert_eq!(TaskStatus::from_column(""), None);
    assert_eq!(TaskStatus::from_column("TT"), None);
    assert_eq!(TaskStatus::from_column("T "), None);
    assert_eq!(TaskStatus::from_column("ToDo"), None);
    assert_eq!(TaskStatus::from_column("\u{e9}"), None);
}

#[test]
fn row_with_a_status_is_a_persisted_task() {
    let row = StoredTask { id: 5, text: Some(String::from("pay rent")), status: String::from("S") };
    let task = Task::from_row(&row).unwrap();
    assert_eq!(task.id(), Some(5));
    assert_eq!(task.to_text(), "pay rent");
    assert_eq!(task.status(), TaskStatus::Snoozed);
    assert!(task.persisted());
}

#[test]
fn row_without_text_is_a_task_with_an_empty_text() {
    let row = StoredTask { id: 5, text: None, status: String::from("T") };
    let task = Task::from_row(&row).unwrap();
    assert_eq!(task.to_text(), "");
    assert_eq!(task.status(), TaskStatus::ToDo);
}

#[test]
fn row_with_an_unknown_status_is_no_task() {
    let row = StoredTask { id: 5, text: Some(String::from("pay rent")), status: String::from("?") };
    assert!(Task::from_row(&row).is_none());
}

#[test]
fn from_rows_keeps_the_order_and_passes_over_unreadable_rows() {
    let rows = vec![
        StoredTask { id: 1, text: Some(String::from("a")), status: String::from("T") },
        StoredTask { id: 2, text: Some(String::from("b")), status: String::from("todo") },
        StoredTask { id: 3, text: None, status: String::from("X") },
        StoredTask { id: 4, text: Some(String::from("d")), status: String::from("D") },
    ];
    let tasks = Task::from_rows(&rows);
    assert_eq!(texts(&tasks), ["a", "", "d"]);
    assert_eq!(statuses(&tasks), [TaskStatus::ToDo, TaskStatus::Discarded, TaskStatus::Done]);
    let ids: Vec<Option<i64>> = tasks.iter().map(|task| task.id()).collect();
    assert_eq!(ids, [Some(1), Some(3), Some(4)]);
    assert!(Task::from_rows(&Vec::new()).is_empty());
}
