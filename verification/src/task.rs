//! Tasks and what becomes of them from one day to the next.

use crate::error::StorageError;
use crate::text::{trim, trimmed};
use vstd::prelude::*;
use vstd::string::StrSliceExecFns;

verus! {

/// Where a task stands.
#[derive(Debug, Clone, Copy, PartialEq, Eq, Structural)]
pub enum TaskStatus {
    ToDo,
    Done,
    Snoozed,
    Discarded,
}

impl Default for TaskStatus {
    fn default() -> (status: Self)
        ensures
            status == TaskStatus::ToDo,
    {
        TaskStatus::ToDo
    }
}

impl TaskStatus {
    /// A task that is done or discarded stays so.
    pub open spec fn is_final(self) -> bool {
        self == TaskStatus::Done || self == TaskStatus::Discarded
    }

    /// The character that stands for a status in the store.
    pub open spec fn code_of(self) -> char {
        match self {
            TaskStatus::ToDo => 'T',
            TaskStatus::Done => 'D',
            TaskStatus::Snoozed => 'S',
            TaskStatus::Discarded => 'X',
        }
    }

    /// The status that a character of the store stands for, if any.
    pub open spec fn of_code(code: char) -> Option<TaskStatus> {
        if code == 'T' {
            Some(TaskStatus::ToDo)
        } else if code == 'D' {
            Some(TaskStatus::Done)
        } else if code == 'S' {
            Some(TaskStatus::Snoozed)
        } else if code == 'X' {
            Some(TaskStatus::Discarded)
        } else {
            None
        }
    }

    /// The status that the text of a status column stands for: the text has to
    /// be exactly one code.
    pub open spec fn of_column(column: Seq<char>) -> Option<TaskStatus> {
        if column.len() == 1 {
            TaskStatus::of_code(column[0])
        } else {
            None
        }
    }

    /// The character that stands for the status in the store.
    pub fn code(self) -> (code: char)
        ensures
            code == self.code_of(),
    {
        match self {
            TaskStatus::ToDo => 'T',
            TaskStatus::Done => 'D',
            TaskStatus::Snoozed => 'S',
            TaskStatus::Discarded => 'X',
        }
    }

    /// The status that a character of the store stands for, if any.
    pub fn from_code(code: char) -> (status: Option<Self>)
        ensures
            status == TaskStatus::of_code(code),
    {
        if code == 'T' {
            Some(TaskStatus::ToDo)
        } else if code == 'D' {
            Some(TaskStatus::Done)
        } else if code == 'S' {
            Some(TaskStatus::Snoozed)
        } else if code == 'X' {
            Some(TaskStatus::Discarded)
        } else {
            None
        }
    }

    /// The status that the text of a status column stands for, if any.
    pub fn from_column(column: &str) -> (status: Option<Self>)
        ensures
            status == TaskStatus::of_column(column@),
    {
        if column.unicode_len() == 1 {
            Self::from_code(column.get_char(0))
        } else {
            None
        }
    }

    /// Every status has a code of its own, and reading a code gives back the
    /// status it was written for.
    pub proof fn law_codes_round_trip(status: TaskStatus, code: char)
        ensures
            TaskStatus::of_code(status.code_of()) == Some(status),
            TaskStatus::of_code(code) == Some(status) ==> code == status.code_of(),
    {
    }
}

/// What the user wants done with a task left over from an earlier day.
#[derive(Debug, Clone, Copy, PartialEq, Eq, Structural)]
pub enum Disposition {
    /// Work on it today.
    MoveToToday,
    /// Give it up.
    Discard,
    /// Leave it for another day.
    Snooze,
}

/// A task as plain values.
pub struct TaskView {
    pub text: Seq<char>,
    pub status: TaskStatus,
    pub persisted: bool,
    pub id: Option<int>,
}

impl TaskView {
    /// A task that was just entered.
    pub open spec fn fresh(text: Seq<char>, status: TaskStatus) -> TaskView {
        TaskView { text, status, persisted: false, id: None }
    }

    /// A task as the store returned it, under the identity the store gave it.
    pub open spec fn on_record(id: int, text: Seq<char>, status: TaskStatus) -> TaskView {
        TaskView { text, status, persisted: true, id: Some(id) }
    }

    /// The task after the user has disposed of it. Only discarding changes a
    /// task, and only one that is still to do; the change has yet to reach the
    /// store.
    pub open spec fn reconciled(self, choice: Disposition) -> TaskView {
        if self.status == TaskStatus::ToDo && choice == Disposition::Discard {
            TaskView { status: TaskStatus::Discarded, persisted: false, ..self }
        } else {
            self
        }
    }

    /// Whether the task goes on the list of today.
    pub open spec fn moves_to_today(self, choice: Disposition) -> bool {
        self.status == TaskStatus::ToDo && choice == Disposition::MoveToToday
    }

    /// The row that a save has to write: none once the task is persisted.
    pub open spec fn pending(self) -> Option<TaskRow> {
        if self.persisted {
            None
        } else {
            Some(TaskRow { id: self.id, text: self.text, status: self.status })
        }
    }

    /// The task after the outcome of its pending write is known.
    pub open spec fn settled(self, outcome: Result<(), StorageError>) -> TaskView {
        if !self.persisted && outcome is Ok {
            TaskView { persisted: true, ..self }
        } else {
            self
        }
    }

    /// What a save reports: success at once for a persisted task, else the
    /// outcome of the write.
    pub open spec fn report(self, outcome: Result<(), StorageError>) -> Result<(), StorageError> {
        if self.persisted {
            Ok(())
        } else {
            outcome
        }
    }
}

/// A row of the task table as it was read. The text column may hold nothing.
#[derive(Debug, Clone, PartialEq, Eq)]
pub struct StoredTask {
    pub id: i64,
    pub text: Option<String>,
    pub status: String,
}

/// A row as it was read, as plain values.
pub struct StoredTaskView {
    pub id: int,
    pub text: Option<Seq<char>>,
    pub status: Seq<char>,
}

impl DeepView for StoredTask {
    type V = StoredTaskView;

    open spec fn deep_view(&self) -> StoredTaskView {
        StoredTaskView {
            id: self.id as int,
            text: self.text.deep_view(),
            status: self.status@,
        }
    }
}

impl StoredTaskView {
    /// The task that the row holds, if its status can be read. A row without
    /// text is a task with an empty text.
    pub open spec fn task(self) -> Option<TaskView> {
        match TaskStatus::of_column(self.status) {
            Some(status) => Some(
                TaskView::on_record(
                    self.id,
                    match self.text {
                        Some(text) => text,
                        None => Seq::empty(),
                    },
                    status,
                ),
            ),
            None => None,
        }
    }
}

/// The tasks that the rows hold, in the order of the rows. A row whose status
/// cannot be read is passed over.
pub open spec fn tasks_of(rows: Seq<StoredTaskView>) -> Seq<TaskView>
    decreases rows.len(),
{
    if rows.len() == 0 {
        Seq::empty()
    } else {
        match rows.last().task() {
            Some(task) => tasks_of(rows.drop_last()).push(task),
            None => tasks_of(rows.drop_last()),
        }
    }
}

/// Picks the tasks that are still to do.
pub open spec fn is_todo() -> spec_fn(TaskView) -> bool {
    |task: TaskView| task.status == TaskStatus::ToDo
}

/// The choice made for the task at `index`: where the choices run out, the
/// task is left for another day.
pub open spec fn choice_at(choices: Seq<Disposition>, index: int) -> Disposition {
    if 0 <= index < choices.len() {
        choices[index]
    } else {
        Disposition::Snooze
    }
}

/// Every task after the user has disposed of it, in the same order.
pub open spec fn reconciled_all(tasks: Seq<TaskView>, choices: Seq<Disposition>) -> Seq<TaskView> {
    Seq::new(tasks.len(), |i: int| tasks[i].reconciled(choice_at(choices, i)))
}

/// The tasks that go on the list of today, in the order they have in `tasks`.
pub open spec fn moved_to_today(tasks: Seq<TaskView>, choices: Seq<Disposition>) -> Seq<TaskView>
    decreases tasks.len(),
{
    if tasks.len() == 0 {
        tasks
    } else {
        let earlier = moved_to_today(tasks.drop_last(), choices);
        if tasks.last().moves_to_today(choice_at(choices, tasks.len() - 1)) {
            earlier.push(tasks.last())
        } else {
            earlier
        }
    }
}

/// The tasks that a run of answers enters: one for each answer, up to the first
/// that is blank once trimmed. What follows a blank answer is not read.
pub open spec fn entered(answers: Seq<Seq<char>>) -> Seq<TaskView>
    decreases answers.len(),
{
    if answers.len() == 0 || trimmed(answers[0]).len() == 0 {
        Seq::empty()
    } else {
        seq![TaskView::fresh(trimmed(answers[0]), TaskStatus::ToDo)] + entered(
            answers.drop_first(),
        )
    }
}

/// A task that is done or discarded stays as it is, whatever the user chooses,
/// and does not come back on the list of today. No choice puts a task on that
/// list and changes it too, and a task that changes has yet to be saved.
pub proof fn law_finished_tasks_stay(task: TaskView, choice: Disposition)
    ensures
        task.status.is_final() ==> task.reconciled(choice) == task && !task.moves_to_today(choice),
        task.moves_to_today(choice) ==> task.reconciled(choice) == task,
        task.reconciled(choice) != task ==> task.reconciled(choice).pending() is Some,
        task.reconciled(choice).status == task.status || task.reconciled(choice).status
            == TaskStatus::Discarded,
{
}

/// A row of the task table as plain values. A row without identity is a new one.
pub struct TaskRow {
    pub id: Option<int>,
    pub text: Seq<char>,
    pub status: TaskStatus,
}

/// A task row on its way to the store: written under its identity if it has
/// one, else added under a new one.
#[derive(Debug, Clone, PartialEq, Eq)]
pub struct TaskWrite {
    pub id: Option<i64>,
    pub text: String,
    pub status: TaskStatus,
}

impl View for TaskWrite {
    type V = TaskRow;

    open spec fn view(&self) -> TaskRow {
        TaskRow {
            id: match self.id {
                Some(id) => Some(id as int),
                None => None,
            },
            text: self.text@,
            status: self.status,
        }
    }
}

/// What going through the unfinished tasks gave.
#[derive(Debug)]
pub struct Reprioritized {
    /// Every task that was gone through, as it is now.
    pub tasks: Vec<Task>,
    /// The tasks to work on today: copies of the tasks moved there, which
    /// moving has left as they were.
    pub today: Vec<Task>,
}

impl DeepView for TaskWrite {
    type V = TaskRow;

    open spec fn deep_view(&self) -> TaskRow {
        self@
    }
}

/// Something to do. Tasks belong to no period: they stay until they are done
/// or discarded.
#[derive(Debug)]
pub struct Task {
    text: String,
    status: TaskStatus,
    persisted: bool,
    id: Option<i64>,
}

impl View for Task {
    type V = TaskView;

    closed spec fn view(&self) -> TaskView {
        TaskView {
            text: self.text@,
            status: self.status,
            persisted: self.persisted,
            id: match self.id {
                Some(id) => Some(id as int),
                None => None,
            },
        }
    }
}

impl DeepView for Task {
    type V = TaskView;

    open spec fn deep_view(&self) -> TaskView {
        self@
    }
}

impl Clone for Task {
    fn clone(&self) -> (copy: Self)
        ensures
            copy@ == self@,
    {
        Task { text: self.text.clone(), status: self.status, persisted: self.persisted, id: self.id }
    }
}

impl Default for Task {
    fn default() -> (task: Self)
        ensures
            task@ == TaskView::fresh(Seq::empty(), TaskStatus::ToDo),
    {
        Task { text: String::new(), status: TaskStatus::ToDo, persisted: false, id: None }
    }
}

impl Task {
    /// A task that the store does not know yet.
    pub fn new(text: String, status: TaskStatus) -> (task: Self)
        ensures
            task@ == TaskView::fresh(text@, status),
    {
        Self { text, status, persisted: false, id: None }
    }

    /// A task as the store holds it under `id`.
    pub fn from_db(id: i64, text: String, status: TaskStatus) -> (task: Self)
        ensures
            task@ == TaskView::on_record(id as int, text@, status),
    {
        Self { text, status, persisted: true, id: Some(id) }
    }

    /// The task that a row of the store holds, if its status can be read.
    pub fn from_row(row: &StoredTask) -> (task: Option<Self>)
        ensures
            task.deep_view() == row.deep_view().task(),
    {
        match TaskStatus::from_column(row.status.as_str()) {
            Some(status) => {
                let text = match &row.text {
                    Some(text) => text.clone(),
                    None => String::new(),
                };
                Some(Self::from_db(row.id, text, status))
            },
            None => None,
        }
    }

    /// The tasks that the rows of the store hold, in the order of the rows.
    pub fn from_rows(rows: &Vec<StoredTask>) -> (tasks: Vec<Self>)
        ensures
            tasks.deep_view() == tasks_of(rows.deep_view()),
    {
        let mut tasks: Vec<Self> = Vec::new();
        let mut i: usize = 0;
        assert(rows.deep_view().take(0) == Seq::<StoredTaskView>::empty());
        assert(tasks.deep_view() == Seq::<TaskView>::empty());
        while i < rows.len()
            invariant
                i <= rows.len(),
                tasks.deep_view() == tasks_of(rows.deep_view().take(i as int)),
            decreases rows.len() - i,
        {
            let ghost before = tasks.deep_view();
            let ghost next = rows.deep_view().take(i + 1);
            assert(next.drop_last() == rows.deep_view().take(i as int));
            assert(next.last() == rows[i as int].deep_view());
            match Self::from_row(&rows[i]) {
                Some(task) => {
                    tasks.push(task);
                    assert(tasks.deep_view() == before.push(task@));
                },
                None => {},
            }
            i += 1;
        }
        assert(rows.deep_view().take(rows.len() as int) == rows.deep_view());
        tasks
    }

    /// The text of the task.
    pub fn to_text(&self) -> (s: String)
        ensures
            s@ == self@.text,
    {
        self.text.clone()
    }

    /// Where the task stands.
    pub fn status(&self) -> (status: TaskStatus)
        ensures
            status == self@.status,
    {
        self.status
    }

    /// Whether the store holds the task as it is.
    pub fn persisted(&self) -> (b: bool)
        ensures
            b == self@.persisted,
    {
        self.persisted
    }

    /// The identity that the store gave the task, if it holds it.
    pub fn id(&self) -> (id: Option<i64>)
        ensures
            id.is_some() == self@.id.is_some(),
            id matches Some(n) ==> self@.id == Some(n as int),
    {
        self.id
    }

    /// The task after the user has disposed of it.
    pub fn reconcile(&self, choice: Disposition) -> (task: Self)
        ensures
            task@ == self@.reconciled(choice),
    {
        match (self.status, choice) {
            (TaskStatus::ToDo, Disposition::Discard) => Task {
                text: self.text.clone(),
                status: TaskStatus::Discarded,
                persisted: false,
                id: self.id,
            },
            _ => self.clone(),
        }
    }

    /// Whether the task goes on the list of today.
    pub fn moves_to_today(&self, choice: Disposition) -> (moves: bool)
        ensures
            moves == self@.moves_to_today(choice),
    {
        match (self.status, choice) {
            (TaskStatus::ToDo, Disposition::MoveToToday) => true,
            _ => false,
        }
    }

    /// The task for one answer to the invitation to enter a task. An answer
    /// that is blank once trimmed is no task: it says that the user is done.
    pub fn input(answer: &str) -> (task: Option<Self>)
        ensures
            task is Some <==> trimmed(answer@).len() > 0,
            task matches Some(t) ==> t@ == TaskView::fresh(trimmed(answer@), TaskStatus::ToDo),
    {
        let text = trim(answer);
        if text.as_str().is_empty() {
            None
        } else {
            Some(Self::new(text, TaskStatus::ToDo))
        }
    }

    /// The tasks still to do among those that the store holds, in its order.
    pub fn list(stored: &Vec<Self>) -> (todo: Vec<Self>)
        ensures
            todo.deep_view() == stored.deep_view().filter(is_todo()),
    {
        let mut todo: Vec<Self> = Vec::new();
        let mut i: usize = 0;
        proof {
            assert(stored.deep_view().take(0) == Seq::<TaskView>::empty());
            Seq::<TaskView>::empty().lemma_filter_len(is_todo());
            assert(todo.deep_view() == Seq::<TaskView>::empty());
        }
        while i < stored.len()
            invariant
                i <= stored.len(),
                todo.deep_view() == stored.deep_view().take(i as int).filter(is_todo()),
            decreases stored.len() - i,
        {
            let ghost before = todo.deep_view();
            let ghost seen = stored.deep_view().take(i as int);
            if stored[i].status == TaskStatus::ToDo {
                todo.push(stored[i].clone());
                assert(todo.deep_view() == before.push(stored[i as int]@));
            }
            proof {
                assert(stored.deep_view().take(i + 1) == seen.push(stored[i as int]@));
                seen.lemma_filter_push(stored[i as int]@, is_todo());
            }
            i += 1;
        }
        assert(stored.deep_view().take(stored.len() as int) == stored.deep_view());
        todo
    }

    /// The tasks still to do among the rows of the store, in its order: the
    /// empty list where there is none.
    pub fn get_todos(rows: &Vec<StoredTask>) -> (todo: Vec<Self>)
        ensures
            todo.deep_view() == tasks_of(rows.deep_view()).filter(is_todo()),
    {
        Self::list(&Self::from_rows(rows))
    }

    /// Goes through the unfinished tasks with one choice for each, in order. A
    /// task without a choice is left for another day. Returns every task as it
    /// is afterwards, and the list of today: the tasks moved there.
    pub fn reprioritize(unfinished_tasks: &Vec<Self>, choices: &Vec<Disposition>) -> (r:
        Reprioritized)
        ensures
            r.tasks.deep_view() == reconciled_all(unfinished_tasks.deep_view(), choices@),
            r.today.deep_view() == moved_to_today(unfinished_tasks.deep_view(), choices@),
    {
        let tasks = unfinished_tasks;
        let mut all: Vec<Self> = Vec::new();
        let mut today: Vec<Self> = Vec::new();
        let mut i: usize = 0;
        proof {
            assert(tasks.deep_view().take(0) == Seq::<TaskView>::empty());
            assert(all.deep_view() == reconciled_all(tasks.deep_view().take(0), choices@));
            assert(today.deep_view() == Seq::<TaskView>::empty());
        }
        while i < tasks.len()
            invariant
                i <= tasks.len(),
                all.deep_view() == reconciled_all(tasks.deep_view().take(i as int), choices@),
                today.deep_view() == moved_to_today(tasks.deep_view().take(i as int), choices@),
            decreases tasks.len() - i,
        {
            let choice = if i < choices.len() {
                choices[i]
            } else {
                Disposition::Snooze
            };
            let ghost seen = tasks.deep_view().take(i as int);
            let ghost next = tasks.deep_view().take(i + 1);
            let ghost all_before = all.deep_view();
            let ghost today_before = today.deep_view();
            assert(next.drop_last() == seen);
            assert(next.last() == tasks[i as int]@);
            assert(choice == choice_at(choices@, i as int));
            all.push(tasks[i].reconcile(choice));
            assert(all.deep_view() == all_before.push(tasks[i as int]@.reconciled(choice)));
            assert(all.deep_view() == reconciled_all(next, choices@));
            if tasks[i].moves_to_today(choice) {
                today.push(tasks[i].clone());
                assert(today.deep_view() == today_before.push(tasks[i as int]@));
            }
            i += 1;
        }
        assert(tasks.deep_view().take(tasks.len() as int) == tasks.deep_view());
        Reprioritized { tasks: all, today }
    }

    /// Adds to `todo_tasks` the tasks that the answers enter: one for each
    /// answer, up to the first that is blank once trimmed.
    pub fn input_new_tasks(todo_tasks: &mut Vec<Self>, answers: &Vec<String>)
        ensures
            final(todo_tasks).deep_view() == old(todo_tasks).deep_view() + entered(
                answers.deep_view(),
            ),
    {
        let mut i: usize = 0;
        proof {
            assert(answers.deep_view().skip(0) == answers.deep_view());
            assert(todo_tasks.deep_view() + Seq::<TaskView>::empty() == todo_tasks.deep_view());
        }
        let ghost start = todo_tasks.deep_view();
        let ghost added = Seq::<TaskView>::empty();
        while i < answers.len()
            invariant
                i <= answers.len(),
                start == old(todo_tasks).deep_view(),
                todo_tasks.deep_view() == start + added,
                entered(answers.deep_view()) == added + entered(answers.deep_view().skip(i as int)),
            decreases answers.len() - i,
        {
            let ghost rest = answers.deep_view().skip(i as int);
            assert(rest[0] == answers[i as int]@);
            assert(rest.drop_first() == answers.deep_view().skip(i + 1));
            match Self::input(answers[i].as_str()) {
                None => {
                    assert(entered(rest) == Seq::<TaskView>::empty());
                    assert(added + Seq::<TaskView>::empty() == added);
                    return ;
                },
                Some(task) => {
                    let ghost before = todo_tasks.deep_view();
                    todo_tasks.push(task);
                    proof {
                        assert(todo_tasks.deep_view() == before.push(task@));
                        assert(added + (seq![task@] + entered(rest.drop_first())) == added.push(
                            task@,
                        ) + entered(rest.drop_first()));
                        assert(start + added.push(task@) == (start + added).push(task@));
                        added = added.push(task@);
                    }
                },
            }
            i += 1;
        }
        proof {
            assert(added + Seq::<TaskView>::empty() == added);
        }
    }

    /// The write that a save has to make: none once the task is persisted.
    pub fn pending(&self) -> (write: Option<TaskWrite>)
        ensures
            write.deep_view() == self@.pending(),
    {
        if self.persisted {
            None
        } else {
            Some(TaskWrite { id: self.id, text: self.text.clone(), status: self.status })
        }
    }

    /// Settles a save with the outcome of the pending write. A persisted task
    /// reports success and stays as it is, whatever `outcome` says. Any other
    /// becomes persisted if the write succeeded and stays unsaved if it failed.
    pub fn save(&mut self, outcome: Result<(), StorageError>) -> (r: Result<(), StorageError>)
        ensures
            final(self)@ == old(self)@.settled(outcome),
            r == old(self)@.report(outcome),
    {
        if self.persisted {
            return Ok(());
        }
        if outcome.is_ok() {
            self.persisted = true;
        }
        outcome
    }
}

} // verus!
