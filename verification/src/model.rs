//! A session as a state machine over plain values.
//!
//! A session is in one stage at a time. In every stage but the last it waits
//! for the reply to the request it made; `step` says where a reply leads and
//! what is asked next. A reply that does not fit the request made counts as the
//! failure of whoever was asked: of the store, or of the user's input.

use crate::calendar::CalendarKey;
use crate::error::SessionError;
use crate::protocol::{NoticeView, ReplyView, RequestView, StepView};
use crate::record::Record;
use crate::task::{is_todo, tasks_of, TaskStatus, TaskView};
use crate::text::trimmed;
use vstd::prelude::*;

verus! {

/// What a session is for.
#[derive(Debug, Clone, Copy, PartialEq, Eq, Structural)]
pub enum Flow {
    /// Goal, objective and tasks, one after the other; what is missing is
    /// asked for and saved.
    Wizard,
    /// Enter the goal of the week and save it once confirmed.
    Weekly,
    /// Show the goal of the week, then enter the objective of the day and save
    /// it once confirmed.
    Daily,
}

/// Which reply a session waits for.
#[derive(Debug, Clone, Copy, PartialEq, Eq, Structural)]
pub enum Stage {
    /// The lookup of the goal is under way.
    GoalRow,
    /// The user is asked for the goal.
    GoalAnswer,
    /// The user is asked whether the goal is correct.
    GoalConfirm,
    /// The write of the goal is under way.
    GoalWrite,
    /// The lookup of the objective is under way.
    ObjectiveRow,
    /// The user is asked for the objective.
    ObjectiveAnswer,
    /// The user is asked whether the objective is correct.
    ObjectiveConfirm,
    /// The write of the objective is under way.
    ObjectiveWrite,
    /// The tasks are being read from the store.
    TaskRows,
    /// The user is asked what to do with an unfinished task.
    Reconcile,
    /// The user is invited to enter a task.
    TaskEntry,
    /// The write of a task is under way.
    TaskWrite,
    /// The session is over.
    Finished,
}

/// A session as plain values.
pub struct SessionView {
    pub flow: Flow,
    pub stage: Stage,
    pub today: CalendarKey,
    pub goal: Option<Record>,
    pub objective: Option<Record>,
    /// Every task of the session, each once: the unfinished tasks of the
    /// store in its order, then the tasks entered, in the order of entry.
    pub tasks: Seq<TaskView>,
    /// The places in `tasks` of the tasks to work on today, in the order in
    /// which they were put on the list.
    pub on_today: Seq<int>,
    /// The task in `tasks` that is being asked about or written.
    pub cursor: int,
    /// The result so far: the first failure, if there was one.
    pub result: Result<(), SessionError>,
}

/// The tasks at the given places, in the order of the places. A place that no
/// task has is passed over.
pub open spec fn picked(tasks: Seq<TaskView>, places: Seq<int>) -> Seq<TaskView>
    decreases places.len(),
{
    if places.len() == 0 {
        Seq::empty()
    } else {
        let earlier = picked(tasks, places.drop_last());
        if 0 <= places.last() < tasks.len() {
            earlier.push(tasks[places.last()])
        } else {
            earlier
        }
    }
}

/// The texts of the tasks, in their order.
pub open spec fn texts(tasks: Seq<TaskView>) -> Seq<Seq<char>> {
    Seq::new(tasks.len(), |i: int| tasks[i].text)
}

/// A move that only makes a request.
pub open spec fn ask(request: RequestView) -> StepView {
    StepView { notice: None, request }
}

/// A move that shows something and then makes a request.
pub open spec fn show(notice: NoticeView, request: RequestView) -> StepView {
    StepView { notice: Some(notice), request }
}

impl SessionView {
    /// The tasks to work on today, as they are now.
    pub open spec fn today_list(self) -> Seq<TaskView> {
        picked(self.tasks, self.on_today)
    }

    /// A session at its first request.
    pub open spec fn start(flow: Flow, today: CalendarKey) -> (SessionView, StepView) {
        let session = SessionView {
            flow,
            stage: if flow == Flow::Weekly {
                Stage::GoalAnswer
            } else {
                Stage::GoalRow
            },
            today,
            goal: None,
            objective: None,
            tasks: Seq::empty(),
            on_today: Seq::empty(),
            cursor: 0,
            result: Ok(()),
        };
        match flow {
            Flow::Wizard => (session, show(NoticeView::Title, session.find_goal())),
            Flow::Weekly => (session, ask(RequestView::AskGoal)),
            Flow::Daily => (session, ask(session.find_goal())),
        }
    }

    /// The lookup of the goal of this week.
    pub open spec fn find_goal(self) -> RequestView {
        RequestView::FindGoal { week: self.today.week, year: self.today.year }
    }

    /// The lookup of the objective of this day.
    pub open spec fn find_objective(self) -> RequestView {
        RequestView::FindObjective { day: self.today.day, year: self.today.year }
    }

    /// The goal as it is shown.
    pub open spec fn goal_notice(goal: Record) -> NoticeView {
        NoticeView::Goal { text: goal.text, week: goal.period }
    }

    /// The objective as it is shown.
    pub open spec fn objective_notice(objective: Record) -> NoticeView {
        NoticeView::Objective { text: objective.text, day: objective.period }
    }

    /// The end of the session.
    pub open spec fn finish(self, result: Result<(), SessionError>, notice: Option<NoticeView>) -> (
        SessionView,
        StepView,
    ) {
        (
            SessionView { stage: Stage::Finished, result, ..self },
            StepView { notice, request: RequestView::Finish(result) },
        )
    }

    /// The end of the session because the store failed.
    pub open spec fn store_failed(self, reply: ReplyView) -> (SessionView, StepView) {
        match reply {
            ReplyView::Failed(error) => self.finish(Err(SessionError::of(error)), None),
            _ => self.finish(Err(SessionError::StorageUnavailable), None),
        }
    }

    /// With the goal in hand: show it and go on to the objective.
    pub open spec fn goal_shown(self, goal: Record) -> (SessionView, StepView) {
        (
            SessionView { goal: Some(goal), stage: Stage::ObjectiveRow, ..self },
            show(Self::goal_notice(goal), self.find_objective()),
        )
    }

    /// With the objective in hand: show it and go on to the tasks.
    pub open spec fn objective_shown(self, objective: Record) -> (SessionView, StepView) {
        (
            SessionView { objective: Some(objective), stage: Stage::TaskRows, ..self },
            show(Self::objective_notice(objective), RequestView::ListTasks),
        )
    }

    /// The lookup of the goal has returned. A goal on record is shown; the user
    /// is asked only where there is none.
    pub open spec fn goal_row(self, reply: ReplyView) -> (SessionView, StepView) {
        match reply {
            ReplyView::Row(Some(text)) => self.goal_shown(
                Record::on_record(text, self.today.week, self.today.year),
            ),
            ReplyView::Row(None) => (
                SessionView { stage: Stage::GoalAnswer, ..self },
                ask(RequestView::AskGoal),
            ),
            _ => self.store_failed(reply),
        }
    }

    /// The user has answered the question for the goal.
    pub open spec fn goal_answer(self, reply: ReplyView) -> (SessionView, StepView) {
        match reply {
            ReplyView::Text(answer) => {
                let goal = Record::draft(trimmed(answer), self.today.week, self.today.year);
                match self.flow {
                    Flow::Wizard => (
                        SessionView { goal: Some(goal), stage: Stage::GoalWrite, ..self },
                        ask(RequestView::SaveGoal(goal.row())),
                    ),
                    Flow::Weekly => (
                        SessionView { goal: Some(goal), stage: Stage::GoalConfirm, ..self },
                        show(Self::goal_notice(goal), RequestView::ConfirmGoal),
                    ),
                    Flow::Daily => self.goal_shown(goal),
                }
            },
            _ => self.finish(Err(SessionError::InputClosed), None),
        }
    }

    /// The user has said whether the goal shown is correct. Only a plain yes
    /// has it saved.
    pub open spec fn goal_confirm(self, reply: ReplyView) -> (SessionView, StepView) {
        match reply {
            ReplyView::Confirmed(true) => match self.goal {
                Some(goal) => match goal.pending() {
                    Some(row) => (
                        SessionView { stage: Stage::GoalWrite, ..self },
                        ask(RequestView::SaveGoal(row)),
                    ),
                    None => self.finish(Ok(()), None),
                },
                None => self.finish(Ok(()), None),
            },
            ReplyView::Confirmed(false) => self.finish(Ok(()), Some(NoticeView::Cancelled)),
            _ => self.finish(Ok(()), Some(NoticeView::NoAnswer)),
        }
    }

    /// The write of the goal has returned.
    pub open spec fn goal_write(self, reply: ReplyView) -> (SessionView, StepView) {
        match (reply, self.goal) {
            (ReplyView::Done, Some(goal)) => {
                let saved = goal.settled(Ok(()));
                match self.flow {
                    Flow::Wizard => self.goal_shown(saved),
                    _ => (SessionView { goal: Some(saved), ..self }).finish(Ok(()), None),
                }
            },
            _ => self.store_failed(reply),
        }
    }

    /// The lookup of the objective has returned. The wizard shows an objective
    /// on record and asks only where there is none. The daily entry asks in
    /// either case, and offers what is on record as the answer.
    pub open spec fn objective_row(self, reply: ReplyView) -> (SessionView, StepView) {
        match reply {
            ReplyView::Row(found) => {
                let current = match found {
                    Some(text) => Some(Record::on_record(text, self.today.day, self.today.year)),
                    None => None,
                };
                match (self.flow, current) {
                    (Flow::Wizard, Some(objective)) => self.objective_shown(objective),
                    (Flow::Wizard, None) => (
                        SessionView { stage: Stage::ObjectiveAnswer, ..self },
                        ask(RequestView::AskObjective { default: None }),
                    ),
                    _ => (
                        SessionView { objective: current, stage: Stage::ObjectiveAnswer, ..self },
                        ask(
                            RequestView::AskObjective {
                                default: match found {
                                    Some(text) if text.len() > 0 => Some(text),
                                    _ => None,
                                },
                            },
                        ),
                    ),
                }
            },
            _ => self.store_failed(reply),
        }
    }

    /// The user has answered the question for the objective.
    pub open spec fn objective_answer(self, reply: ReplyView) -> (SessionView, StepView) {
        match reply {
            ReplyView::Text(answer) => {
                let objective = Record::draft(trimmed(answer), self.today.day, self.today.year);
                match self.flow {
                    Flow::Wizard => (
                        SessionView {
                            objective: Some(objective),
                            stage: Stage::ObjectiveWrite,
                            ..self
                        },
                        ask(RequestView::SaveObjective(objective.row())),
                    ),
                    _ => (
                        SessionView {
                            objective: Some(objective),
                            stage: Stage::ObjectiveConfirm,
                            ..self
                        },
                        show(Self::objective_notice(objective), RequestView::ConfirmObjective),
                    ),
                }
            },
            _ => self.finish(Err(SessionError::InputClosed), None),
        }
    }

    /// The user has said whether the objective shown is correct. Only a plain
    /// yes has it saved.
    pub open spec fn objective_confirm(self, reply: ReplyView) -> (SessionView, StepView) {
        match reply {
            ReplyView::Confirmed(true) => match self.objective {
                Some(objective) => match objective.pending() {
                    Some(row) => (
                        SessionView { stage: Stage::ObjectiveWrite, ..self },
                        ask(RequestView::SaveObjective(row)),
                    ),
                    None => self.finish(Ok(()), None),
                },
                None => self.finish(Ok(()), None),
            },
            ReplyView::Confirmed(false) => self.finish(Ok(()), Some(NoticeView::Cancelled)),
            _ => self.finish(Ok(()), Some(NoticeView::NoAnswer)),
        }
    }

    /// The write of the objective has returned.
    pub open spec fn objective_write(self, reply: ReplyView) -> (SessionView, StepView) {
        match (reply, self.objective) {
            (ReplyView::Done, Some(objective)) => {
                let saved = objective.settled(Ok(()));
                match self.flow {
                    Flow::Wizard => self.objective_shown(saved),
                    _ => (SessionView { objective: Some(saved), ..self }).finish(Ok(()), None),
                }
            },
            _ => self.store_failed(reply),
        }
    }

    /// The rows of the task table have arrived. The tasks still to do are shown
    /// and gone through one by one; where there is none, new tasks are invited
    /// at once.
    pub open spec fn task_rows(self, reply: ReplyView) -> (SessionView, StepView) {
        match reply {
            ReplyView::Tasks(stored) => {
                let unfinished = tasks_of(stored).filter(is_todo());
                if unfinished.len() == 0 {
                    (
                        SessionView {
                            tasks: unfinished,
                            on_today: Seq::empty(),
                            cursor: 0,
                            stage: Stage::TaskEntry,
                            ..self
                        },
                        ask(RequestView::AskTask),
                    )
                } else {
                    (
                        SessionView {
                            tasks: unfinished,
                            on_today: Seq::empty(),
                            cursor: 0,
                            stage: Stage::Reconcile,
                            ..self
                        },
                        show(
                            NoticeView::Unfinished(texts(unfinished)),
                            RequestView::AskDisposition { task: unfinished[0].text },
                        ),
                    )
                }
            },
            _ => self.store_failed(reply),
        }
    }

    /// The user has disposed of the task under the cursor. The next unfinished
    /// task follows; new tasks are invited only after the last.
    pub open spec fn reconcile(self, reply: ReplyView) -> (SessionView, StepView) {
        match reply {
            ReplyView::Choice(choice) => {
                if 0 <= self.cursor < self.tasks.len() {
                    let task = self.tasks[self.cursor];
                    let next = SessionView {
                        tasks: self.tasks.update(self.cursor, task.reconciled(choice)),
                        on_today: if task.moves_to_today(choice) {
                            self.on_today.push(self.cursor)
                        } else {
                            self.on_today
                        },
                        cursor: self.cursor + 1,
                        ..self
                    };
                    if next.cursor < next.tasks.len() {
                        (next, ask(RequestView::AskDisposition { task: next.tasks[next.cursor].text }))
                    } else {
                        (SessionView { stage: Stage::TaskEntry, ..next }, ask(RequestView::AskTask))
                    }
                } else {
                    (SessionView { stage: Stage::TaskEntry, ..self }, ask(RequestView::AskTask))
                }
            },
            _ => self.finish(Err(SessionError::InputClosed), None),
        }
    }

    /// The user has answered the invitation to enter a task. A text that is
    /// not blank is a new task for today, and the invitation is repeated.
    /// Anything else ends the entry: the tasks are then saved.
    pub open spec fn task_entry(self, reply: ReplyView) -> (SessionView, StepView) {
        match reply {
            ReplyView::Text(answer) if trimmed(answer).len() > 0 => (
                SessionView {
                    tasks: self.tasks.push(TaskView::fresh(trimmed(answer), TaskStatus::ToDo)),
                    on_today: self.on_today.push(self.tasks.len() as int),
                    ..self
                },
                ask(RequestView::AskTask),
            ),
            _ => (SessionView { cursor: 0, ..self }).next_write(None),
        }
    }

    /// From the cursor on, the first task that the store does not hold is
    /// written. Where there is none left, the session ends with its result.
    pub open spec fn next_write(self, notice: Option<NoticeView>) -> (SessionView, StepView)
        decreases self.tasks.len() - self.cursor,
    {
        if 0 <= self.cursor < self.tasks.len() {
            match self.tasks[self.cursor].pending() {
                Some(row) => (
                    SessionView { stage: Stage::TaskWrite, ..self },
                    StepView { notice, request: RequestView::SaveTask(row) },
                ),
                None => (SessionView { cursor: self.cursor + 1, ..self }).next_write(notice),
            }
        } else {
            self.finish(self.result, notice)
        }
    }

    /// The session once the reply to the write of the task under the cursor is
    /// taken in: the task is persisted if the write was made; if not, the
    /// failure is kept as the result of the session, unless an earlier one is.
    /// Either way the cursor moves on.
    pub open spec fn task_settled(self, reply: ReplyView) -> SessionView {
        match reply {
            ReplyView::Done => SessionView {
                tasks: self.tasks.update(self.cursor, self.tasks[self.cursor].settled(Ok(()))),
                cursor: self.cursor + 1,
                ..self
            },
            _ => SessionView {
                cursor: self.cursor + 1,
                result: if self.result is Ok {
                    Err(
                        match reply {
                            ReplyView::Failed(error) => SessionError::of(error),
                            _ => SessionError::StorageUnavailable,
                        },
                    )
                } else {
                    self.result
                },
                ..self
            },
        }
    }

    /// What is shown after the reply to the write of a task with this text:
    /// nothing if the write was made, else that the task was not saved.
    pub open spec fn write_notice(reply: ReplyView, text: Seq<char>) -> Option<NoticeView> {
        if reply is Done {
            None
        } else {
            Some(NoticeView::TaskNotSaved { text })
        }
    }

    /// The write of the task under the cursor has returned. A failure is
    /// reported for that task; the tasks after it are written all the same.
    pub open spec fn task_write(self, reply: ReplyView) -> (SessionView, StepView) {
        if 0 <= self.cursor < self.tasks.len() {
            self.task_settled(reply).next_write(
                Self::write_notice(reply, self.tasks[self.cursor].text),
            )
        } else {
            self.finish(self.result, None)
        }
    }

    /// Where a reply leads, and what is asked next.
    pub open spec fn step(self, reply: ReplyView) -> (SessionView, StepView) {
        match self.stage {
            Stage::GoalRow => self.goal_row(reply),
            Stage::GoalAnswer => self.goal_answer(reply),
            Stage::GoalConfirm => self.goal_confirm(reply),
            Stage::GoalWrite => self.goal_write(reply),
            Stage::ObjectiveRow => self.objective_row(reply),
            Stage::ObjectiveAnswer => self.objective_answer(reply),
            Stage::ObjectiveConfirm => self.objective_confirm(reply),
            Stage::ObjectiveWrite => self.objective_write(reply),
            Stage::TaskRows => self.task_rows(reply),
            Stage::Reconcile => self.reconcile(reply),
            Stage::TaskEntry => self.task_entry(reply),
            Stage::TaskWrite => self.task_write(reply),
            Stage::Finished => self.finish(self.result, None),
        }
    }
}

} // verus!
