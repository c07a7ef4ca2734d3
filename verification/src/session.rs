//! A session: one run of the wizard or of one of the two entries.
//!
//! A session never prompts, prints or touches the store. It makes one request
//! at a time; whoever drives it carries the request out and passes the reply to
//! [`Session::step`], until the request is [`Request::Finish`].

use crate::calendar::DayWeekYear;
use crate::daily::DailyObjective;
use crate::error::SessionError;
use crate::model::{picked, texts, Flow, SessionView, Stage};
use crate::protocol::{Notice, Reply, Request, Step};
use crate::task::{Task, TaskView};
use crate::weekly::WeeklyGoal;
use vstd::prelude::*;

verus! {

/// One run of the wizard or of an entry, between two replies.
pub struct Session {
    flow: Flow,
    stage: Stage,
    today: DayWeekYear,
    goal: Option<WeeklyGoal>,
    objective: Option<DailyObjective>,
    tasks: Vec<Task>,
    on_today: Vec<usize>,
    cursor: usize,
    result: Result<(), SessionError>,
}

impl View for Session {
    type V = SessionView;

    closed spec fn view(&self) -> SessionView {
        SessionView {
            flow: self.flow,
            stage: self.stage,
            today: self.today@,
            goal: self.goal.deep_view(),
            objective: self.objective.deep_view(),
            tasks: self.tasks.deep_view(),
            on_today: self.on_today@.map_values(|place: usize| place as int),
            cursor: self.cursor as int,
            result: self.result,
        }
    }
}

/// The texts of the tasks, in their order.
fn task_texts(tasks: &Vec<Task>) -> (all: Vec<String>)
    ensures
        all.deep_view() == texts(tasks.deep_view()),
{
    let mut all: Vec<String> = Vec::new();
    let mut i: usize = 0;
    while i < tasks.len()
        invariant
            i <= tasks.len(),
            all.deep_view() == texts(tasks.deep_view().take(i as int)),
        decreases tasks.len() - i,
    {
        let ghost before = all.deep_view();
        all.push(tasks[i].to_text());
        assert(all.deep_view() == before.push(tasks[i as int]@.text));
        assert(all.deep_view() == texts(tasks.deep_view().take(i + 1)));
        i += 1;
    }
    assert(tasks.deep_view().take(tasks.len() as int) == tasks.deep_view());
    all
}

/// Starts the wizard: the goal of the week, the objective of the day, the tasks
/// left over and the tasks of today, one after the other.
pub fn wizard(today: DayWeekYear) -> (r: (Session, Step))
    ensures
        (r.0@, r.1@) == SessionView::start(Flow::Wizard, today@),
{
    Session::start(Flow::Wizard, today)
}

impl Session {
    /// A session at its first request.
    pub fn start(flow: Flow, today: DayWeekYear) -> (r: (Session, Step))
        ensures
            (r.0@, r.1@) == SessionView::start(flow, today@),
    {
        let stage = match flow {
            Flow::Weekly => Stage::GoalAnswer,
            _ => Stage::GoalRow,
        };
        let session = Session {
            flow,
            stage,
            today,
            goal: None,
            objective: None,
            tasks: Vec::new(),
            on_today: Vec::new(),
            cursor: 0,
            result: Ok(()),
        };
        assert(session.tasks.deep_view() == Seq::<TaskView>::empty());
        assert(session.on_today@.map_values(|place: usize| place as int) == Seq::<int>::empty());
        let step = match flow {
            Flow::Wizard => Step { notice: Some(Notice::Title), request: session.find_goal() },
            Flow::Weekly => Step { notice: None, request: Request::AskGoal },
            Flow::Daily => Step { notice: None, request: session.find_goal() },
        };
        (session, step)
    }

    /// Whether the session is over.
    pub fn is_finished(&self) -> (b: bool)
        ensures
            b == (self@.stage == Stage::Finished),
    {
        match self.stage {
            Stage::Finished => true,
            _ => false,
        }
    }

    /// The result so far: the first failure, if there was one.
    pub fn result(&self) -> (r: Result<(), SessionError>)
        ensures
            r == self@.result,
    {
        self.result
    }

    /// The goal of the week, once the session has it.
    pub fn goal(&self) -> (goal: &Option<WeeklyGoal>)
        ensures
            goal.deep_view() == self@.goal,
    {
        &self.goal
    }

    /// The objective of the day, once the session has it.
    pub fn objective(&self) -> (objective: &Option<DailyObjective>)
        ensures
            objective.deep_view() == self@.objective,
    {
        &self.objective
    }

    /// Every task of the session, each once: the unfinished tasks of the
    /// store in its order, then the tasks entered, in the order of entry.
    pub fn tasks(&self) -> (tasks: &Vec<Task>)
        ensures
            tasks.deep_view() == self@.tasks,
    {
        &self.tasks
    }

    /// The tasks to work on today, as they are now: those moved there from
    /// earlier days, then those entered.
    pub fn today_list(&self) -> (tasks: Vec<Task>)
        ensures
            tasks.deep_view() == self@.today_list(),
    {
        let ghost places = self.on_today@.map_values(|place: usize| place as int);
        let mut tasks: Vec<Task> = Vec::new();
        let mut i: usize = 0;
        assert(places.take(0) == Seq::<int>::empty());
        assert(tasks.deep_view() == Seq::<TaskView>::empty());
        while i < self.on_today.len()
            invariant
                i <= self.on_today.len(),
                places == self.on_today@.map_values(|place: usize| place as int),
                tasks.deep_view() == picked(self.tasks.deep_view(), places.take(i as int)),
            decreases self.on_today.len() - i,
        {
            let ghost before = tasks.deep_view();
            let place = self.on_today[i];
            assert(places.take(i + 1).drop_last() == places.take(i as int));
            assert(places.take(i + 1).last() == place as int);
            if place < self.tasks.len() {
                tasks.push(self.tasks[place].clone());
                assert(tasks.deep_view() == before.push(self.tasks[place as int]@));
            }
            i += 1;
        }
        assert(places.take(places.len() as int) == places);
        tasks
    }

    fn find_goal(&self) -> (request: Request)
        ensures
            request@ == self@.find_goal(),
    {
        Request::FindGoal { week: self.today.week(), year: self.today.year() }
    }

    fn find_objective(&self) -> (request: Request)
        ensures
            request@ == self@.find_objective(),
    {
        Request::FindObjective { day: self.today.day(), year: self.today.year() }
    }

    fn finish(&mut self, result: Result<(), SessionError>, notice: Option<Notice>) -> (step: Step)
        ensures
            (final(self)@, step@) == old(self)@.finish(result, notice.deep_view()),
    {
        self.stage = Stage::Finished;
        self.result = result;
        Step { notice, request: Request::Finish(result) }
    }

    fn store_failed(&mut self, reply: Reply) -> (step: Step)
        ensures
            (final(self)@, step@) == old(self)@.store_failed(reply@),
    {
        match reply {
            Reply::Failed(error) => self.finish(Err(SessionError::from(error)), None),
            _ => self.finish(Err(SessionError::StorageUnavailable), None),
        }
    }

    fn goal_shown(&mut self, goal: WeeklyGoal) -> (step: Step)
        ensures
            (final(self)@, step@) == old(self)@.goal_shown(goal@),
    {
        let notice = Notice::Goal { text: goal.to_text(), week: goal.week() };
        let request = self.find_objective();
        self.goal = Some(goal);
        self.stage = Stage::ObjectiveRow;
        Step { notice: Some(notice), request }
    }

    fn objective_shown(&mut self, objective: DailyObjective) -> (step: Step)
        ensures
            (final(self)@, step@) == old(self)@.objective_shown(objective@),
    {
        let notice = Notice::Objective { text: objective.to_text(), day: objective.day() };
        self.objective = Some(objective);
        self.stage = Stage::TaskRows;
        Step { notice: Some(notice), request: Request::ListTasks }
    }

    fn goal_row(&mut self, reply: Reply) -> (step: Step)
        ensures
            (final(self)@, step@) == old(self)@.goal_row(reply@),
    {
        match reply {
            Reply::Row(row) => {
                match WeeklyGoal::get_current_or_input(&self.today, row) {
                    Some(goal) => self.goal_shown(goal),
                    None => {
                        self.stage = Stage::GoalAnswer;
                        Step { notice: None, request: Request::AskGoal }
                    },
                }
            },
            other => self.store_failed(other),
        }
    }

    fn goal_answer(&mut self, reply: Reply) -> (step: Step)
        ensures
            (final(self)@, step@) == old(self)@.goal_answer(reply@),
    {
        match reply {
            Reply::Text(answer) => {
                let goal = WeeklyGoal::input(&self.today, answer.as_str());
                match self.flow {
                    Flow::Wizard => {
                        let request = Request::SaveGoal(goal.row());
                        self.goal = Some(goal);
                        self.stage = Stage::GoalWrite;
                        Step { notice: None, request }
                    },
                    Flow::Weekly => {
                        let notice = Notice::Goal { text: goal.to_text(), week: goal.week() };
                        self.goal = Some(goal);
                        self.stage = Stage::GoalConfirm;
                        Step { notice: Some(notice), request: Request::ConfirmGoal }
                    },
                    Flow::Daily => self.goal_shown(goal),
                }
            },
            _ => self.finish(Err(SessionError::InputClosed), None),
        }
    }

    fn goal_confirm(&mut self, reply: Reply) -> (step: Step)
        ensures
            (final(self)@, step@) == old(self)@.goal_confirm(reply@),
    {
        match reply {
            Reply::Confirmed(true) => {
                let pending = match &self.goal {
                    Some(goal) => goal.pending(),
                    None => None,
                };
                match pending {
                    Some(row) => {
                        self.stage = Stage::GoalWrite;
                        Step { notice: None, request: Request::SaveGoal(row) }
                    },
                    None => self.finish(Ok(()), None),
                }
            },
            Reply::Confirmed(false) => self.finish(Ok(()), Some(Notice::Cancelled)),
            _ => self.finish(Ok(()), Some(Notice::NoAnswer)),
        }
    }

    fn goal_write(&mut self, reply: Reply) -> (step: Step)
        ensures
            (final(self)@, step@) == old(self)@.goal_write(reply@),
    {
        match (reply, self.goal.take()) {
            (Reply::Done, Some(goal)) => {
                let mut goal = goal;
                let _ = goal.save(Ok(()));
                match self.flow {
                    Flow::Wizard => self.goal_shown(goal),
                    _ => {
                        self.goal = Some(goal);
                        self.finish(Ok(()), None)
                    },
                }
            },
            (other, goal) => {
                self.goal = goal;
                self.store_failed(other)
            },
        }
    }

    fn objective_row(&mut self, reply: Reply) -> (step: Step)
        ensures
            (final(self)@, step@) == old(self)@.objective_row(reply@),
    {
        match reply {
            Reply::Row(row) => {
                let current = DailyObjective::get_current(&self.today, row);
                match self.flow {
                    Flow::Wizard => match current {
                        Some(objective) => self.objective_shown(objective),
                        None => {
                            self.stage = Stage::ObjectiveAnswer;
                            Step {
                                notice: None,
                                request: Request::AskObjective { default: None },
                            }
                        },
                    },
                    _ => {
                        let default = DailyObjective::default_answer(&current);
                        self.objective = current;
                        self.stage = Stage::ObjectiveAnswer;
                        Step { notice: None, request: Request::AskObjective { default } }
                    },
                }
            },
            other => self.store_failed(other),
        }
    }

    fn objective_answer(&mut self, reply: Reply) -> (step: Step)
        ensures
            (final(self)@, step@) == old(self)@.objective_answer(reply@),
    {
        match reply {
            Reply::Text(answer) => {
                let objective = DailyObjective::input(&self.today, answer.as_str());
                match self.flow {
                    Flow::Wizard => {
                        let request = Request::SaveObjective(objective.row());
                        self.objective = Some(objective);
                        self.stage = Stage::ObjectiveWrite;
                        Step { notice: None, request }
                    },
                    _ => {
                        let notice = Notice::Objective {
                            text: objective.to_text(),
                            day: objective.day(),
                        };
                        self.objective = Some(objective);
                        self.stage = Stage::ObjectiveConfirm;
                        Step { notice: Some(notice), request: Request::ConfirmObjective }
                    },
                }
            },
            _ => self.finish(Err(SessionError::InputClosed), None),
        }
    }

    fn objective_confirm(&mut self, reply: Reply) -> (step: Step)
        ensures
            (final(self)@, step@) == old(self)@.objective_confirm(reply@),
    {
        match reply {
            Reply::Confirmed(true) => {
                let pending = match &self.objective {
                    Some(objective) => objective.pending(),
                    None => None,
                };
                match pending {
                    Some(row) => {
                        self.stage = Stage::ObjectiveWrite;
                        Step { notice: None, request: Request::SaveObjective(row) }
                    },
                    None => self.finish(Ok(()), None),
                }
            },
            Reply::Confirmed(false) => self.finish(Ok(()), Some(Notice::Cancelled)),
            _ => self.finish(Ok(()), Some(Notice::NoAnswer)),
        }
    }

    fn objective_write(&mut self, reply: Reply) -> (step: Step)
        ensures
            (final(self)@, step@) == old(self)@.objective_write(reply@),
    {
        match (reply, self.objective.take()) {
            (Reply::Done, Some(objective)) => {
                let mut objective = objective;
                let _ = objective.save(Ok(()));
                match self.flow {
                    Flow::Wizard => self.objective_shown(objective),
                    _ => {
                        self.objective = Some(objective);
                        self.finish(Ok(()), None)
                    },
                }
            },
            (other, objective) => {
                self.objective = objective;
                self.store_failed(other)
            },
        }
    }

    fn task_rows(&mut self, reply: Reply) -> (step: Step)
        ensures
            (final(self)@, step@) == old(self)@.task_rows(reply@),
    {
        match reply {
            Reply::Tasks(rows) => {
                let unfinished = Task::get_todos(&rows);
                self.cursor = 0;
                self.on_today = Vec::new();
                assert(self.on_today@.map_values(|place: usize| place as int) == Seq::<
                    int,
                >::empty());
                if unfinished.len() == 0 {
                    self.tasks = unfinished;
                    self.stage = Stage::TaskEntry;
                    Step { notice: None, request: Request::AskTask }
                } else {
                    let notice = Notice::Unfinished(task_texts(&unfinished));
                    let request = Request::AskDisposition { task: unfinished[0].to_text() };
                    self.tasks = unfinished;
                    self.stage = Stage::Reconcile;
                    Step { notice: Some(notice), request }
                }
            },
            other => self.store_failed(other),
        }
    }

    fn reconcile(&mut self, reply: Reply) -> (step: Step)
        ensures
            (final(self)@, step@) == old(self)@.reconcile(reply@),
    {
        match reply {
            Reply::Choice(choice) => {
                if self.cursor < self.tasks.len() {
                    let ghost before = self.tasks.deep_view();
                    let ghost today_before = self.on_today@.map_values(
                        |place: usize| place as int,
                    );
                    let reconciled = self.tasks[self.cursor].reconcile(choice);
                    let moves = self.tasks[self.cursor].moves_to_today(choice);
                    self.tasks.set(self.cursor, reconciled);
                    assert(self.tasks.deep_view() == before.update(
                        self.cursor as int,
                        before[self.cursor as int].reconciled(choice),
                    ));
                    if moves {
                        self.on_today.push(self.cursor);
                        assert(self.on_today@.map_values(|place: usize| place as int)
                            == today_before.push(self.cursor as int));
                    }
                    self.cursor = self.cursor + 1;
                    if self.cursor < self.tasks.len() {
                        let request = Request::AskDisposition {
                            task: self.tasks[self.cursor].to_text(),
                        };
                        Step { notice: None, request }
                    } else {
                        self.stage = Stage::TaskEntry;
                        Step { notice: None, request: Request::AskTask }
                    }
                } else {
                    self.stage = Stage::TaskEntry;
                    Step { notice: None, request: Request::AskTask }
                }
            },
            _ => self.finish(Err(SessionError::InputClosed), None),
        }
    }

    fn task_entry(&mut self, reply: Reply) -> (step: Step)
        ensures
            (final(self)@, step@) == old(self)@.task_entry(reply@),
    {
        let entered = match reply {
            Reply::Text(answer) => Task::input(answer.as_str()),
            _ => None,
        };
        match entered {
            Some(task) => {
                let ghost before = self.tasks.deep_view();
                let ghost today_before = self.on_today@.map_values(
                    |place: usize| place as int,
                );
                self.on_today.push(self.tasks.len());
                self.tasks.push(task);
                assert(self.tasks.deep_view() == before.push(task@));
                assert(self.on_today@.map_values(|place: usize| place as int)
                    == today_before.push(before.len() as int));
                Step { notice: None, request: Request::AskTask }
            },
            None => {
                self.cursor = 0;
                self.next_write(None)
            },
        }
    }

    fn next_write(&mut self, notice: Option<Notice>) -> (step: Step)
        ensures
            (final(self)@, step@) == old(self)@.next_write(notice.deep_view()),
    {
        while self.cursor < self.tasks.len()
            invariant
                self@.next_write(notice.deep_view()) == old(self)@.next_write(notice.deep_view()),
            decreases self.tasks.len() - self.cursor,
        {
            match self.tasks[self.cursor].pending() {
                Some(row) => {
                    self.stage = Stage::TaskWrite;
                    return Step { notice, request: Request::SaveTask(row) };
                },
                None => {
                    self.cursor = self.cursor + 1;
                },
            }
        }
        let result = self.result;
        self.finish(result, notice)
    }

    fn task_write(&mut self, reply: Reply) -> (step: Step)
        ensures
            (final(self)@, step@) == old(self)@.task_write(reply@),
    {
        if self.cursor < self.tasks.len() {
            match reply {
                Reply::Done => {
                    let ghost before = self.tasks.deep_view();
                    let mut task = self.tasks[self.cursor].clone();
                    let _ = task.save(Ok(()));
                    self.tasks.set(self.cursor, task);
                    assert(self.tasks.deep_view() == before.update(
                        self.cursor as int,
                        before[self.cursor as int].settled(Ok(())),
                    ));
                    self.cursor = self.cursor + 1;
                    self.next_write(None)
                },
                other => {
                    let error = match other {
                        Reply::Failed(error) => SessionError::from(error),
                        _ => SessionError::StorageUnavailable,
                    };
                    let notice = Notice::TaskNotSaved { text: self.tasks[self.cursor].to_text() };
                    if self.result.is_ok() {
                        self.result = Err(error);
                    }
                    self.cursor = self.cursor + 1;
                    self.next_write(Some(notice))
                },
            }
        } else {
            let result = self.result;
            self.finish(result, None)
        }
    }

    /// Takes the reply to the request last made and makes the next move.
    pub fn step(&mut self, reply: Reply) -> (step: Step)
        ensures
            (final(self)@, step@) == old(self)@.step(reply@),
    {
        match self.stage {
            Stage::GoalRow => self.goal_row(reply),
            Stage::GoalAnswer => self.goal_answer(reply),
            Stage::GoalConfirm => self.goal_confirm(reply),
            Stage::GoalWrite => self.goal_write(reply),
            Stage::ObjectiveRow => self.objective_row(reply),
            Stage::ObjectiveAnswer => self.objective_answer(reply),
            Stage::ObjectiveConfirm => self.objective_confirm(reply),
            Stage::ObjectiveWrite => self.objective_write(reply),
            Stage::TaskRows => self.task_rows(reply),
            Stage::Reconcile => self.reconcile(reply),
            Stage::TaskEntry => self.task_entry(reply),
            Stage::TaskWrite => self.task_write(reply),
            Stage::Finished => {
                let result = self.result;
                self.finish(result, None)
            },
        }
    }
}

} // verus!
