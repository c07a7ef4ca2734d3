//! What passes between a session and whoever drives it.
//!
//! A session asks for one thing at a time with a [`Request`]; the driver does it
//! and answers with a [`Reply`]. A [`Notice`] is something to show the user; it
//! wants no answer.

use crate::error::{SessionError, StorageError};
use crate::record::{Row, Upsert};
use crate::task::{Disposition, StoredTask, StoredTaskView, TaskRow, TaskWrite};
use vstd::prelude::*;

verus! {

/// What a session wants done.
#[derive(Debug, PartialEq)]
pub enum Request {
    /// Look up the goal of a week. Answered by [`Reply::Row`].
    FindGoal { week: u32, year: i32 },
    /// Look up the objective of a day. Answered by [`Reply::Row`].
    FindObjective { day: u32, year: i32 },
    /// Read every task in the store, in its order. Answered by [`Reply::Tasks`].
    ListTasks,
    /// Ask the user for the goal of the week. Answered by [`Reply::Text`].
    AskGoal,
    /// Ask the user for the objective of the day, offering `default` if there
    /// is one. Answered by [`Reply::Text`].
    AskObjective { default: Option<String> },
    /// Ask the user what to do with an unfinished task. Answered by
    /// [`Reply::Choice`].
    AskDisposition { task: String },
    /// Invite the user to enter a task. Answered by [`Reply::Text`].
    AskTask,
    /// Ask the user whether the goal just shown is correct; if in doubt, it is
    /// not. Answered by [`Reply::Confirmed`].
    ConfirmGoal,
    /// Ask the user whether the objective just shown is correct; if in doubt,
    /// it is not. Answered by [`Reply::Confirmed`].
    ConfirmObjective,
    /// Write the goal of a week. Answered by [`Reply::Done`].
    SaveGoal(Upsert),
    /// Write the objective of a day. Answered by [`Reply::Done`].
    SaveObjective(Upsert),
    /// Write a task. Answered by [`Reply::Done`].
    SaveTask(TaskWrite),
    /// Nothing more: the session is over, with this result.
    Finish(Result<(), SessionError>),
}

/// Something to show the user.
#[derive(Debug, PartialEq)]
pub enum Notice {
    /// The heading of the wizard.
    Title,
    Goal { text: String, week: u32 },
    Objective { text: String, day: u32 },
    /// The texts of the tasks left over from earlier days.
    Unfinished(Vec<String>),
    /// The user did not confirm; nothing was saved.
    Cancelled,
    /// The confirmation could not be read; nothing was saved.
    NoAnswer,
    /// The store did not take the task with this text.
    TaskNotSaved { text: String },
}

/// One move of a session: maybe something to show, then the next request.
#[derive(Debug, PartialEq)]
pub struct Step {
    pub notice: Option<Notice>,
    pub request: Request,
}

/// What came of a request.
#[derive(Debug)]
pub enum Reply {
    /// The text on record for the period looked up, if there is a row.
    Row(Option<String>),
    /// The rows of the task table, in the order of the store.
    Tasks(Vec<StoredTask>),
    /// What the user typed.
    Text(String),
    /// What the user chose for a task.
    Choice(Disposition),
    Confirmed(bool),
    /// The write was made.
    Done,
    /// The user cannot be asked.
    InputClosed,
    /// The store failed.
    Failed(StorageError),
}

/// A request as plain values.
pub enum RequestView {
    FindGoal { week: int, year: int },
    FindObjective { day: int, year: int },
    ListTasks,
    AskGoal,
    AskObjective { default: Option<Seq<char>> },
    AskDisposition { task: Seq<char> },
    AskTask,
    ConfirmGoal,
    ConfirmObjective,
    SaveGoal(Row),
    SaveObjective(Row),
    SaveTask(TaskRow),
    Finish(Result<(), SessionError>),
}

/// A notice as plain values.
pub enum NoticeView {
    Title,
    Goal { text: Seq<char>, week: int },
    Objective { text: Seq<char>, day: int },
    Unfinished(Seq<Seq<char>>),
    Cancelled,
    NoAnswer,
    TaskNotSaved { text: Seq<char> },
}

/// A move as plain values.
pub struct StepView {
    pub notice: Option<NoticeView>,
    pub request: RequestView,
}

/// A reply as plain values.
pub enum ReplyView {
    Row(Option<Seq<char>>),
    Tasks(Seq<StoredTaskView>),
    Text(Seq<char>),
    Choice(Disposition),
    Confirmed(bool),
    Done,
    InputClosed,
    Failed(StorageError),
}

impl View for Request {
    type V = RequestView;

    open spec fn view(&self) -> RequestView {
        match self {
            Request::FindGoal { week, year } => RequestView::FindGoal {
                week: *week as int,
                year: *year as int,
            },
            Request::FindObjective { day, year } => RequestView::FindObjective {
                day: *day as int,
                year: *year as int,
            },
            Request::ListTasks => RequestView::ListTasks,
            Request::AskGoal => RequestView::AskGoal,
            Request::AskObjective { default } => RequestView::AskObjective {
                default: default.deep_view(),
            },
            Request::AskDisposition { task } => RequestView::AskDisposition { task: task@ },
            Request::AskTask => RequestView::AskTask,
            Request::ConfirmGoal => RequestView::ConfirmGoal,
            Request::ConfirmObjective => RequestView::ConfirmObjective,
            Request::SaveGoal(row) => RequestView::SaveGoal(row@),
            Request::SaveObjective(row) => RequestView::SaveObjective(row@),
            Request::SaveTask(row) => RequestView::SaveTask(row@),
            Request::Finish(result) => RequestView::Finish(*result),
        }
    }
}

impl View for Notice {
    type V = NoticeView;

    open spec fn view(&self) -> NoticeView {
        match self {
            Notice::Title => NoticeView::Title,
            Notice::Goal { text, week } => NoticeView::Goal { text: text@, week: *week as int },
            Notice::Objective { text, day } => NoticeView::Objective {
                text: text@,
                day: *day as int,
            },
            Notice::Unfinished(texts) => NoticeView::Unfinished(texts.deep_view()),
            Notice::Cancelled => NoticeView::Cancelled,
            Notice::NoAnswer => NoticeView::NoAnswer,
            Notice::TaskNotSaved { text } => NoticeView::TaskNotSaved { text: text@ },
        }
    }
}

impl DeepView for Notice {
    type V = NoticeView;

    open spec fn deep_view(&self) -> NoticeView {
        self@
    }
}

impl View for Step {
    type V = StepView;

    open spec fn view(&self) -> StepView {
        StepView {
            notice: self.notice.deep_view(),
            request: self.request@,
        }
    }
}

impl View for Reply {
    type V = ReplyView;

    open spec fn view(&self) -> ReplyView {
        match self {
            Reply::Row(row) => ReplyView::Row(row.deep_view()),
            Reply::Tasks(tasks) => ReplyView::Tasks(tasks.deep_view()),
            Reply::Text(text) => ReplyView::Text(text@),
            Reply::Choice(choice) => ReplyView::Choice(*choice),
            Reply::Confirmed(yes) => ReplyView::Confirmed(*yes),
            Reply::Done => ReplyView::Done,
            Reply::InputClosed => ReplyView::InputClosed,
            Reply::Failed(error) => ReplyView::Failed(*error),
        }
    }
}

} // verus!
