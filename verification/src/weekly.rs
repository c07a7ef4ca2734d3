//! The goal of a week.

use crate::calendar::{is_date, iso_week_of, DayWeekYear};
use crate::error::StorageError;
use crate::model::{Flow, SessionView};
use crate::protocol::Step;
use crate::record::{Record, Upsert};
use crate::session::Session;
use crate::text::{trim, trimmed};
use vstd::prelude::*;
use vstd::std_specs::cmp::PartialEqSpecImpl;
use vstd::std_specs::convert::FromSpecImpl;

verus! {

/// What one wants to achieve in a week. There is one goal per week and year.
#[derive(Debug, Clone)]
pub struct WeeklyGoal {
    pub text: String,
    pub week: u32,
    pub year: i32,
    persisted: bool,
}

impl DeepView for WeeklyGoal {
    type V = Record;

    open spec fn deep_view(&self) -> Record {
        self@
    }
}

impl View for WeeklyGoal {
    type V = Record;

    closed spec fn view(&self) -> Record {
        Record {
            text: self.text@,
            period: self.week as int,
            year: self.year as int,
            persisted: self.persisted,
        }
    }
}

impl WeeklyGoal {
    /// Whether the store holds this goal.
    pub fn persisted(&self) -> (b: bool)
        ensures
            b == self@.persisted,
    {
        self.persisted
    }

    /// A draft of the goal for the week of `date`.
    pub fn new(text: String, date: &DayWeekYear) -> (goal: Self)
        ensures
            goal@ == Record::draft(text@, date@.week, date@.year),
    {
        let week = date.week();
        let year = date.year();
        Self { text, week, year, persisted: false }
    }

    /// The goal that the store holds for a week.
    pub fn from_db(text: String, week: u32, year: i32) -> (goal: Self)
        ensures
            goal@ == Record::on_record(text@, week as int, year as int),
    {
        Self { text, week, year, persisted: true }
    }

    /// The goal made of what the user answered, for the week of `date`.
    pub fn input(date: &DayWeekYear, answer: &str) -> (goal: Self)
        ensures
            goal@ == Record::draft(trimmed(answer@), date@.week, date@.year),
    {
        Self::new(trim(answer), date)
    }

    /// The goal of the week of `today`, given what the lookup of that week
    /// returned. `None` says that the user has to be asked; a goal found is
    /// returned as it is on record, and nobody is asked.
    pub fn get_current_or_input(today: &DayWeekYear, row: Option<String>) -> (current: Option<Self>)
        ensures
            row is Some <==> current is Some,
            row matches Some(text) ==> current->0@ == Record::on_record(
                text@,
                today@.week,
                today@.year,
            ),
    {
        match row {
            Some(text) => Some(Self::from_db(text, today.week(), today.year())),
            None => None,
        }
    }

    /// The row of the goal.
    pub fn row(&self) -> (row: Upsert)
        ensures
            row@ == self@.row(),
    {
        Upsert { period: self.week, year: self.year, text: self.text.clone() }
    }

    /// The write that a save has to make: none once the goal is persisted.
    pub fn pending(&self) -> (write: Option<Upsert>)
        ensures
            write.deep_view() == self@.pending(),
    {
        if self.persisted {
            None
        } else {
            Some(self.row())
        }
    }

    /// Settles a save with the outcome of the pending write. A persisted goal
    /// reports success and stays as it is, whatever `outcome` says. A draft
    /// becomes persisted if the write succeeded and stays a draft if it failed.
    pub fn save(&mut self, outcome: Result<(), StorageError>) -> (r: Result<(), StorageError>)
        ensures
            final(self)@ == old(self)@.settled(outcome),
            r == old(self)@.report(outcome),
    {
        if self.persisted {
            return Ok(());
        }
        if outcome.is_ok() {
            self.persisted = true;
        }
        outcome
    }

    /// The week of the goal.
    pub fn week(&self) -> (week: u32)
        ensures
            week == self@.period,
    {
        self.week
    }

    /// Starts the entry of a goal: the session asks for the goal of the week,
    /// shows it, and has it saved once the user has confirmed it.
    pub fn input_and_save(today: DayWeekYear) -> (r: (Session, Step))
        ensures
            (r.0@, r.1@) == SessionView::start(Flow::Weekly, today@),
    {
        Session::start(Flow::Weekly, today)
    }

    /// The text of the goal.
    pub fn to_text(&self) -> (s: String)
        ensures
            s@ == self@.text,
    {
        self.text.clone()
    }
}

impl Default for WeeklyGoal {
    fn default() -> (goal: Self)
        ensures
            goal@ == Record::draft(Seq::empty(), 0, 0),
    {
        Self { text: String::new(), week: 0, year: 0, persisted: false }
    }
}

impl PartialEq for WeeklyGoal {
    fn eq(&self, other: &Self) -> (r: bool) {
        self.text == other.text && self.week == other.week && self.year == other.year
            && self.persisted == other.persisted
    }
}

impl PartialEqSpecImpl for WeeklyGoal {
    open spec fn obeys_eq_spec() -> bool {
        true
    }

    open spec fn eq_spec(&self, other: &Self) -> bool {
        self@ == other@
    }
}

impl<'a> From<&'a str> for WeeklyGoal {
    /// A draft with the given text for the week that the local clock shows:
    /// the ISO week of some day of the year of the goal.
    fn from(text: &'a str) -> (goal: Self)
        ensures
            goal@.text == text@,
            !goal@.persisted,
            1 <= goal@.period <= 53,
            exists|day: int|
                is_date(goal@.year, day) && #[trigger] iso_week_of(goal@.year, day) == Some(
                    goal@.period as u32,
                ),
    {
        let today = DayWeekYear::new();
        let goal = Self::new(text.to_owned(), &today);
        assert(is_date(goal@.year, today@.day) && iso_week_of(goal@.year, today@.day) == Some(
            goal@.period as u32,
        ));
        goal
    }
}

impl<'a> FromSpecImpl<&'a str> for WeeklyGoal {
    open spec fn obeys_from_spec() -> bool {
        false
    }

    open spec fn from_spec(text: &'a str) -> Self {
        arbitrary()
    }
}

} // verus!
