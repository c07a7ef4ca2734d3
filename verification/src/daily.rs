//! The objective of a day.

use crate::calendar::DayWeekYear;
use crate::error::StorageError;
use crate::model::{Flow, SessionView};
use crate::protocol::Step;
use crate::record::{Record, Upsert};
use crate::session::Session;
use crate::text::{trim, trimmed};
use vstd::prelude::*;
use vstd::std_specs::cmp::PartialEqSpecImpl;

verus! {

/// What one wants to do on a day to get closer to the goal of its week. There
/// is one objective per day and year.
#[derive(Debug, Clone)]
pub struct DailyObjective {
    pub text: String,
    pub day: u32,
    pub year: i32,
    persisted: bool,
}

impl DeepView for DailyObjective {
    type V = Record;

    open spec fn deep_view(&self) -> Record {
        self@
    }
}

impl View for DailyObjective {
    type V = Record;

    closed spec fn view(&self) -> Record {
        Record {
            text: self.text@,
            period: self.day as int,
            year: self.year as int,
            persisted: self.persisted,
        }
    }
}

impl DailyObjective {
    /// Whether the store holds this objective.
    pub fn persisted(&self) -> (b: bool)
        ensures
            b == self@.persisted,
    {
        self.persisted
    }

    /// A draft of the objective for the day of `current_day_year`.
    pub fn new(text: String, current_day_year: &DayWeekYear) -> (objective: Self)
        ensures
            objective@ == Record::draft(text@, current_day_year@.day, current_day_year@.year),
    {
        let day = current_day_year.day();
        let year = current_day_year.year();
        Self { text, day, year, persisted: false }
    }

    /// The objective that the store holds for a day.
    pub fn from_db(text: String, day: u32, year: i32) -> (objective: Self)
        ensures
            objective@ == Record::on_record(text@, day as int, year as int),
    {
        Self { text, day, year, persisted: true }
    }

    /// The objective of the day of `today`, given what the lookup of that day
    /// returned: the one on record, or none.
    pub fn get_current(today: &DayWeekYear, row: Option<String>) -> (current: Option<Self>)
        ensures
            row is Some <==> current is Some,
            row matches Some(text) ==> current->0@ == Record::on_record(
                text@,
                today@.day,
                today@.year,
            ),
    {
        match row {
            Some(text) => Some(Self::from_db(text, today.day(), today.year())),
            None => None,
        }
    }

    /// The answer to offer when the user is asked for the objective: the text
    /// of the current one, unless there is none or it is empty.
    pub fn default_answer(current: &Option<Self>) -> (default: Option<String>)
        ensures
            default is Some <==> (current is Some && current->0@.text.len() > 0),
            default matches Some(text) ==> text@ == current->0@.text,
    {
        match current {
            Some(objective) => {
                if objective.text.as_str().is_empty() {
                    None
                } else {
                    Some(objective.text.clone())
                }
            },
            None => None,
        }
    }

    /// The objective made of what the user answered, for the day of `date`.
    pub fn input(date: &DayWeekYear, answer: &str) -> (objective: Self)
        ensures
            objective@ == Record::draft(trimmed(answer@), date@.day, date@.year),
    {
        Self::new(trim(answer), date)
    }

    /// The row of the objective.
    pub fn row(&self) -> (row: Upsert)
        ensures
            row@ == self@.row(),
    {
        Upsert { period: self.day, year: self.year, text: self.text.clone() }
    }

    /// The write that a save has to make: none once the objective is persisted.
    pub fn pending(&self) -> (write: Option<Upsert>)
        ensures
            write.deep_view() == self@.pending(),
    {
        if self.persisted {
            None
        } else {
            Some(self.row())
        }
    }

    /// Settles a save with the outcome of the pending write. A persisted
    /// objective reports success and stays as it is, whatever `outcome` says. A
    /// draft becomes persisted if the write succeeded and stays a draft if it
    /// failed.
    pub fn save(&mut self, outcome: Result<(), StorageError>) -> (r: Result<(), StorageError>)
        ensures
            final(self)@ == old(self)@.settled(outcome),
            r == old(self)@.report(outcome),
    {
        if self.persisted {
            return Ok(());
        }
        if outcome.is_ok() {
            self.persisted = true;
        }
        outcome
    }

    /// The day of the objective.
    pub fn day(&self) -> (day: u32)
        ensures
            day == self@.period,
    {
        self.day
    }

    /// Starts the entry of an objective: the session shows the goal of the
    /// week, asking for it where there is none, then asks for the objective of
    /// the day, shows it, and has it saved once the user has confirmed it.
    pub fn input_and_save(today: DayWeekYear) -> (r: (Session, Step))
        ensures
            (r.0@, r.1@) == SessionView::start(Flow::Daily, today@),
    {
        Session::start(Flow::Daily, today)
    }

    /// The text of the objective.
    pub fn to_text(&self) -> (s: String)
        ensures
            s@ == self@.text,
    {
        self.text.clone()
    }
}

impl PartialEq for DailyObjective {
    fn eq(&self, other: &Self) -> (r: bool) {
        self.text == other.text && self.day == other.day && self.year == other.year
            && self.persisted == other.persisted
    }
}

impl PartialEqSpecImpl for DailyObjective {
    open spec fn obeys_eq_spec() -> bool {
        true
    }

    open spec fn eq_spec(&self, other: &Self) -> bool {
        self@ == other@
    }
}

} // verus!
