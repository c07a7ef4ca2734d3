//! Weekly goals, daily objectives and tasks, keyed by the period they belong to.
//!
//! There is one goal per week and one objective per day; tasks stay until they
//! are done or discarded. A record knows whether the store holds it: a record
//! on record is never asked for and never written again.
//!
//! The library decides; it neither prompts, prints nor touches a database. A
//! [`Session`] makes one [`Request`] at a time. Whoever drives it shows, asks or
//! stores what the request says and hands the [`Reply`] to [`Session::step`],
//! until the request is [`Request::Finish`]. [`wizard`],
//! [`WeeklyGoal::input_and_save`] and [`DailyObjective::input_and_save`] start
//! the three kinds of session.
//!
//! Every function is verified against its contract. What a session does is
//! stated over plain values in [`model`]; [`laws`] and [`record`] hold what
//! follows from it for every run.

pub mod calendar;
pub mod daily;
pub mod error;
pub mod laws;
pub mod model;
pub mod protocol;
pub mod record;
pub mod session;
pub mod task;
pub mod text;
pub mod weekly;

pub use calendar::DayWeekYear;
pub use daily::DailyObjective;
pub use error::{SessionError, StorageError};
pub use model::{Flow, Stage};
pub use protocol::{Notice, Reply, Request, Step};
pub use record::Upsert;
pub use session::{wizard, Session};
pub use task::{Disposition, Reprioritized, StoredTask, Task, TaskStatus, TaskWrite};
pub use weekly::WeeklyGoal;
