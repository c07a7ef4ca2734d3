//! What holds of every session, whatever the store and the user reply.

use crate::calendar::CalendarKey;
use crate::model::{ask, picked, Flow, SessionView, Stage};
use crate::protocol::{NoticeView, ReplyView, RequestView, StepView};
use crate::record::{count, law_lookup_then_save, save, Record, Table};
use crate::task::{
    choice_at, entered, moved_to_today, reconciled_all, Disposition, TaskRow, TaskStatus,
    TaskView,
};
use crate::text::trimmed;
use vstd::prelude::*;

verus! {

/// The moves that a session makes on a run of replies, in order.
pub open spec fn run(session: SessionView, replies: Seq<ReplyView>) -> Seq<StepView>
    decreases replies.len(),
{
    if replies.len() == 0 {
        Seq::empty()
    } else {
        let (next, step) = session.step(replies[0]);
        seq![step] + run(next, replies.drop_first())
    }
}

/// The session after a run of replies.
pub open spec fn after(session: SessionView, replies: Seq<ReplyView>) -> SessionView
    decreases replies.len(),
{
    if replies.len() == 0 {
        session
    } else {
        after(session.step(replies[0]).0, replies.drop_first())
    }
}

/// How many of the moves satisfy `wanted`.
pub open spec fn times(steps: Seq<StepView>, wanted: spec_fn(StepView) -> bool) -> nat
    decreases steps.len(),
{
    if steps.len() == 0 {
        0
    } else if wanted(steps[0]) {
        1 + times(steps.drop_first(), wanted)
    } else {
        times(steps.drop_first(), wanted)
    }
}

/// Picks the moves that ask for the goal to be written.
pub open spec fn writes_goal() -> spec_fn(StepView) -> bool {
    |step: StepView| step.request is SaveGoal
}

/// Picks the moves that ask for the objective to be written.
pub open spec fn writes_objective() -> spec_fn(StepView) -> bool {
    |step: StepView| step.request is SaveObjective
}

/// Picks the moves that ask the user for the goal.
pub open spec fn asks_goal() -> spec_fn(StepView) -> bool {
    |step: StepView| step.request is AskGoal
}

/// Picks the moves that ask the user for the objective.
pub open spec fn asks_objective() -> spec_fn(StepView) -> bool {
    |step: StepView| step.request is AskObjective
}

/// A session that saves tasks ends up waiting for a write or finished.
pub proof fn lemma_next_write(session: SessionView, notice: Option<NoticeView>)
    ensures
        ({
            let (next, step) = session.next_write(notice);
            ||| next.stage == Stage::TaskWrite && step.request is SaveTask
            ||| next.stage == Stage::Finished && step.request is Finish
        }),
    decreases session.tasks.len() - session.cursor,
{
    if 0 <= session.cursor < session.tasks.len() {
        if session.tasks[session.cursor].pending() is None {
            lemma_next_write(SessionView { cursor: session.cursor + 1, ..session }, notice);
        }
    }
}

/// The stages in the order a session passes through them.
pub open spec fn rank(stage: Stage) -> nat {
    match stage {
        Stage::GoalRow => 0,
        Stage::GoalAnswer => 1,
        Stage::GoalConfirm => 2,
        Stage::GoalWrite => 3,
        Stage::ObjectiveRow => 4,
        Stage::ObjectiveAnswer => 5,
        Stage::ObjectiveConfirm => 6,
        Stage::ObjectiveWrite => 7,
        Stage::TaskRows => 8,
        Stage::Reconcile => 9,
        Stage::TaskEntry => 10,
        Stage::TaskWrite => 11,
        Stage::Finished => 12,
    }
}

/// Where each stage can lead.
proof fn lemma_next_stage(session: SessionView, reply: ReplyView)
    ensures
        ({
            let next = session.step(reply).0.stage;
            match session.stage {
                Stage::GoalRow => next == Stage::ObjectiveRow || next == Stage::GoalAnswer || next
                    == Stage::Finished,
                Stage::GoalAnswer => next == Stage::GoalWrite || next == Stage::GoalConfirm || next
                    == Stage::ObjectiveRow || next == Stage::Finished,
                Stage::GoalConfirm => next == Stage::GoalWrite || next == Stage::Finished,
                Stage::GoalWrite => next == Stage::ObjectiveRow || next == Stage::Finished,
                Stage::ObjectiveRow => next == Stage::TaskRows || next == Stage::ObjectiveAnswer
                    || next == Stage::Finished,
                Stage::ObjectiveAnswer => next == Stage::ObjectiveWrite || next
                    == Stage::ObjectiveConfirm || next == Stage::Finished,
                Stage::ObjectiveConfirm => next == Stage::ObjectiveWrite || next == Stage::Finished,
                Stage::ObjectiveWrite => next == Stage::TaskRows || next == Stage::Finished,
                Stage::TaskRows => next == Stage::TaskEntry || next == Stage::Reconcile || next
                    == Stage::Finished,
                Stage::Reconcile => next == Stage::TaskEntry || next == Stage::Reconcile || next
                    == Stage::Finished,
                Stage::TaskEntry => next == Stage::TaskEntry || next == Stage::TaskWrite || next
                    == Stage::Finished,
                Stage::TaskWrite => next == Stage::TaskWrite || next == Stage::Finished,
                Stage::Finished => next == Stage::Finished,
            }
        }),
{
    lemma_stage_of_task_steps(session, reply);
    match session.stage {
        Stage::GoalRow => {
            assert(session.step(reply) == session.goal_row(reply));
            match reply {
                ReplyView::Row(Some(text)) => {
                    let goal = Record::on_record(text, session.today.week, session.today.year);
                    assert(session.goal_row(reply) == session.goal_shown(goal));
                },
                ReplyView::Row(None) => {},
                _ => {
                    assert(session.goal_row(reply) == session.store_failed(reply));
                },
            }
        },
        Stage::GoalAnswer => {
            assert(session.step(reply) == session.goal_answer(reply));
        },
        Stage::GoalConfirm => {
            assert(session.step(reply) == session.goal_confirm(reply));
        },
        Stage::GoalWrite => {
            assert(session.step(reply) == session.goal_write(reply));
        },
        Stage::ObjectiveRow => {
            assert(session.step(reply) == session.objective_row(reply));
        },
        Stage::ObjectiveAnswer => {
            assert(session.step(reply) == session.objective_answer(reply));
        },
        Stage::ObjectiveConfirm => {
            assert(session.step(reply) == session.objective_confirm(reply));
        },
        Stage::ObjectiveWrite => {
            assert(session.step(reply) == session.objective_write(reply));
        },
        Stage::TaskRows => {
            assert(session.step(reply) == session.task_rows(reply));
        },
        Stage::Reconcile => {
            assert(session.step(reply) == session.reconcile(reply));
        },
        _ => {},
    }
}

/// A session never goes back to an earlier stage. Only going through the
/// unfinished tasks, entering tasks and saving tasks take more than one reply;
/// every other stage is left by the reply it waited for.
pub proof fn law_stages_only_advance(session: SessionView, reply: ReplyView)
    ensures
        rank(session.step(reply).0.stage) >= rank(session.stage),
        rank(session.step(reply).0.stage) == rank(session.stage) ==> {
            ||| session.stage == Stage::Reconcile
            ||| session.stage == Stage::TaskEntry
            ||| session.stage == Stage::TaskWrite
            ||| session.stage == Stage::Finished
        },
{
    lemma_next_stage(session, reply);
}

/// Where entering and saving tasks can lead, and what is asked then.
proof fn lemma_stage_of_task_steps(session: SessionView, reply: ReplyView)
    ensures
        session.stage == Stage::TaskEntry ==> {
            let (next, step) = session.step(reply);
            ||| next.stage == Stage::TaskEntry && step.request is AskTask
            ||| next.stage == Stage::TaskWrite && step.request is SaveTask
            ||| next.stage == Stage::Finished && step.request is Finish
        },
        session.stage == Stage::TaskWrite ==> {
            let (next, step) = session.step(reply);
            ||| next.stage == Stage::TaskWrite && step.request is SaveTask
            ||| next.stage == Stage::Finished && step.request is Finish
        },
{
    if session.stage == Stage::TaskEntry {
        lemma_next_write(
            SessionView { cursor: 0, ..session },
            None,
        );
    } else if session.stage == Stage::TaskWrite {
        if 0 <= session.cursor < session.tasks.len() {
            lemma_next_write(
                session.task_settled(reply),
                SessionView::write_notice(reply, session.tasks[session.cursor].text),
            );
        }
    }
}

/// The stages that each kind of session passes through.
pub open spec fn on_path(flow: Flow, stage: Stage) -> bool {
    match flow {
        Flow::Wizard => stage != Stage::GoalConfirm && stage != Stage::ObjectiveConfirm,
        Flow::Weekly => {
            ||| stage == Stage::GoalAnswer
            ||| stage == Stage::GoalConfirm
            ||| stage == Stage::GoalWrite
            ||| stage == Stage::Finished
        },
        Flow::Daily => {
            ||| stage == Stage::GoalRow
            ||| stage == Stage::GoalAnswer
            ||| stage == Stage::ObjectiveRow
            ||| stage == Stage::ObjectiveAnswer
            ||| stage == Stage::ObjectiveConfirm
            ||| stage == Stage::ObjectiveWrite
            ||| stage == Stage::Finished
        },
    }
}

/// The requests that each kind of session makes.
pub open spec fn in_vocabulary(flow: Flow, request: RequestView) -> bool {
    match flow {
        Flow::Wizard => !(request is ConfirmGoal) && !(request is ConfirmObjective),
        Flow::Weekly => {
            ||| request is AskGoal
            ||| request is ConfirmGoal
            ||| request is SaveGoal
            ||| request is Finish
        },
        Flow::Daily => {
            ||| request is FindGoal
            ||| request is AskGoal
            ||| request is FindObjective
            ||| request is AskObjective
            ||| request is ConfirmObjective
            ||| request is SaveObjective
            ||| request is Finish
        },
    }
}

/// A session stays what it was started as and keeps the day it was started
/// with. The wizard saves without asking for confirmation. The entry of a goal
/// touches neither the objective nor the tasks and looks nothing up. The entry
/// of an objective never writes the goal, even where it had to ask for it, and
/// does not touch the tasks.
pub proof fn law_sessions_keep_to_their_path(session: SessionView, reply: ReplyView)
    requires
        on_path(session.flow, session.stage),
    ensures
        ({
            let (next, step) = session.step(reply);
            &&& next.flow == session.flow
            &&& next.today == session.today
            &&& on_path(next.flow, next.stage)
            &&& in_vocabulary(session.flow, step.request)
        }),
{
    lemma_next_stage(session, reply);
    lemma_stage_of_task_steps(session, reply);
    lemma_session_keeps_its_day(session, reply);
}

/// Every session starts on its path.
pub proof fn law_sessions_start_on_their_path(flow: Flow, today: CalendarKey)
    ensures
        ({
            let (session, first) = SessionView::start(flow, today);
            &&& session.flow == flow
            &&& session.today == today
            &&& on_path(flow, session.stage)
            &&& in_vocabulary(flow, first.request)
        }),
{
}

proof fn lemma_next_write_keeps_the_day(session: SessionView, notice: Option<NoticeView>)
    ensures
        session.next_write(notice).0.flow == session.flow,
        session.next_write(notice).0.today == session.today,
    decreases session.tasks.len() - session.cursor,
{
    if 0 <= session.cursor < session.tasks.len() {
        if session.tasks[session.cursor].pending() is None {
            lemma_next_write_keeps_the_day(
                SessionView { cursor: session.cursor + 1, ..session },
                notice,
            );
        }
    }
}

proof fn lemma_session_keeps_its_day(session: SessionView, reply: ReplyView)
    ensures
        session.step(reply).0.flow == session.flow,
        session.step(reply).0.today == session.today,
{
    if session.stage == Stage::TaskEntry {
        lemma_next_write_keeps_the_day(
            SessionView { cursor: 0, ..session },
            None,
        );
    } else if session.stage == Stage::TaskWrite {
        if 0 <= session.cursor < session.tasks.len() {
            lemma_next_write_keeps_the_day(
                session.task_settled(reply),
                SessionView::write_notice(reply, session.tasks[session.cursor].text),
            );
        }
    }
}

/// A finished session stays as it is and keeps announcing its result.
pub proof fn law_finished_is_final(session: SessionView, reply: ReplyView)
    requires
        session.stage == Stage::Finished,
    ensures
        session.step(reply).0 == session,
        session.step(reply).1 == (StepView {
            notice: None,
            request: RequestView::Finish(session.result),
        }),
{
}

/// The user is asked for a goal only after the lookup of the week has found
/// none. In the wizard the same holds of the objective. A record that the
/// lookup returns is never asked for.
pub proof fn law_asks_only_after_a_miss(session: SessionView, reply: ReplyView)
    ensures
        session.step(reply).1.request is AskGoal ==> session.stage == Stage::GoalRow && reply
            == ReplyView::Row(None),
        session.step(reply).1.request is AskObjective ==> session.stage == Stage::ObjectiveRow
            && reply is Row,
        session.step(reply).1.request is AskObjective && session.flow == Flow::Wizard ==> reply
            == ReplyView::Row(None),
{
    lemma_stage_of_task_steps(session, reply);
}

/// A record is written only as a draft: in the wizard as soon as the user has
/// entered it, in an entry after a plain yes. What the lookup returned is
/// never written back.
pub proof fn law_writes_only_what_was_entered(session: SessionView, reply: ReplyView)
    ensures
        session.step(reply).1.request matches RequestView::SaveGoal(row) ==> {
            &&& session.step(reply).0.goal matches Some(goal)
            &&& !goal.persisted
            &&& row == goal.row()
            &&& {
                ||| session.flow == Flow::Wizard && session.stage == Stage::GoalAnswer && reply
                    is Text
                ||| session.stage == Stage::GoalConfirm && reply == ReplyView::Confirmed(true)
            }
        },
        session.step(reply).1.request matches RequestView::SaveObjective(row) ==> {
            &&& session.step(reply).0.objective matches Some(objective)
            &&& !objective.persisted
            &&& row == objective.row()
            &&& {
                ||| session.flow == Flow::Wizard && session.stage == Stage::ObjectiveAnswer
                    && reply is Text
                ||| session.stage == Stage::ObjectiveConfirm && reply == ReplyView::Confirmed(true)
            }
        },
{
    lemma_stage_of_task_steps(session, reply);
}

/// How many writes of the goal and of the objective a session may still ask
/// for, and how often it may still ask the user for each.
spec fn goal_budget(stage: Stage) -> nat {
    if rank(stage) <= rank(Stage::GoalConfirm) {
        1
    } else {
        0
    }
}

spec fn goal_ask_budget(stage: Stage) -> nat {
    if stage == Stage::GoalRow {
        1
    } else {
        0
    }
}

spec fn objective_budget(stage: Stage) -> nat {
    if rank(stage) <= rank(Stage::ObjectiveConfirm) {
        1
    } else {
        0
    }
}

spec fn objective_ask_budget(stage: Stage) -> nat {
    if rank(stage) <= rank(Stage::ObjectiveRow) {
        1
    } else {
        0
    }
}

proof fn lemma_budgets(session: SessionView, replies: Seq<ReplyView>)
    ensures
        times(run(session, replies), writes_goal()) <= goal_budget(session.stage),
        times(run(session, replies), asks_goal()) <= goal_ask_budget(session.stage),
        times(run(session, replies), writes_objective()) <= objective_budget(session.stage),
        times(run(session, replies), asks_objective()) <= objective_ask_budget(session.stage),
    decreases replies.len(),
{
    if replies.len() > 0 {
        let (next, step) = session.step(replies[0]);
        let rest = run(next, replies.drop_first());
        lemma_budgets(next, replies.drop_first());
        lemma_stage_of_task_steps(session, replies[0]);
        law_stages_only_advance(session, replies[0]);
        assert((seq![step] + rest)[0] == step);
        assert((seq![step] + rest).drop_first() == rest);
    }
}

/// In one session the goal is written at most once and the objective is
/// written at most once, and the user is asked for each at most once, whatever
/// the replies are.
pub proof fn law_one_write_per_record(flow: Flow, today: CalendarKey, replies: Seq<ReplyView>)
    ensures
        ({
            let (session, first) = SessionView::start(flow, today);
            let steps = seq![first] + run(session, replies);
            &&& times(steps, writes_goal()) <= 1
            &&& times(steps, writes_objective()) <= 1
            &&& times(steps, asks_goal()) <= 1
            &&& times(steps, asks_objective()) <= 1
        }),
{
    let (session, first) = SessionView::start(flow, today);
    let rest = run(session, replies);
    lemma_budgets(session, replies);
    assert((seq![first] + rest)[0] == first);
    assert((seq![first] + rest).drop_first() == rest);
}

/// The wizard and the store together, for the goal of the week: the wizard
/// looks the week up, asks only where nothing was found, and has a new goal
/// written. With a store that answers the lookup from its table and makes the
/// write, the wizard then holds the goal as persisted, the table has exactly
/// one row for the week, with the text of that goal, and was written at most
/// once: not at all where the goal was on record.
pub proof fn law_wizard_settles_the_goal(today: CalendarKey, table: Table, answer: Seq<char>)
    requires
        table.unique(),
    ensures
        ({
            let (session, first) = SessionView::start(Flow::Wizard, today);
            let found = table.find(today.week, today.year);
            let goal = Record::resolved(found, answer, today.week, today.year);
            let (saved, stored) = save(goal, table);
            let replies = if found is Some {
                seq![ReplyView::Row(found)]
            } else {
                seq![ReplyView::Row(found), ReplyView::Text(answer), ReplyView::Done]
            };
            let steps = run(session, replies);
            &&& first.request == RequestView::FindGoal { week: today.week, year: today.year }
            &&& after(session, replies).goal == Some(saved)
            &&& after(session, replies).stage == Stage::ObjectiveRow
            &&& saved.persisted
            &&& stored.find(today.week, today.year) == Some(saved.text)
            &&& count(stored.rows, today.week, today.year) == 1
            &&& found is Some ==> stored == table && times(steps, asks_goal()) == 0 && times(
                steps,
                writes_goal(),
            ) == 0
            &&& found is None ==> {
                &&& steps[0].request == RequestView::AskGoal
                &&& steps[1].request == RequestView::SaveGoal(goal.row())
                &&& stored == table.upsert(goal.row())
            }
        }),
{
    let (session, first) = SessionView::start(Flow::Wizard, today);
    let found = table.find(today.week, today.year);
    let goal = Record::resolved(found, answer, today.week, today.year);
    law_lookup_then_save(table, answer, today.week, today.year);
    if found is Some {
        let replies = seq![ReplyView::Row(found)];
        let (s1, step1) = session.step(replies[0]);
        let none = replies.drop_first();
        assert(none.len() == 0);
        assert(run(s1, none) == Seq::<StepView>::empty());
        assert(after(s1, none) == s1);
        let steps = run(session, replies);
        assert(steps == seq![step1] + run(s1, none));
        assert(steps[0] == step1);
        assert(steps.drop_first().len() == 0);
        assert(times(steps.drop_first(), asks_goal()) == 0);
        assert(times(steps.drop_first(), writes_goal()) == 0);
        assert(!asks_goal()(step1));
        assert(!writes_goal()(step1));
    } else {
        let replies = seq![ReplyView::Row(found), ReplyView::Text(answer), ReplyView::Done];
        let (s1, step1) = session.step(replies[0]);
        let r1 = replies.drop_first();
        let (s2, step2) = s1.step(r1[0]);
        let r2 = r1.drop_first();
        let (s3, step3) = s2.step(r2[0]);
        let r3 = r2.drop_first();
        assert(r1[0] == ReplyView::Text(answer));
        assert(r2[0] == ReplyView::Done);
        assert(r3.len() == 0);
        assert(run(s3, r3) == Seq::<StepView>::empty());
        assert(run(s2, r2) == seq![step3] + run(s3, r3));
        assert(run(s1, r1) == seq![step2] + run(s2, r2));
        assert(run(session, replies) == seq![step1] + run(s1, r1));
        assert(after(s3, r3) == s3);
        assert(after(s2, r2) == s3);
        assert(after(s1, r1) == s3);
        assert(after(session, replies) == s3);
        assert(s2.goal == Some(goal));
        assert(s3.goal == Some(goal.settled(Ok(()))));
    }
}

/// The wizard and the store together, for the objective of the day: as for the
/// goal of the week. The wizard asks only where the lookup found nothing, and
/// then has the objective written once; afterwards it holds the objective as
/// persisted, the table has exactly one row for the day, with the text of that
/// objective, and the wizard turns to the tasks.
pub proof fn law_wizard_settles_the_objective(
    session: SessionView,
    table: Table,
    answer: Seq<char>,
)
    requires
        session.flow == Flow::Wizard,
        session.stage == Stage::ObjectiveRow,
        table.unique(),
    ensures
        ({
            let today = session.today;
            let found = table.find(today.day, today.year);
            let objective = Record::resolved(found, answer, today.day, today.year);
            let (saved, stored) = save(objective, table);
            let replies = if found is Some {
                seq![ReplyView::Row(found)]
            } else {
                seq![ReplyView::Row(found), ReplyView::Text(answer), ReplyView::Done]
            };
            let steps = run(session, replies);
            &&& after(session, replies).objective == Some(saved)
            &&& after(session, replies).stage == Stage::TaskRows
            &&& steps.last().request == RequestView::ListTasks
            &&& saved.persisted
            &&& stored.find(today.day, today.year) == Some(saved.text)
            &&& count(stored.rows, today.day, today.year) == 1
            &&& found is Some ==> stored == table && steps.len() == 1
            &&& found is None ==> {
                &&& steps[0].request == RequestView::AskObjective { default: None }
                &&& steps[1].request == RequestView::SaveObjective(objective.row())
                &&& stored == table.upsert(objective.row())
            }
        }),
{
    let today = session.today;
    let found = table.find(today.day, today.year);
    let objective = Record::resolved(found, answer, today.day, today.year);
    law_lookup_then_save(table, answer, today.day, today.year);
    if found is Some {
        let replies = seq![ReplyView::Row(found)];
        let (s1, step1) = session.step(replies[0]);
        let none = replies.drop_first();
        assert(none.len() == 0);
        assert(run(s1, none) == Seq::<StepView>::empty());
        assert(after(s1, none) == s1);
        assert(run(session, replies) == seq![step1] + run(s1, none));
    } else {
        let replies = seq![ReplyView::Row(found), ReplyView::Text(answer), ReplyView::Done];
        let (s1, step1) = session.step(replies[0]);
        let r1 = replies.drop_first();
        let (s2, step2) = s1.step(r1[0]);
        let r2 = r1.drop_first();
        let (s3, step3) = s2.step(r2[0]);
        let r3 = r2.drop_first();
        assert(r1[0] == ReplyView::Text(answer));
        assert(r2[0] == ReplyView::Done);
        assert(r3.len() == 0);
        assert(run(s3, r3) == Seq::<StepView>::empty());
        assert(run(s2, r2) == seq![step3] + run(s3, r3));
        assert(run(s1, r1) == seq![step2] + run(s2, r2));
        assert(run(session, replies) == seq![step1] + run(s1, r1));
        assert(after(s3, r3) == s3);
        assert(after(s2, r2) == s3);
        assert(after(s1, r1) == s3);
        assert(after(session, replies) == s3);
        assert(s2.objective == Some(objective));
        assert(s3.objective == Some(objective.settled(Ok(()))));
    }
}

/// The places of the tasks that go on the list of today, in their order.
pub open spec fn moved_places(tasks: Seq<TaskView>, choices: Seq<Disposition>) -> Seq<int>
    decreases tasks.len(),
{
    if tasks.len() == 0 {
        Seq::empty()
    } else {
        let earlier = moved_places(tasks.drop_last(), choices);
        if tasks.last().moves_to_today(choice_at(choices, tasks.len() - 1)) {
            earlier.push(tasks.len() - 1)
        } else {
            earlier
        }
    }
}

/// Every place on the list of today has a task.
pub open spec fn places_hold(session: SessionView) -> bool {
    forall|k: int|
        0 <= k < session.on_today.len() ==> 0 <= #[trigger] session.on_today[k]
            < session.tasks.len()
}

/// Tasks behind the places looked at play no part in what is picked.
proof fn lemma_picked_ignores_later(tasks: Seq<TaskView>, more: Seq<TaskView>, places: Seq<int>)
    requires
        forall|k: int| 0 <= k < places.len() ==> 0 <= #[trigger] places[k] < tasks.len(),
    ensures
        picked(tasks + more, places) == picked(tasks, places),
    decreases places.len(),
{
    if places.len() > 0 {
        let earlier = places.drop_last();
        assert forall|k: int| 0 <= k < earlier.len() implies 0 <= #[trigger] earlier[k]
            < tasks.len() by {
            assert(earlier[k] == places[k]);
        }
        lemma_picked_ignores_later(tasks, more, earlier);
        assert(places.last() == places[places.len() - 1]);
        assert((tasks + more)[places.last()] == tasks[places.last()]);
    }
}

/// The tasks at the places moved to today, taken after every task was gone
/// through, are the tasks moved to today: moving a task does not change it.
proof fn lemma_picked_after_reconciling(
    tasks: Seq<TaskView>,
    now: Seq<TaskView>,
    choices: Seq<Disposition>,
    n: int,
)
    requires
        0 <= n <= tasks.len(),
        now.len() == tasks.len(),
        forall|i: int|
            0 <= i < n ==> #[trigger] now[i] == tasks[i].reconciled(choice_at(choices, i)),
    ensures
        picked(now, moved_places(tasks.take(n), choices)) == moved_to_today(
            tasks.take(n),
            choices,
        ),
        forall|k: int|
            0 <= k < moved_places(tasks.take(n), choices).len() ==> 0 <= #[trigger] moved_places(
                tasks.take(n),
                choices,
            )[k] < n,
    decreases n,
{
    if n > 0 {
        assert(tasks.take(n).drop_last() == tasks.take(n - 1));
        assert(tasks.take(n).last() == tasks[n - 1]);
        lemma_picked_after_reconciling(tasks, now, choices, n - 1);
        let earlier = moved_places(tasks.take(n - 1), choices);
        if tasks[n - 1].moves_to_today(choice_at(choices, n - 1)) {
            assert(earlier.push(n - 1).drop_last() == earlier);
            assert(now[n - 1] == tasks[n - 1]);
        }
    }
}

/// Going through the unfinished tasks one reply at a time gives what going
/// through them in one piece gives: after a choice for every task, each task
/// is as that choice leaves it, the tasks moved to today make up the list of
/// today in their order, and only then is the user invited to enter tasks.
pub proof fn law_tasks_are_settled_before_new_ones(
    session: SessionView,
    choices: Seq<Disposition>,
)
    requires
        session.stage == Stage::Reconcile,
        session.cursor == 0,
        session.on_today.len() == 0,
        session.tasks.len() > 0,
        choices.len() == session.tasks.len(),
    ensures
        ({
            let replies = choices.map_values(|choice: Disposition| ReplyView::Choice(choice));
            let end = after(session, replies);
            let steps = run(session, replies);
            &&& end.stage == Stage::TaskEntry
            &&& end.tasks == reconciled_all(session.tasks, choices)
            &&& end.on_today == moved_places(session.tasks, choices)
            &&& end.today_list() == moved_to_today(session.tasks, choices)
            &&& places_hold(end)
            &&& steps.len() == choices.len()
            &&& steps.last().request == RequestView::AskTask
            &&& forall|i: int|
                0 <= i < steps.len() - 1 ==> (#[trigger] steps[i]).request
                    == (RequestView::AskDisposition { task: session.tasks[i + 1].text })
        }),
{
    let replies = choices.map_values(|choice: Disposition| ReplyView::Choice(choice));
    assert(choices.skip(0) == choices);
    assert(replies.skip(0) == replies);
    assert(session.tasks.take(0) == Seq::<TaskView>::empty());
    assert(session.on_today == Seq::<int>::empty());
    lemma_reconcile_from(session, session, choices, 0);
    let end = after(session, replies);
    assert(session.tasks.take(session.tasks.len() as int) == session.tasks);
    lemma_picked_after_reconciling(session.tasks, end.tasks, choices, session.tasks.len() as int);
}

/// The session `now` has gone through the first `done` tasks of `start`.
spec fn reconciling(start: SessionView, now: SessionView, choices: Seq<Disposition>, done: int)
    -> bool {
    &&& 0 <= done < start.tasks.len()
    &&& choices.len() == start.tasks.len()
    &&& now.stage == Stage::Reconcile
    &&& now.cursor == done
    &&& now.tasks.len() == start.tasks.len()
    &&& forall|i: int|
        0 <= i < done ==> #[trigger] now.tasks[i] == start.tasks[i].reconciled(choices[i])
    &&& forall|i: int| done <= i < start.tasks.len() ==> #[trigger] now.tasks[i] == start.tasks[i]
    &&& now.on_today == moved_places(start.tasks.take(done), choices)
}

proof fn lemma_reconcile_from(
    start: SessionView,
    now: SessionView,
    choices: Seq<Disposition>,
    done: int,
)
    requires
        reconciling(start, now, choices, done),
    ensures
        ({
            let replies = choices.map_values(|choice: Disposition| ReplyView::Choice(choice)).skip(
                done,
            );
            let end = after(now, replies);
            let steps = run(now, replies);
            &&& end.stage == Stage::TaskEntry
            &&& end.tasks == reconciled_all(start.tasks, choices)
            &&& end.on_today == moved_places(start.tasks, choices)
            &&& steps.len() == choices.len() - done
            &&& steps.last().request == RequestView::AskTask
            &&& forall|i: int|
                0 <= i < steps.len() - 1 ==> (#[trigger] steps[i]).request
                    == (RequestView::AskDisposition { task: start.tasks[done + i + 1].text })
        }),
    decreases start.tasks.len() - done,
{
    let all = choices.map_values(|choice: Disposition| ReplyView::Choice(choice));
    let replies = all.skip(done);
    assert(replies[0] == ReplyView::Choice(choices[done]));
    assert(replies.drop_first() == all.skip(done + 1));
    let (next, step) = now.step(replies[0]);
    let task = start.tasks[done];
    assert(now.tasks[done] == task);
    assert(start.tasks.take(done + 1).drop_last() == start.tasks.take(done));
    assert(start.tasks.take(done + 1).last() == task);
    assert(next.on_today == moved_places(start.tasks.take(done + 1), choices));
    if done + 1 < start.tasks.len() {
        assert(next.tasks[done + 1] == start.tasks[done + 1]);
        assert(reconciling(start, next, choices, done + 1));
        lemma_reconcile_from(start, next, choices, done + 1);
        let rest = run(next, replies.drop_first());
        let steps = run(now, replies);
        assert(steps == seq![step] + rest);
        assert(steps.last() == rest.last());
        assert forall|i: int| 0 <= i < steps.len() - 1 implies (#[trigger] steps[i]).request
            == (RequestView::AskDisposition { task: start.tasks[done + i + 1].text }) by {
            if i > 0 {
                assert(steps[i] == rest[i - 1]);
            }
        }
    } else {
        assert(replies.drop_first() == Seq::<ReplyView>::empty());
        assert(run(next, replies.drop_first()) == Seq::<StepView>::empty());
        assert(after(next, replies.drop_first()) == next);
        assert(start.tasks.take(done + 1) == start.tasks);
        assert(next.tasks == reconciled_all(start.tasks, choices));
        let steps = run(now, replies);
        assert(steps == seq![step] + Seq::<StepView>::empty());
        assert(steps.len() == 1);
    }
}

/// Saving moves no task: the tasks stay as many and the list of today keeps
/// its places.
proof fn lemma_next_write_keeps_the_places(session: SessionView, notice: Option<NoticeView>)
    ensures
        session.next_write(notice).0.tasks == session.tasks,
        session.next_write(notice).0.on_today == session.on_today,
    decreases session.tasks.len() - session.cursor,
{
    if 0 <= session.cursor < session.tasks.len() {
        if session.tasks[session.cursor].pending() is None {
            lemma_next_write_keeps_the_places(
                SessionView { cursor: session.cursor + 1, ..session },
                notice,
            );
        }
    }
}

/// Every place on the list of today has a task, from the start of a session
/// to its end: each task of the session stands once in its tasks, and the list
/// of today points at it there.
pub proof fn law_today_places_hold(session: SessionView, reply: ReplyView)
    requires
        places_hold(session),
    ensures
        places_hold(session.step(reply).0),
{
    let next = session.step(reply).0;
    match session.stage {
        Stage::TaskRows => {
            if reply is Tasks {
                assert(next.on_today.len() == 0);
            } else {
                assert(next.on_today == session.on_today);
                assert(next.tasks == session.tasks);
            }
        },
        Stage::Reconcile => {
            assert forall|k: int| 0 <= k < next.on_today.len() implies 0
                <= #[trigger] next.on_today[k] < next.tasks.len() by {
                if k < session.on_today.len() {
                    assert(next.on_today[k] == session.on_today[k]);
                }
            }
        },
        Stage::TaskEntry => {
            lemma_next_write_keeps_the_places(SessionView { cursor: 0, ..session }, None);
            assert forall|k: int| 0 <= k < next.on_today.len() implies 0
                <= #[trigger] next.on_today[k] < next.tasks.len() by {
                if k < session.on_today.len() {
                    assert(next.on_today[k] == session.on_today[k]);
                }
            }
        },
        Stage::TaskWrite => {
            if 0 <= session.cursor < session.tasks.len() {
                lemma_next_write_keeps_the_places(
                    session.task_settled(reply),
                    SessionView::write_notice(reply, session.tasks[session.cursor].text),
                );
            }
            assert(next.on_today == session.on_today);
            assert(next.tasks.len() == session.tasks.len());
        },
        _ => {
            assert(next.on_today == session.on_today);
            assert(next.tasks == session.tasks);
        },
    }
}

/// Entering tasks one reply at a time gives what entering them in one piece
/// gives: as long as the answers are not blank, each becomes a task at the end
/// of the tasks and of the list of today, and the user is invited again.
/// Nothing else changes.
pub proof fn law_entries_join_the_list_of_today(session: SessionView, answers: Seq<Seq<char>>)
    requires
        session.stage == Stage::TaskEntry,
        places_hold(session),
        forall|i: int| 0 <= i < answers.len() ==> trimmed(#[trigger] answers[i]).len() > 0,
    ensures
        ({
            let replies = answers.map_values(|answer: Seq<char>| ReplyView::Text(answer));
            let end = after(session, replies);
            let steps = run(session, replies);
            &&& end.tasks == session.tasks + entered(answers)
            &&& end.today_list() == session.today_list() + entered(answers)
            &&& places_hold(end)
            &&& end == SessionView { tasks: end.tasks, on_today: end.on_today, ..session }
            &&& steps.len() == answers.len()
            &&& forall|i: int|
                0 <= i < steps.len() ==> #[trigger] steps[i] == ask(RequestView::AskTask)
        }),
    decreases answers.len(),
{
    let replies = answers.map_values(|answer: Seq<char>| ReplyView::Text(answer));
    if answers.len() == 0 {
        assert(session.tasks + entered(answers) == session.tasks);
        assert(session.today_list() + entered(answers) == session.today_list());
    } else {
        let (next, step) = session.step(replies[0]);
        let rest = answers.drop_first();
        assert(replies[0] == ReplyView::Text(answers[0]));
        assert(replies.drop_first() == rest.map_values(
            |answer: Seq<char>| ReplyView::Text(answer),
        ));
        assert forall|i: int| 0 <= i < rest.len() implies trimmed(#[trigger] rest[i]).len()
            > 0 by {
            assert(rest[i] == answers[i + 1]);
        }
        let task = TaskView::fresh(trimmed(answers[0]), TaskStatus::ToDo);
        assert(next.tasks == session.tasks.push(task));
        assert(next.on_today == session.on_today.push(session.tasks.len() as int));
        assert(places_hold(next)) by {
            assert forall|k: int| 0 <= k < next.on_today.len() implies 0
                <= #[trigger] next.on_today[k] < next.tasks.len() by {
                if k < session.on_today.len() {
                    assert(next.on_today[k] == session.on_today[k]);
                }
            }
        }
        assert(next.today_list() == session.today_list().push(task)) by {
            assert(next.on_today.drop_last() == session.on_today);
            assert(session.tasks.push(task) == session.tasks + seq![task]);
            lemma_picked_ignores_later(session.tasks, seq![task], session.on_today);
        }
        law_entries_join_the_list_of_today(next, rest);
        assert(session.tasks.push(task) + entered(rest) == session.tasks + entered(answers));
        assert(session.today_list().push(task) + entered(rest) == session.today_list() + entered(
            answers,
        ));
        let steps = run(session, replies);
        let tail = run(next, replies.drop_first());
        assert(steps == seq![step] + tail);
        assert forall|i: int| 0 <= i < steps.len() implies #[trigger] steps[i] == ask(
            RequestView::AskTask,
        ) by {
            if i > 0 {
                assert(steps[i] == tail[i - 1]);
            }
        }
    }
}

/// The rows of the tasks from `from` on that the store does not hold yet, in
/// the order of the tasks.
pub open spec fn unsaved_from(tasks: Seq<TaskView>, from: int) -> Seq<TaskRow>
    decreases tasks.len() - from,
{
    if 0 <= from < tasks.len() {
        match tasks[from].pending() {
            Some(row) => seq![row] + unsaved_from(tasks, from + 1),
            None => unsaved_from(tasks, from + 1),
        }
    } else {
        Seq::empty()
    }
}

proof fn lemma_unsaved_from_ignores_earlier(
    tasks: Seq<TaskView>,
    at: int,
    task: TaskView,
    from: int,
)
    requires
        0 <= at < from,
        at < tasks.len(),
    ensures
        unsaved_from(tasks.update(at, task), from) == unsaved_from(tasks, from),
    decreases tasks.len() - from,
{
    if from < tasks.len() {
        lemma_unsaved_from_ignores_earlier(tasks, at, task, from + 1);
    }
}

/// Saving the tasks writes every task that the store does not hold, each once
/// and in order, and no other. The reply to one write decides nothing about
/// the next: after a failure, which is reported for its task, the tasks after
/// it are written all the same. Then the session ends, with the result it
/// had if every write was made, else with the first failure. If every write
/// was made, every task from the cursor on is persisted and is otherwise as it
/// was: so are the tasks on the list of today, which stand among them.
pub proof fn law_every_unsaved_task_is_written(
    session: SessionView,
    notice: Option<NoticeView>,
    replies: Seq<ReplyView>,
)
    requires
        0 <= session.cursor <= session.tasks.len(),
        replies.len() == unsaved_from(session.tasks, session.cursor).len(),
    ensures
        ({
            let rows = unsaved_from(session.tasks, session.cursor);
            let (next, first) = session.next_write(notice);
            let steps = seq![first] + run(next, replies);
            &&& steps.len() == rows.len() + 1
            &&& first.notice == notice
            &&& forall|i: int|
                0 <= i < rows.len() ==> (#[trigger] steps[i]).request == RequestView::SaveTask(
                    rows[i],
                )
            &&& forall|i: int|
                0 <= i < rows.len() ==> (#[trigger] steps[i + 1]).notice
                    == SessionView::write_notice(replies[i], rows[i].text)
            &&& steps.last().request == RequestView::Finish(after(next, replies).result)
            &&& after(next, replies).stage == Stage::Finished
            &&& session.result is Err ==> after(next, replies).result == session.result
            &&& (forall|i: int| 0 <= i < replies.len() ==> #[trigger] replies[i] is Done) ==> {
                let end = after(next, replies);
                &&& end.result == session.result
                &&& end.tasks.len() == session.tasks.len()
                &&& forall|i: int|
                    0 <= i < session.cursor ==> #[trigger] end.tasks[i] == session.tasks[i]
                &&& forall|i: int|
                    session.cursor <= i < session.tasks.len() ==> #[trigger] end.tasks[i]
                        == session.tasks[i].settled(Ok(())) && end.tasks[i].persisted
            }
        }),
    decreases session.tasks.len() - session.cursor,
{
    let rows = unsaved_from(session.tasks, session.cursor);
    let (next, first) = session.next_write(notice);
    let steps = seq![first] + run(next, replies);
    if session.cursor < session.tasks.len() {
        let task = session.tasks[session.cursor];
        match task.pending() {
            None => {
                law_every_unsaved_task_is_written(
                    SessionView { cursor: session.cursor + 1, ..session },
                    notice,
                    replies,
                );
            },
            Some(row) => {
                let reply = replies[0];
                let rest = replies.drop_first();
                let later = unsaved_from(session.tasks, session.cursor + 1);
                assert(rows == seq![row] + later);
                let moved = next.task_settled(reply);
                let shown = SessionView::write_notice(reply, row.text);
                assert(next.step(reply) == moved.next_write(shown));
                lemma_unsaved_from_ignores_earlier(
                    session.tasks,
                    session.cursor,
                    task.settled(Ok(())),
                    session.cursor + 1,
                );
                assert(unsaved_from(moved.tasks, moved.cursor) == later);
                law_every_unsaved_task_is_written(moved, shown, rest);
                let (then, second) = moved.next_write(shown);
                let tail = seq![second] + run(then, rest);
                assert(run(next, replies) == tail);
                assert(steps == seq![first] + tail);
                assert(after(next, replies) == after(then, rest));
                assert forall|i: int| 0 <= i < rows.len() implies (#[trigger] steps[i]).request
                    == RequestView::SaveTask(rows[i]) by {
                    if i > 0 {
                        assert(steps[i] == tail[i - 1]);
                        assert(rows[i] == later[i - 1]);
                    }
                }
                assert forall|i: int| 0 <= i < rows.len() implies (#[trigger] steps[i
                    + 1]).notice == SessionView::write_notice(replies[i], rows[i].text) by {
                    assert(steps[i + 1] == tail[i]);
                    if i > 0 {
                        assert(tail[i] == tail[(i - 1) + 1]);
                        assert(rows[i] == later[i - 1]);
                        assert(replies[i] == rest[i - 1]);
                    }
                }
                assert(steps.last() == tail.last());
                assert forall|i: int| 0 <= i < rest.len() implies #[trigger] rest[i]
                    == replies[i + 1] by {}
            },
        }
    } else {
        assert(run(next, replies) == Seq::<StepView>::empty());
        assert(steps == seq![first]);
    }
}

} // verus!
