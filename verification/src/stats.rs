//! The aggregation handler's decisions. A summary is made by asking the
//! store four questions in turn; the first answer that fails, or that is not
//! of the kind asked for, ends it with `StoreReadFailed` and nothing of what
//! was gathered is shown.

use vstd::prelude::*;
use crate::event::{RecentRow, RowModel, Stats, StatsModel, reduce_all, reduced_all, rows};
use crate::instant::{DAY_WINDOW_DAYS, Timestamp, WEEK_WINDOW_DAYS, days_before, has_windows};
use crate::reply::Failure;

verus! {

/// How many recent views a summary lists at most.
pub const RECENT_LIMIT: usize = 10;

/// A question to the store.
#[derive(Clone, Copy, Debug, PartialEq, Eq, Structural)]
pub enum StoreQuery {
    /// How many views were ever stored?
    CountAll,
    /// How many views are strictly later than this instant?
    CountSince(Timestamp),
    /// Which are the most recent views, up to this many, latest first?
    Recent(usize),
}

/// What came back from the store.
#[derive(Clone, Debug, PartialEq, Eq)]
pub enum StoreAnswer {
    Count(i64),
    Rows(Vec<RecentRow>),
    /// The store could not answer.
    Failed,
}

/// Mathematical content of a [`StoreAnswer`].
pub enum AnswerModel {
    Count(i64),
    Rows(Seq<RowModel>),
    Failed,
}

impl View for StoreAnswer {
    type V = AnswerModel;

    open spec fn view(&self) -> AnswerModel {
        match self {
            StoreAnswer::Count(n) => AnswerModel::Count(*n),
            StoreAnswer::Rows(list) => AnswerModel::Rows(rows(list@)),
            StoreAnswer::Failed => AnswerModel::Failed,
        }
    }
}

/// A summary in the making: what has been gathered, and what is still to be
/// asked once the pending question is answered.
#[derive(Clone, Copy, Debug, PartialEq, Eq, Structural)]
pub enum Progress {
    /// The total is being asked for.
    NeedTotal { day_start: Timestamp, week_start: Timestamp },
    /// The views of the last 24 hours are being asked for.
    NeedToday { week_start: Timestamp, total: i64 },
    /// The views of the last 7 days are being asked for.
    NeedWeek { total: i64, today: i64 },
    /// The most recent views are being asked for.
    NeedRecent { total: i64, today: i64, week: i64 },
}

/// What to do next.
#[derive(Debug, PartialEq, Eq)]
pub enum Step {
    /// Put this question to the store and come back with its answer.
    Ask(Progress, StoreQuery),
    /// Answer the request: with the summary, or with the failure alone.
    Done(Result<Stats, Failure>),
}

/// Mathematical content of a [`Step`].
pub enum StepModel {
    Ask(Progress, StoreQuery),
    Done(Result<StatsModel, Failure>),
}

impl View for Step {
    type V = StepModel;

    open spec fn view(&self) -> StepModel {
        match self {
            Step::Ask(progress, query) => StepModel::Ask(*progress, *query),
            Step::Done(Ok(stats)) => StepModel::Done(Ok(stats@)),
            Step::Done(Err(failure)) => StepModel::Done(Err(*failure)),
        }
    }
}

/// The instant at which the window of `days` days before `now` begins.
pub open spec fn window_start(now: int, days: int) -> Timestamp {
    Timestamp { unix_nanos: days_before(now, days) as i128 }
}

/// How a summary asked for at `now` starts: both windows are fixed, and the
/// total is asked for.
pub open spec fn opening(now: int) -> (Progress, StoreQuery) {
    (
        Progress::NeedTotal {
            day_start: window_start(now, DAY_WINDOW_DAYS as int),
            week_start: window_start(now, WEEK_WINDOW_DAYS as int),
        },
        StoreQuery::CountAll,
    )
}

/// What follows from `answer` where the summary stands at `progress`.
pub open spec fn advanced(progress: Progress, answer: AnswerModel) -> StepModel {
    match (progress, answer) {
        (Progress::NeedTotal { day_start, week_start }, AnswerModel::Count(total)) => StepModel::Ask(
            Progress::NeedToday { week_start, total },
            StoreQuery::CountSince(day_start),
        ),
        (Progress::NeedToday { week_start, total }, AnswerModel::Count(today)) => StepModel::Ask(
            Progress::NeedWeek { total, today },
            StoreQuery::CountSince(week_start),
        ),
        (Progress::NeedWeek { total, today }, AnswerModel::Count(week)) => StepModel::Ask(
            Progress::NeedRecent { total, today, week },
            StoreQuery::Recent(RECENT_LIMIT),
        ),
        (Progress::NeedRecent { total, today, week }, AnswerModel::Rows(list)) => StepModel::Done(
            Ok(
                StatsModel {
                    total_views: total as int,
                    views_today: today as int,
                    views_this_week: week as int,
                    recent_views: reduced_all(list),
                },
            ),
        ),
        _ => StepModel::Done(Err(Failure::StoreReadFailed)),
    }
}

/// Questions still to be answered, the pending one included.
pub open spec fn questions_left(progress: Progress) -> nat {
    match progress {
        Progress::NeedTotal { .. } => 4,
        Progress::NeedToday { .. } => 3,
        Progress::NeedWeek { .. } => 2,
        Progress::NeedRecent { .. } => 1,
    }
}

/// Starts a summary asked for at `now`: fixes the two windows and names the
/// first question.
pub fn begin(now: Timestamp) -> (start: (Progress, StoreQuery))
    requires
        has_windows(now@),
    ensures
        start == opening(now@),
{
    let day_start = now.days_earlier(DAY_WINDOW_DAYS);
    let week_start = now.days_earlier(WEEK_WINDOW_DAYS);
    match (day_start, week_start) {
        (Some(day_start), Some(week_start)) => (
            Progress::NeedTotal { day_start, week_start },
            StoreQuery::CountAll,
        ),
        _ => {
            assert(false);
            (Progress::NeedTotal { day_start: now, week_start: now }, StoreQuery::CountAll)
        },
    }
}

/// Takes the store's answer to the pending question and says what to do
/// next.
pub fn advance(progress: Progress, answer: StoreAnswer) -> (step: Step)
    ensures
        step@ == advanced(progress, answer@),
        step matches Step::Ask(next, _) ==> questions_left(next) < questions_left(progress),
{
    match (progress, answer) {
        (Progress::NeedTotal { day_start, week_start }, StoreAnswer::Count(total)) => Step::Ask(
            Progress::NeedToday { week_start, total },
            StoreQuery::CountSince(day_start),
        ),
        (Progress::NeedToday { week_start, total }, StoreAnswer::Count(today)) => Step::Ask(
            Progress::NeedWeek { total, today },
            StoreQuery::CountSince(week_start),
        ),
        (Progress::NeedWeek { total, today }, StoreAnswer::Count(week)) => Step::Ask(
            Progress::NeedRecent { total, today, week },
            StoreQuery::Recent(RECENT_LIMIT),
        ),
        (Progress::NeedRecent { total, today, week }, StoreAnswer::Rows(list)) => Step::Done(
            Ok(
                Stats {
                    total_views: total,
                    views_today: today,
                    views_this_week: week,
                    recent_views: reduce_all(&list),
                },
            ),
        ),
        _ => Step::Done(Err(Failure::StoreReadFailed)),
    }
}

} // verus!
