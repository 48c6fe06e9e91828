//! The two handlers, run against the store that keeps its log in memory.

use vstd::prelude::*;
use crate::beacon::{conclude, is_accepted, outcome_of, recorded, screen, text_of_str};
use crate::event::{EventModel, RowModel, Stats, StatsModel, reduced_all};
use crate::instant::{DAY_WINDOW_DAYS, Timestamp, WEEK_WINDOW_DAYS, days_before, has_windows};
use crate::reply::{Failure, Reply, reply_for};
use crate::stats::{Progress, RECENT_LIMIT, Step, StoreQuery, advance, begin, opening, questions_left, window_start};
use crate::store::{ViewStore, appended, count_all, count_since, is_recent};

verus! {

/// The log has an identifier left for another view.
pub open spec fn has_room(log: Seq<EventModel>) -> bool {
    log.len() < i64::MAX
}

/// The log after a fetch at `now`: one view longer where the fetch is
/// accepted and the log has room, unchanged otherwise.
pub open spec fn log_after_fetch(
    log: Seq<EventModel>,
    user_agent: Option<Seq<char>>,
    remote_addr: Option<Seq<char>>,
    now: int,
) -> Seq<EventModel> {
    if is_accepted(user_agent) && has_room(log) {
        appended(log, recorded(user_agent, remote_addr, now))
    } else {
        log
    }
}

/// `stats` is a summary of `log` asked for at `now`.
pub open spec fn is_summary(log: Seq<EventModel>, now: int, stats: StatsModel) -> bool {
    &&& stats.total_views == count_all(log)
    &&& stats.views_today == count_since(log, days_before(now, DAY_WINDOW_DAYS as int))
    &&& stats.views_this_week == count_since(log, days_before(now, WEEK_WINDOW_DAYS as int))
    &&& exists|list: Seq<RowModel>|
        #[trigger] is_recent(log, RECENT_LIMIT as int, list) && stats.recent_views == reduced_all(
            list,
        )
}

/// What has been gathered of a summary of `log` asked for at `now` is true
/// of the log, and the pending question is the one that is due.
pub open spec fn on_track(log: Seq<EventModel>, now: int, progress: Progress, query: StoreQuery) -> bool {
    match progress {
        Progress::NeedTotal { .. } => (progress, query) == opening(now),
        Progress::NeedToday { week_start, total } => {
            &&& total == count_all(log)
            &&& week_start == window_start(now, WEEK_WINDOW_DAYS as int)
            &&& query == StoreQuery::CountSince(window_start(now, DAY_WINDOW_DAYS as int))
        },
        Progress::NeedWeek { total, today } => {
            &&& total == count_all(log)
            &&& today == count_since(log, days_before(now, DAY_WINDOW_DAYS as int))
            &&& query == StoreQuery::CountSince(window_start(now, WEEK_WINDOW_DAYS as int))
        },
        Progress::NeedRecent { total, today, week } => {
            &&& total == count_all(log)
            &&& today == count_since(log, days_before(now, DAY_WINDOW_DAYS as int))
            &&& week == count_since(log, days_before(now, WEEK_WINDOW_DAYS as int))
            &&& query == StoreQuery::Recent(RECENT_LIMIT)
        },
    }
}

/// Serves a beacon fetch that arrived at `now`. A fetch whose user agent
/// does not carry the marker is turned away and nothing is written; an
/// accepted fetch is stored as one view and answered with the image, or
/// answered with `StoreWriteFailed` where the store could not take it.
pub fn pixel(
    store: &mut ViewStore,
    user_agent: Option<&str>,
    remote_addr: Option<&str>,
    now: Timestamp,
) -> (reply: Reply)
    requires
        old(store).wf(),
    ensures
        final(store).wf(),
        final(store)@ == log_after_fetch(
            old(store)@,
            text_of_str(user_agent),
            text_of_str(remote_addr),
            now@,
        ),
        reply@ == reply_for(outcome_of(is_accepted(text_of_str(user_agent)), has_room(old(store)@))),
{
    match screen(user_agent, remote_addr, now) {
        Err(failure) => Reply::failure(failure),
        Ok(view) => {
            let stored = store.insert(view).is_ok();
            Reply::for_outcome(conclude(stored))
        },
    }
}

/// Summarises the stored views as of `now`.
pub fn get_stats(store: &ViewStore, now: Timestamp) -> (summary: Result<Stats, Failure>)
    requires
        store.wf(),
        has_windows(now@),
    ensures
        summary matches Ok(stats) && is_summary(store@, now@, stats@),
{
    let (mut progress, mut query) = begin(now);
    loop
        invariant
            store.wf(),
            has_windows(now@),
            on_track(store@, now@, progress, query),
        decreases questions_left(progress),
    {
        let answer = store.answer(query);
        match advance(progress, answer) {
            Step::Ask(next, due) => {
                progress = next;
                query = due;
            },
            Step::Done(summary) => {
                return summary;
            },
        }
    }
}

} // verus!
