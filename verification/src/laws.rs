//! What holds of the service whatever it is asked: laws over the spec
//! functions that the contracts of the handlers and of the store speak of.

use vstd::prelude::*;
use crate::beacon::{is_accepted, outcome_of, recorded};
use crate::camo::{camo_id_of, carries_marker, fallback_id, id_closing, id_opening, marker, unknown};
use crate::text::{ends_with, occurs_at, starts_with, without_prefix, without_suffix};
use crate::event::{EventModel, NewViewModel, RowModel, StatsModel, reduced_all, row_of, stored_as};
use crate::instant::{DAY_WINDOW_DAYS, WEEK_WINDOW_DAYS, days_before, has_windows};
use crate::reply::{Failure, PIXEL, STATUS_FORBIDDEN, STATUS_OK, failure_reply, image_reply, reply_for};
use crate::service::{has_room, is_summary, log_after_fetch};
use crate::stats::{AnswerModel, Progress, RECENT_LIMIT, StepModel, StoreQuery, advanced, opening};
use crate::store::{answers, appended, count_all, count_since, is_log, is_recent, newer, selects_recent};

verus! {

/// An identifier wrapped as `github-camo (<identifier>)` is accepted and
/// read back as it was written, whatever it holds.
pub proof fn law_wrapped_id_is_read_back(id: Seq<char>)
    ensures
        carries_marker(id_opening() + id + id_closing()),
        camo_id_of(id_opening() + id + id_closing()) == id,
{
    let agent = id_opening() + id + id_closing();
    assert(agent.subrange(0, marker().len() as int) =~= marker());
    assert(occurs_at(agent, marker(), 0));
    assert(agent.subrange(0, id_opening().len() as int) =~= id_opening());
    let rest = without_prefix(agent, id_opening());
    assert(rest =~= id + id_closing());
    assert(rest.subrange(rest.len() - 1, rest.len() as int) =~= id_closing());
    assert(ends_with(rest, id_closing()));
    assert(without_suffix(rest, id_closing()) =~= id);
}

/// A user agent that carries the marker, but not at its start, is accepted
/// and gets the identifier `non-github`.
pub proof fn law_marker_elsewhere_gets_fallback(user_agent: Seq<char>)
    requires
        carries_marker(user_agent),
        !starts_with(user_agent, marker()),
    ensures
        is_accepted(Some(user_agent)),
        camo_id_of(user_agent) == fallback_id(),
{
}

/// A fetch without a user agent is rejected: `unknown`, which stands for
/// the missing header, does not carry the marker.
pub proof fn law_missing_agent_is_rejected()
    ensures
        !is_accepted(None),
{
    assert forall|at: int| !occurs_at(unknown(), marker(), at) by {
        assert(unknown().len() == 7);
        assert(marker().len() == 11);
    }
}

/// A fetch as the beacon handler sees it.
pub struct FetchModel {
    pub user_agent: Option<Seq<char>>,
    pub remote_addr: Option<Seq<char>>,
    pub now: int,
}

/// The log after the store has taken `fetches` one after the other.
pub open spec fn log_after_fetches(log: Seq<EventModel>, fetches: Seq<FetchModel>) -> Seq<EventModel>
    decreases fetches.len(),
{
    if fetches.len() == 0 {
        log
    } else {
        let last = fetches.last();
        log_after_fetch(
            log_after_fetches(log, fetches.drop_last()),
            last.user_agent,
            last.remote_addr,
            last.now,
        )
    }
}

/// A fetch whose user agent does not carry the marker writes nothing and is
/// answered with the status of a rejection, without header or body.
pub proof fn law_rejected_fetch_writes_nothing(
    log: Seq<EventModel>,
    user_agent: Option<Seq<char>>,
    remote_addr: Option<Seq<char>>,
    now: int,
)
    requires
        !is_accepted(user_agent),
    ensures
        log_after_fetch(log, user_agent, remote_addr, now) == log,
        reply_for(outcome_of(is_accepted(user_agent), has_room(log))) == failure_reply(
            Failure::ValidationRejected,
        ),
        failure_reply(Failure::ValidationRejected).status == STATUS_FORBIDDEN,
        failure_reply(Failure::ValidationRejected).body.len() == 0,
{
}

/// An accepted fetch whose view is stored is answered with the image,
/// byte for byte, whatever its user agent, its address and its identifier
/// are; and the log grows by exactly that view.
pub proof fn law_accepted_fetch_gets_the_image(
    log: Seq<EventModel>,
    user_agent: Option<Seq<char>>,
    remote_addr: Option<Seq<char>>,
    now: int,
)
    requires
        is_accepted(user_agent),
        has_room(log),
    ensures
        reply_for(outcome_of(is_accepted(user_agent), has_room(log))) == image_reply(),
        image_reply().status == STATUS_OK,
        image_reply().body == PIXEL@,
        log_after_fetch(log, user_agent, remote_addr, now) == log.push(
            stored_as(recorded(user_agent, remote_addr, now), log.len() as int + 1),
        ),
{
}

/// Appending a view raises the total by one, and raises the count since a
/// cutoff by one exactly where the view is later than the cutoff.
pub proof fn law_append_counts(log: Seq<EventModel>, view: NewViewModel, cutoff: int)
    ensures
        count_all(appended(log, view)) == count_all(log) + 1,
        count_since(appended(log, view), cutoff) == count_since(log, cutoff) + if view.timestamp
            > cutoff {
            1int
        } else {
            0int
        },
        count_since(Seq::<EventModel>::empty(), cutoff) == 0,
{
    let later = |event: EventModel| event.timestamp > cutoff;
    log.lemma_filter_push(stored_as(view, log.len() as int + 1), later);
    reveal(Seq::filter);
    assert(Seq::<EventModel>::empty().filter(later).len() == 0);
}

/// The log only ever grows at its end: whatever the fetch, the views
/// stored before it stay as they were and where they were, and the log
/// stays one whose identifiers follow the order of insertion.
pub proof fn law_fetch_only_appends(
    log: Seq<EventModel>,
    user_agent: Option<Seq<char>>,
    remote_addr: Option<Seq<char>>,
    now: int,
)
    requires
        is_log(log),
    ensures
        log.is_prefix_of(log_after_fetch(log, user_agent, remote_addr, now)),
        log_after_fetch(log, user_agent, remote_addr, now).len() <= log.len() + 1,
        is_log(log_after_fetch(log, user_agent, remote_addr, now)),
        is_log(appended(log, recorded(user_agent, remote_addr, now))),
{
}

/// Of accepted fetches, each adds exactly one view: however many the store
/// takes, and in whatever order it takes them, the total afterwards is the
/// total before plus their number.
pub proof fn law_accepted_fetches_add_up(log: Seq<EventModel>, fetches: Seq<FetchModel>)
    requires
        forall|k: int| 0 <= k < fetches.len() ==> is_accepted((#[trigger] fetches[k]).user_agent),
        log.len() + fetches.len() <= i64::MAX,
    ensures
        count_all(log_after_fetches(log, fetches)) == count_all(log) + fetches.len(),
        log_after_fetches(log, fetches).len() == log.len() + fetches.len(),
        forall|i: int| 0 <= i < log.len() ==> log_after_fetches(log, fetches)[i] == log[i],
        forall|k: int|
            0 <= k < fetches.len() ==> #[trigger] log_after_fetches(log, fetches)[log.len() + k]
                == stored_as(
                recorded(fetches[k].user_agent, fetches[k].remote_addr, fetches[k].now),
                log.len() + k + 1,
            ),
    decreases fetches.len(),
{
    if fetches.len() > 0 {
        let earlier = fetches.drop_last();
        assert forall|k: int| 0 <= k < earlier.len() implies is_accepted(
            (#[trigger] earlier[k]).user_agent,
        ) by {
            assert(earlier[k] == fetches[k]);
        }
        law_accepted_fetches_add_up(log, earlier);
        let before = log_after_fetches(log, earlier);
        let after = log_after_fetches(log, fetches);
        assert(is_accepted(fetches[fetches.len() - 1].user_agent));
        assert forall|k: int| 0 <= k < fetches.len() implies #[trigger] after[log.len() + k]
            == stored_as(
            recorded(fetches[k].user_agent, fetches[k].remote_addr, fetches[k].now),
            log.len() + k + 1,
        ) by {
            if k < earlier.len() {
                assert(earlier[k] == fetches[k]);
                assert(after[log.len() + k] == before[log.len() + k]);
            }
        }
    }
}

/// A list of most recent views holds no more than was asked for, and its
/// timestamps never rise from one entry to the next.
pub proof fn law_recent_is_short_and_descending(log: Seq<EventModel>, limit: int, list: Seq<RowModel>)
    requires
        0 <= limit,
        is_recent(log, limit, list),
    ensures
        list.len() <= limit,
        list.len() <= log.len(),
        forall|j: int, k: int| 0 <= j < k < list.len() ==> list[j].timestamp >= list[k].timestamp,
{
    let picks = choose|picks: Seq<int>|
        #[trigger] selects_recent(log, log.len() as int, limit, picks) && list == Seq::new(
            picks.len(),
            |j: int| row_of(log[picks[j]]),
        );
    assert forall|j: int, k: int| 0 <= j < k < list.len() implies list[j].timestamp
        >= list[k].timestamp by {
        assert(newer(log[picks[j]], log[picks[k]]));
    }
}

/// Where no two stored views share a timestamp, the timestamps of a list of
/// most recent views fall strictly from one entry to the next.
pub proof fn law_recent_is_strictly_descending(log: Seq<EventModel>, limit: int, list: Seq<RowModel>)
    requires
        is_log(log),
        0 <= limit,
        is_recent(log, limit, list),
        forall|a: int, b: int|
            0 <= a < b < log.len() ==> (#[trigger] log[a]).timestamp != (#[trigger] log[b]).timestamp,
    ensures
        forall|j: int, k: int| 0 <= j < k < list.len() ==> list[j].timestamp > list[k].timestamp,
{
    let picks = choose|picks: Seq<int>|
        #[trigger] selects_recent(log, log.len() as int, limit, picks) && list == Seq::new(
            picks.len(),
            |j: int| row_of(log[picks[j]]),
        );
    assert forall|j: int, k: int| 0 <= j < k < list.len() implies list[j].timestamp
        > list[k].timestamp by {
        assert(newer(log[picks[j]], log[picks[k]]));
        let a = picks[j];
        let b = picks[k];
        assert(log[a].id == a + 1);
        assert(log[b].id == b + 1);
        if a < b {
            assert(log[a].timestamp != log[b].timestamp);
        } else if b < a {
            assert(log[b].timestamp != log[a].timestamp);
        }
    }
}

/// Two selections of the most recent views of one log agree on their first
/// `n` places.
proof fn lemma_selections_agree(
    log: Seq<EventModel>,
    limit: int,
    first: Seq<int>,
    second: Seq<int>,
    n: int,
)
    requires
        is_log(log),
        selects_recent(log, log.len() as int, limit, first),
        selects_recent(log, log.len() as int, limit, second),
        0 <= n <= first.len(),
    ensures
        forall|j: int| 0 <= j < n ==> first[j] == second[j],
    decreases n,
{
    if n > 0 {
        lemma_selections_agree(log, limit, first, second, n - 1);
        let j = n - 1;
        let p = first[j];
        let q = second[j];
        if p != q {
            assert(log[p].id == p + 1);
            assert(log[q].id == q + 1);
            if newer(log[p], log[q]) {
                assert(newer(log[p], log[second[j]]));
                let k = choose|k: int|
                    0 <= k < second.take(j).len() && second.take(j)[k] == p;
                assert(second[k] == p);
                assert(first[k] == p);
                assert(newer(log[first[k]], log[first[j]]));
            } else {
                assert(newer(log[q], log[first[j]]));
                let k = choose|k: int| 0 <= k < first.take(j).len() && first.take(j)[k] == q;
                assert(first[k] == q);
                assert(second[k] == q);
                assert(newer(log[second[k]], log[second[j]]));
            }
        }
    }
}

/// A log has one list of its most recent views, and no other: what a store
/// owes when asked for them is fixed by the log and the limit.
pub proof fn law_recent_is_unique(
    log: Seq<EventModel>,
    limit: int,
    first: Seq<RowModel>,
    second: Seq<RowModel>,
)
    requires
        is_log(log),
        is_recent(log, limit, first),
        is_recent(log, limit, second),
    ensures
        first == second,
{
    let a = choose|picks: Seq<int>|
        #[trigger] selects_recent(log, log.len() as int, limit, picks) && first == Seq::new(
            picks.len(),
            |j: int| row_of(log[picks[j]]),
        );
    let b = choose|picks: Seq<int>|
        #[trigger] selects_recent(log, log.len() as int, limit, picks) && second == Seq::new(
            picks.len(),
            |j: int| row_of(log[picks[j]]),
        );
    lemma_selections_agree(log, limit, a, b, a.len() as int);
    assert(a =~= b);
}

/// A summary lists at most ten recent views, and their timestamps never
/// rise from one entry to the next.
pub proof fn law_summary_lists_ten_latest_first(log: Seq<EventModel>, now: int, stats: StatsModel)
    requires
        is_summary(log, now, stats),
    ensures
        stats.recent_views.len() <= 10,
        forall|j: int, k: int|
            0 <= j < k < stats.recent_views.len() ==> stats.recent_views[j].timestamp
                >= stats.recent_views[k].timestamp,
{
    let list = choose|list: Seq<RowModel>|
        #[trigger] is_recent(log, RECENT_LIMIT as int, list) && stats.recent_views == reduced_all(
            list,
        );
    law_recent_is_short_and_descending(log, RECENT_LIMIT as int, list);
}

/// Predicates that agree on every element of a sequence keep the same
/// elements of it.
proof fn lemma_filter_agrees(log: Seq<EventModel>, p: spec_fn(EventModel) -> bool, q: spec_fn(EventModel) -> bool)
    requires
        forall|i: int| 0 <= i < log.len() ==> p(#[trigger] log[i]) == q(log[i]),
    ensures
        log.filter(p) == log.filter(q),
    decreases log.len(),
{
    reveal(Seq::filter);
    if log.len() > 0 {
        let front = log.drop_last();
        assert forall|i: int| 0 <= i < front.len() implies p(#[trigger] front[i]) == q(front[i]) by {
            assert(front[i] == log[i]);
        }
        lemma_filter_agrees(front, p, q);
        assert(p(log[log.len() - 1]) == q(log[log.len() - 1]));
    }
}

/// Counts since two cutoffs are the same where no view lies after the
/// earlier and not after the later of them.
pub proof fn law_count_since_between(log: Seq<EventModel>, first: int, second: int)
    requires
        first <= second,
        forall|i: int|
            0 <= i < log.len() ==> !(first < (#[trigger] log[i]).timestamp <= second),
    ensures
        count_since(log, first) == count_since(log, second),
{
    lemma_filter_agrees(
        log,
        |event: EventModel| event.timestamp > first,
        |event: EventModel| event.timestamp > second,
    );
}

/// Two summaries of one log show the same counts: the same total whenever
/// they were asked for, and the same counts of the day and of the week
/// provided that no view lies between the starts of their windows, as none
/// can where both were asked for at one instant.
pub proof fn law_counts_are_repeatable(
    log: Seq<EventModel>,
    first_now: int,
    second_now: int,
    first: StatsModel,
    second: StatsModel,
)
    requires
        is_summary(log, first_now, first),
        is_summary(log, second_now, second),
        first_now <= second_now,
        forall|i: int|
            0 <= i < log.len() ==> !(days_before(first_now, DAY_WINDOW_DAYS as int) < (
            #[trigger] log[i]).timestamp <= days_before(second_now, DAY_WINDOW_DAYS as int)),
        forall|i: int|
            0 <= i < log.len() ==> !(days_before(first_now, WEEK_WINDOW_DAYS as int) < (
            #[trigger] log[i]).timestamp <= days_before(second_now, WEEK_WINDOW_DAYS as int)),
    ensures
        first.total_views == second.total_views,
        first.views_today == second.views_today,
        first.views_this_week == second.views_this_week,
{
    law_count_since_between(
        log,
        days_before(first_now, DAY_WINDOW_DAYS as int),
        days_before(second_now, DAY_WINDOW_DAYS as int),
    );
    law_count_since_between(
        log,
        days_before(first_now, WEEK_WINDOW_DAYS as int),
        days_before(second_now, WEEK_WINDOW_DAYS as int),
    );
}

/// How a summary that stands at `progress` ends when the store's answers
/// come in as `replies`, one for each question put to it; `None` where the
/// answers run out before the summary is done.
pub open spec fn summary_from(progress: Progress, replies: Seq<AnswerModel>) -> Option<
    Result<StatsModel, Failure>,
>
    decreases replies.len(),
{
    if replies.len() == 0 {
        None
    } else {
        match advanced(progress, replies.first()) {
            StepModel::Done(end) => Some(end),
            StepModel::Ask(next, _) => summary_from(next, replies.drop_first()),
        }
    }
}

/// Each of `replies` is a true answer about `log` to the question that is
/// pending when it comes in, the first of them to `query`.
pub open spec fn all_true(
    log: Seq<EventModel>,
    progress: Progress,
    query: StoreQuery,
    replies: Seq<AnswerModel>,
) -> bool
    decreases replies.len(),
{
    if replies.len() == 0 {
        true
    } else {
        &&& answers(log, query, replies.first())
        &&& match advanced(progress, replies.first()) {
            StepModel::Done(_) => true,
            StepModel::Ask(next, due) => all_true(log, next, due, replies.drop_first()),
        }
    }
}

/// Whatever store is asked: where each of its four answers is true of one
/// log, the summary is done with the fourth, and it is a summary of that
/// log.
pub proof fn law_true_answers_make_the_summary(
    log: Seq<EventModel>,
    now: int,
    replies: Seq<AnswerModel>,
)
    requires
        has_windows(now),
        replies.len() == 4,
        all_true(log, opening(now).0, opening(now).1, replies),
    ensures
        summary_from(opening(now).0, replies) matches Some(Ok(stats)) && is_summary(
            log,
            now,
            stats,
        ),
{
    reveal_with_fuel(summary_from, 5);
    reveal_with_fuel(all_true, 5);
    let r1 = replies.drop_first();
    let r2 = r1.drop_first();
    let r3 = r2.drop_first();
    assert(r3.first() == replies[3]);
    assert(r2.first() == replies[2]);
    assert(r1.first() == replies[1]);
    assert(r3.drop_first().len() == 0);
    let list = replies[3]->Rows_0;
    assert(is_recent(log, RECENT_LIMIT as int, list));
}

/// A summary ends with the first answer that fails or is not of the kind
/// asked for: with `StoreReadFailed`, showing nothing of what was gathered,
/// and whatever answers might have followed.
pub proof fn law_failed_read_ends_the_summary(progress: Progress, replies: Seq<AnswerModel>)
    requires
        replies.len() > 0,
        match (progress, replies.first()) {
            (Progress::NeedRecent { .. }, AnswerModel::Rows(_)) => false,
            (Progress::NeedRecent { .. }, _) => true,
            (_, AnswerModel::Count(_)) => false,
            _ => true,
        },
    ensures
        summary_from(progress, replies) == Some(
            Err::<StatsModel, Failure>(Failure::StoreReadFailed),
        ),
{
}

/// The views of the day are among those of the week, and those among all.
pub proof fn law_windows_nest(log: Seq<EventModel>, now: int, stats: StatsModel)
    requires
        is_summary(log, now, stats),
    ensures
        0 <= stats.views_today <= stats.views_this_week <= stats.total_views,
{
    let day = |event: EventModel| event.timestamp > days_before(now, DAY_WINDOW_DAYS as int);
    let week = |event: EventModel| event.timestamp > days_before(now, WEEK_WINDOW_DAYS as int);
    lemma_filter_within(log, day, week);
    log.lemma_filter_len(week);
}

/// A stricter predicate keeps no more elements.
proof fn lemma_filter_within(log: Seq<EventModel>, p: spec_fn(EventModel) -> bool, q: spec_fn(EventModel) -> bool)
    requires
        forall|i: int| 0 <= i < log.len() ==> (p(#[trigger] log[i]) ==> q(log[i])),
    ensures
        log.filter(p).len() <= log.filter(q).len(),
    decreases log.len(),
{
    reveal(Seq::filter);
    if log.len() > 0 {
        let front = log.drop_last();
        assert forall|i: int| 0 <= i < front.len() implies (p(#[trigger] front[i]) ==> q(
            front[i],
        )) by {
            assert(front[i] == log[i]);
        }
        lemma_filter_within(front, p, q);
        assert(p(log[log.len() - 1]) ==> q(log[log.len() - 1]));
    }
}

} // verus!
