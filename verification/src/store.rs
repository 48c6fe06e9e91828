//! The view store: an append-only log of views, and the questions that the
//! summary asks of it.
//!
//! What a true answer to each question is, is said here over the log as a
//! sequence of events. [`ViewStore`] keeps the log in memory and answers by
//! these definitions. They settle one thing that an ordering by timestamp
//! alone leaves open: of two equally late views, the one inserted later
//! counts as the more recent.

use vstd::prelude::*;
use crate::event::{EventModel, NewView, NewViewModel, RecentRow, RowModel, ViewEvent, row_of, rows, stored_as};
use crate::instant::Timestamp;
use crate::stats::{AnswerModel, StoreAnswer, StoreQuery};

verus! {

/// The log is one that a store can have built: its events carry the
/// identifiers 1, 2, 3, ... in the order of insertion.
pub open spec fn is_log(log: Seq<EventModel>) -> bool {
    forall|i: int| 0 <= i < log.len() ==> (#[trigger] log[i]).id == i + 1
}

/// The log after `view` has been appended to it.
pub open spec fn appended(log: Seq<EventModel>, view: NewViewModel) -> Seq<EventModel> {
    log.push(stored_as(view, log.len() as int + 1))
}

/// Number of views ever stored.
pub open spec fn count_all(log: Seq<EventModel>) -> int {
    log.len() as int
}

/// Number of views strictly later than `cutoff`.
pub open spec fn count_since(log: Seq<EventModel>, cutoff: int) -> int {
    log.filter(|event: EventModel| event.timestamp > cutoff).len() as int
}

/// `a` stands before `b` in a list of most recent views: it is the later of
/// the two or, where they are equally late, the one inserted later.
pub open spec fn newer(a: EventModel, b: EventModel) -> bool {
    a.timestamp > b.timestamp || (a.timestamp == b.timestamp && a.id > b.id)
}

/// `picks` lists the positions in `log` of the `limit` most recent among its
/// first `upto` events, the most recent first: it holds `limit` positions,
/// or all of them where there are fewer; each stands before those behind it;
/// and whatever is more recent than a listed event is listed before it.
pub open spec fn selects_recent(log: Seq<EventModel>, upto: int, limit: int, picks: Seq<int>) -> bool {
    &&& picks.len() == if upto <= limit { upto } else { limit }
    &&& forall|j: int| 0 <= j < picks.len() ==> 0 <= #[trigger] picks[j] < upto
    &&& forall|j: int, k: int|
        0 <= j < k < picks.len() ==> newer(log[#[trigger] picks[j]], log[#[trigger] picks[k]])
    &&& forall|i: int, j: int|
        0 <= i < upto && 0 <= j < picks.len() && #[trigger] newer(log[i], log[picks[j]])
            ==> picks.take(j).contains(i)
    &&& picks.len() < limit ==> forall|i: int| 0 <= i < upto ==> #[trigger] picks.contains(i)
}

/// `out` is what a store hands back when asked for the `limit` most recent
/// views of `log`.
pub open spec fn is_recent(log: Seq<EventModel>, limit: int, out: Seq<RowModel>) -> bool {
    exists|picks: Seq<int>|
        #[trigger] selects_recent(log, log.len() as int, limit, picks) && out == Seq::new(
            picks.len(),
            |j: int| row_of(log[picks[j]]),
        )
}

/// `answer` is a true answer to `query` about `log`.
pub open spec fn answers(log: Seq<EventModel>, query: StoreQuery, answer: AnswerModel) -> bool {
    match query {
        StoreQuery::CountAll => answer matches AnswerModel::Count(n) && n == count_all(log),
        StoreQuery::CountSince(cutoff) => answer matches AnswerModel::Count(n) && n == count_since(
            log,
            cutoff@,
        ),
        StoreQuery::Recent(limit) => answer matches AnswerModel::Rows(list) && is_recent(
            log,
            limit as int,
            list,
        ),
    }
}

/// The positions held in a list of indices.
pub open spec fn positions(picks: Seq<usize>) -> Seq<int> {
    Seq::new(picks.len(), |j: int| picks[j] as int)
}

/// The selection after the event at position `upto` has been considered for
/// place `at`.
pub open spec fn with_candidate(picks: Seq<int>, at: int, upto: int, limit: int) -> Seq<int> {
    if at >= limit {
        picks
    } else if picks.len() < limit {
        picks.insert(at, upto)
    } else {
        picks.insert(at, upto).drop_last()
    }
}

/// A selection among the first `upto` events becomes one among the first
/// `upto + 1` when the next event takes the place that its age gives it.
proof fn lemma_select_next(log: Seq<EventModel>, upto: int, limit: int, picks: Seq<int>, at: int)
    requires
        is_log(log),
        0 <= upto < log.len(),
        0 <= limit,
        selects_recent(log, upto, limit, picks),
        0 <= at <= picks.len(),
        forall|j: int| 0 <= j < at ==> newer(log[#[trigger] picks[j]], log[upto]),
        at < picks.len() ==> newer(log[upto], log[picks[at]]),
    ensures
        selects_recent(log, upto + 1, limit, with_candidate(picks, at, upto, limit)),
{
    let next = with_candidate(picks, at, upto, limit);
    if at >= limit {
        assert forall|i: int, j: int|
            0 <= i < upto + 1 && 0 <= j < next.len() && #[trigger] newer(
                log[i],
                log[next[j]],
            ) implies next.take(j).contains(i) by {
            if i == upto {
                assert(newer(log[picks[j]], log[upto]));
            }
        }
    } else {
        let grown = picks.insert(at, upto);
        assert(forall|j: int| 0 <= j < at ==> grown[j] == picks[j]);
        assert(grown[at] == upto);
        assert(forall|j: int| at < j < grown.len() ==> grown[j] == picks[j - 1]);
        assert(forall|j: int| 0 <= j < next.len() ==> next[j] == grown[j]);
        assert forall|j: int, k: int| 0 <= j < k < next.len() implies newer(
            log[#[trigger] next[j]],
            log[#[trigger] next[k]],
        ) by {
            if k < at {
                assert(newer(log[picks[j]], log[picks[k]]));
            } else if k == at {
                assert(newer(log[picks[j]], log[upto]));
            } else if j < at {
                assert(newer(log[picks[j]], log[picks[k - 1]]));
            } else if j == at {
                if k - 1 > at {
                    assert(newer(log[picks[at]], log[picks[k - 1]]));
                }
            } else {
                assert(newer(log[picks[j - 1]], log[picks[k - 1]]));
            }
        }
        assert forall|i: int, j: int|
            0 <= i < upto + 1 && 0 <= j < next.len() && #[trigger] newer(
                log[i],
                log[next[j]],
            ) implies next.take(j).contains(i) by {
            if i == upto {
                if j < at {
                    assert(newer(log[picks[j]], log[upto]));
                } else if j > at {
                    assert(next.take(j)[at] == i);
                }
            } else if j < at {
                assert(newer(log[i], log[picks[j]]));
                let k = lemma_place(picks.take(j), i);
                assert(next.take(j)[k] == i);
            } else if j == at {
                if at < picks.len() {
                    assert(newer(log[i], log[picks[at]]));
                    let k = lemma_place(picks.take(at), i);
                    assert(next.take(j)[k] == i);
                } else {
                    let k = lemma_place(picks, i);
                    assert(next.take(j)[k] == i);
                }
            } else {
                assert(newer(log[i], log[picks[j - 1]]));
                let k = lemma_place(picks.take(j - 1), i);
                if k < at {
                    assert(next.take(j)[k] == i);
                } else {
                    assert(next.take(j)[k + 1] == i);
                }
            }
        }
        if next.len() < limit {
            assert forall|i: int| 0 <= i < upto + 1 implies #[trigger] next.contains(i) by {
                if i == upto {
                    assert(next[at] == i);
                } else {
                    let k = lemma_place(picks, i);
                    if k < at {
                        assert(next[k] == i);
                    } else {
                        assert(next[k + 1] == i);
                    }
                }
            }
        }
    }
}

/// A place at which a listed position stands.
proof fn lemma_place(picks: Seq<int>, i: int) -> (k: int)
    requires
        picks.contains(i),
    ensures
        0 <= k < picks.len(),
        picks[k] == i,
{
    choose|k: int| 0 <= k < picks.len() && picks[k] == i
}

/// The store cannot take another view: the next identifier would not fit.
#[derive(Clone, Copy, Debug, PartialEq, Eq)]
pub struct StoreFull;

/// A store that keeps its log in memory.
pub struct ViewStore {
    events: Vec<ViewEvent>,
}

/// The contents of a list of stored events.
pub open spec fn contents(events: Seq<ViewEvent>) -> Seq<EventModel> {
    Seq::new(events.len(), |i: int| events[i]@)
}

impl View for ViewStore {
    type V = Seq<EventModel>;

    closed spec fn view(&self) -> Seq<EventModel> {
        contents(self.events@)
    }
}

impl ViewStore {
    /// The store holds a log that its own insertions have built.
    pub open spec fn wf(&self) -> bool {
        is_log(self@)
    }

    proof fn lemma_fits(&self)
        requires
            self.wf(),
        ensures
            self@.len() == self.events@.len(),
            self@.len() <= i64::MAX,
    {
        if self@.len() > 0 {
            let last = self@.len() - 1;
            assert(self@[last].id == last + 1);
            assert(self@[last] == self.events@[last]@);
        }
    }

    /// A store with an empty log.
    pub fn new() -> (store: ViewStore)
        ensures
            store.wf(),
            store@ == Seq::<EventModel>::empty(),
    {
        let store = ViewStore { events: Vec::new() };
        assert(store@ =~= Seq::<EventModel>::empty());
        store
    }

    /// The stored events, in the order of insertion.
    pub fn events(&self) -> (all: &Vec<ViewEvent>)
        ensures
            contents(all@) == self@,
    {
        &self.events
    }

    /// Appends a view and returns the identifier it was stored under. Fails,
    /// leaving the log as it was, only where the log already holds as many
    /// views as there are identifiers.
    pub fn insert(&mut self, view: NewView) -> (stored: Result<i64, StoreFull>)
        requires
            old(self).wf(),
        ensures
            final(self).wf(),
            stored is Ok <==> old(self)@.len() < i64::MAX,
            stored matches Ok(id) ==> id == old(self)@.len() + 1 && final(self)@ == appended(
                old(self)@,
                view@,
            ),
            stored is Err ==> final(self)@ == old(self)@,
    {
        proof {
            self.lemma_fits();
        }
        let held: u64 = self.events.len() as u64;
        if held >= i64::MAX as u64 {
            return Err(StoreFull);
        }
        let id: i64 = (held + 1) as i64;
        let ghost before = self@;
        let ghost added = view@;
        self.events.push(view.into_event(id));
        assert(self@ =~= appended(before, added));
        Ok(id)
    }

    /// Counts the views ever stored.
    pub fn count_all(&self) -> (n: i64)
        requires
            self.wf(),
        ensures
            n == count_all(self@),
    {
        proof {
            self.lemma_fits();
        }
        self.events.len() as i64
    }

    /// Counts the views strictly later than `cutoff`.
    pub fn count_since(&self, cutoff: Timestamp) -> (n: i64)
        requires
            self.wf(),
        ensures
            n == count_since(self@, cutoff@),
    {
        proof {
            self.lemma_fits();
        }
        let ghost later = |event: EventModel| event.timestamp > cutoff@;
        let mut n: i64 = 0;
        let mut i: usize = 0;
        proof {
            reveal(Seq::filter);
            assert(self@.take(0) =~= Seq::<EventModel>::empty());
        }
        while i < self.events.len()
            invariant
                i <= self.events.len(),
                self@.len() == self.events.len(),
                self@.len() <= i64::MAX,
                later == |event: EventModel| event.timestamp > cutoff@,
                n == self@.take(i as int).filter(later).len(),
                n <= i,
            decreases self.events.len() - i,
        {
            proof {
                let seen = self@.take(i as int);
                assert(self@.take(i + 1) =~= seen.push(self@[i as int]));
                seen.lemma_filter_push(self@[i as int], later);
                assert(self@[i as int] == self.events@[i as int]@);
            }
            if self.events[i].timestamp.is_after(&cutoff) {
                n += 1;
            }
            i += 1;
        }
        assert(self@.take(i as int) =~= self@);
        n
    }

    /// Decides whether the event at position `i` stands before the one at
    /// position `j` in a list of most recent views.
    fn is_newer(&self, i: usize, j: usize) -> (before: bool)
        requires
            i < self@.len(),
            j < self@.len(),
        ensures
            before == newer(self@[i as int], self@[j as int]),
    {
        assert(self@[i as int] == self.events@[i as int]@);
        assert(self@[j as int] == self.events@[j as int]@);
        let a = &self.events[i];
        let b = &self.events[j];
        a.timestamp.is_after(&b.timestamp) || (a.timestamp.unix_nanos() == b.timestamp.unix_nanos()
            && a.id > b.id)
    }

    /// The positions of the `limit` most recent views, the most recent first.
    fn recent_positions(&self, limit: usize) -> (picks: Vec<usize>)
        requires
            self.wf(),
        ensures
            selects_recent(self@, self@.len() as int, limit as int, positions(picks@)),
    {
        let n: usize = self.events.len();
        let mut picks: Vec<usize> = Vec::new();
        let mut upto: usize = 0;
        while upto < n
            invariant
                self.wf(),
                n == self.events.len(),
                n == self@.len(),
                upto <= n,
                selects_recent(self@, upto as int, limit as int, positions(picks@)),
            decreases n - upto,
        {
            let ghost before = positions(picks@);
            assert forall|j: int| 0 <= j < picks.len() implies #[trigger] picks@[j] < upto by {
                assert(before[j] == picks@[j]);
            }
            let mut at: usize = 0;
            while at < picks.len() && self.is_newer(picks[at], upto)
                invariant
                    n == self@.len(),
                    upto < n,
                    at <= picks.len(),
                    forall|j: int| 0 <= j < picks.len() ==> #[trigger] picks@[j] < upto,
                    forall|j: int|
                        0 <= j < at ==> newer(
                            self@[#[trigger] picks@[j] as int],
                            self@[upto as int],
                        ),
                decreases picks.len() - at,
            {
                at += 1;
            }
            proof {
                assert forall|j: int| 0 <= j < at implies newer(
                    self@[#[trigger] before[j]],
                    self@[upto as int],
                ) by {
                    assert(before[j] == picks@[j]);
                }
                if at < picks.len() {
                    assert(before[at as int] == picks@[at as int]);
                    assert(self@[before[at as int]].id != self@[upto as int].id);
                }
                lemma_select_next(self@, upto as int, limit as int, before, at as int);
            }
            if at < limit {
                picks.insert(at, upto);
                if picks.len() > limit {
                    picks.pop();
                }
            }
            assert(positions(picks@) =~= with_candidate(before, at as int, upto as int, limit as int));
            upto += 1;
        }
        picks
    }

    /// The `limit` most recent views, the most recent first; of two equally
    /// late views, the one inserted later comes first.
    pub fn recent(&self, limit: usize) -> (out: Vec<RecentRow>)
        requires
            self.wf(),
        ensures
            is_recent(self@, limit as int, rows(out@)),
    {
        let picks = self.recent_positions(limit);
        proof {
            self.lemma_fits();
            assert forall|k: int| 0 <= k < picks.len() implies 0 <= #[trigger] picks@[k]
                < self@.len() by {
                assert(positions(picks@)[k] == picks@[k]);
            }
        }
        let mut out: Vec<RecentRow> = Vec::new();
        let mut j: usize = 0;
        while j < picks.len()
            invariant
                j <= picks.len(),
                out@.len() == j,
                self@.len() == self.events@.len(),
                forall|k: int| 0 <= k < picks.len() ==> 0 <= #[trigger] picks@[k] < self@.len(),
                forall|k: int| 0 <= k < j ==> (#[trigger] out@[k])@ == row_of(self@[picks@[k] as int]),
            decreases picks.len() - j,
        {
            assert(self@[picks@[j as int] as int] == self.events@[picks@[j as int] as int]@);
            out.push(self.events[picks[j]].to_row());
            j += 1;
        }
        proof {
            let chosen = positions(picks@);
            assert(rows(out@) =~= Seq::new(chosen.len(), |j: int| row_of(self@[chosen[j]])));
        }
        out
    }

    /// Answers a question about the log. This store never fails to answer.
    pub fn answer(&self, query: StoreQuery) -> (answer: StoreAnswer)
        requires
            self.wf(),
        ensures
            answers(self@, query, answer@),
    {
        match query {
            StoreQuery::CountAll => StoreAnswer::Count(self.count_all()),
            StoreQuery::CountSince(cutoff) => StoreAnswer::Count(self.count_since(cutoff)),
            StoreQuery::Recent(limit) => StoreAnswer::Rows(self.recent(limit)),
        }
    }
}

} // verus!
