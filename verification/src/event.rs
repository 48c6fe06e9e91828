//! What is recorded for a view, and what the summary shows of it.

use vstd::prelude::*;
use crate::instant::Timestamp;

verus! {

/// A view that has been accepted and is about to be stored.
#[derive(Clone, Debug, PartialEq, Eq)]
pub struct NewView {
    /// Network address of the caller, or `unknown`.
    pub ip_address: String,
    /// The user agent as the caller sent it.
    pub user_agent: String,
    /// The identifier read from the user agent.
    pub camo_id: String,
    /// When the fetch was accepted, by this server's clock.
    pub timestamp: Timestamp,
}

/// One stored view. Stored views are never changed or removed.
#[derive(Clone, Debug, PartialEq, Eq)]
pub struct ViewEvent {
    /// Assigned by the store, in the order of insertion, starting at 1.
    pub id: i64,
    pub ip_address: String,
    pub user_agent: String,
    pub camo_id: String,
    pub timestamp: Timestamp,
}

/// What a store hands back for one of its most recent views. A store may
/// hold no value for the identifier or the user agent.
#[derive(Clone, Debug, PartialEq, Eq)]
pub struct RecentRow {
    pub timestamp: Timestamp,
    pub camo_id: Option<String>,
    pub user_agent: Option<String>,
}

/// One entry of the summary's list of recent views.
#[derive(Clone, Debug, PartialEq, Eq)]
pub struct ViewLog {
    pub timestamp: Timestamp,
    pub camo_id: String,
    pub user_agent: String,
}

/// The summary of the recorded views.
#[derive(Clone, Debug, PartialEq, Eq)]
pub struct Stats {
    /// Views ever stored.
    pub total_views: i64,
    /// Views later than 24 hours before the summary was asked for.
    pub views_today: i64,
    /// Views later than 7 days before the summary was asked for.
    pub views_this_week: i64,
    /// The most recent views, latest first.
    pub recent_views: Vec<ViewLog>,
}

/// Mathematical content of a [`NewView`].
pub struct NewViewModel {
    pub ip_address: Seq<char>,
    pub user_agent: Seq<char>,
    pub camo_id: Seq<char>,
    pub timestamp: int,
}

/// Mathematical content of a [`ViewEvent`].
pub struct EventModel {
    pub id: int,
    pub ip_address: Seq<char>,
    pub user_agent: Seq<char>,
    pub camo_id: Seq<char>,
    pub timestamp: int,
}

/// Mathematical content of a [`RecentRow`].
pub struct RowModel {
    pub timestamp: int,
    pub camo_id: Option<Seq<char>>,
    pub user_agent: Option<Seq<char>>,
}

/// Mathematical content of a [`ViewLog`].
pub struct ViewLogModel {
    pub timestamp: int,
    pub camo_id: Seq<char>,
    pub user_agent: Seq<char>,
}

/// Mathematical content of a [`Stats`].
pub struct StatsModel {
    pub total_views: int,
    pub views_today: int,
    pub views_this_week: int,
    pub recent_views: Seq<ViewLogModel>,
}

/// The text of an optional string.
pub open spec fn text_of(value: Option<String>) -> Option<Seq<char>> {
    match value {
        Some(s) => Some(s@),
        None => None,
    }
}

impl View for NewView {
    type V = NewViewModel;

    open spec fn view(&self) -> NewViewModel {
        NewViewModel {
            ip_address: self.ip_address@,
            user_agent: self.user_agent@,
            camo_id: self.camo_id@,
            timestamp: self.timestamp@,
        }
    }
}

impl View for ViewEvent {
    type V = EventModel;

    open spec fn view(&self) -> EventModel {
        EventModel {
            id: self.id as int,
            ip_address: self.ip_address@,
            user_agent: self.user_agent@,
            camo_id: self.camo_id@,
            timestamp: self.timestamp@,
        }
    }
}

impl View for RecentRow {
    type V = RowModel;

    open spec fn view(&self) -> RowModel {
        RowModel {
            timestamp: self.timestamp@,
            camo_id: text_of(self.camo_id),
            user_agent: text_of(self.user_agent),
        }
    }
}

impl View for ViewLog {
    type V = ViewLogModel;

    open spec fn view(&self) -> ViewLogModel {
        ViewLogModel {
            timestamp: self.timestamp@,
            camo_id: self.camo_id@,
            user_agent: self.user_agent@,
        }
    }
}

impl View for Stats {
    type V = StatsModel;

    open spec fn view(&self) -> StatsModel {
        StatsModel {
            total_views: self.total_views as int,
            views_today: self.views_today as int,
            views_this_week: self.views_this_week as int,
            recent_views: view_logs(self.recent_views@),
        }
    }
}

/// The contents of a list of recent rows.
pub open spec fn rows(list: Seq<RecentRow>) -> Seq<RowModel> {
    Seq::new(list.len(), |i: int| list[i]@)
}

/// The contents of a list of summary entries.
pub open spec fn view_logs(list: Seq<ViewLog>) -> Seq<ViewLogModel> {
    Seq::new(list.len(), |i: int| list[i]@)
}

/// The stored event that a new view becomes under `id`.
pub open spec fn stored_as(view: NewViewModel, id: int) -> EventModel {
    EventModel {
        id,
        ip_address: view.ip_address,
        user_agent: view.user_agent,
        camo_id: view.camo_id,
        timestamp: view.timestamp,
    }
}

/// What a store hands back of a stored event among its most recent.
pub open spec fn row_of(event: EventModel) -> RowModel {
    RowModel {
        timestamp: event.timestamp,
        camo_id: Some(event.camo_id),
        user_agent: Some(event.user_agent),
    }
}

/// `value`, or the empty text where there is none.
pub open spec fn or_empty(value: Option<Seq<char>>) -> Seq<char> {
    match value {
        Some(text) => text,
        None => Seq::empty(),
    }
}

/// The summary entry that a row is reduced to: a missing identifier or user
/// agent becomes the empty text.
pub open spec fn reduced(row: RowModel) -> ViewLogModel {
    ViewLogModel {
        timestamp: row.timestamp,
        camo_id: or_empty(row.camo_id),
        user_agent: or_empty(row.user_agent),
    }
}

impl NewView {
    /// The event that this view is stored as under `id`.
    pub fn into_event(self, id: i64) -> (event: ViewEvent)
        ensures
            event@ == stored_as(self@, id as int),
    {
        ViewEvent {
            id,
            ip_address: self.ip_address,
            user_agent: self.user_agent,
            camo_id: self.camo_id,
            timestamp: self.timestamp,
        }
    }
}

impl ViewEvent {
    /// What the list of most recent views shows of this event.
    pub fn to_row(&self) -> (row: RecentRow)
        ensures
            row@ == row_of(self@),
    {
        RecentRow {
            timestamp: self.timestamp,
            camo_id: Some(self.camo_id.clone()),
            user_agent: Some(self.user_agent.clone()),
        }
    }
}

impl RecentRow {
    /// Reduces the row to a summary entry.
    pub fn reduce(&self) -> (entry: ViewLog)
        ensures
            entry@ == reduced(self@),
    {
        let camo_id = match &self.camo_id {
            Some(text) => text.clone(),
            None => String::new(),
        };
        let user_agent = match &self.user_agent {
            Some(text) => text.clone(),
            None => String::new(),
        };
        ViewLog { timestamp: self.timestamp, camo_id, user_agent }
    }
}

/// The summary entries that a list of rows is reduced to, in the same order.
pub open spec fn reduced_all(list: Seq<RowModel>) -> Seq<ViewLogModel> {
    Seq::new(list.len(), |i: int| reduced(list[i]))
}

/// Reduces each row to a summary entry, keeping the order.
pub fn reduce_all(list: &Vec<RecentRow>) -> (entries: Vec<ViewLog>)
    ensures
        view_logs(entries@) == reduced_all(rows(list@)),
{
    let mut entries: Vec<ViewLog> = Vec::new();
    let mut i: usize = 0;
    while i < list.len()
        invariant
            i <= list.len(),
            entries@.len() == i,
            forall|k: int| 0 <= k < i ==> (#[trigger] entries@[k])@ == reduced(list@[k]@),
        decreases list.len() - i,
    {
        entries.push(list[i].reduce());
        i += 1;
    }
    assert(view_logs(entries@) =~= reduced_all(rows(list@)));
    entries
}

} // verus!
