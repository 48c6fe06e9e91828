use pulse::event::{reduce_all, NewView, RecentRow, Stats, ViewLog};
use pulse::instant::{Timestamp, MAX_UNIX_NANOS, MIN_UNIX_NANOS, NANOS_PER_DAY};
use pulse::reply::Failure;
use pulse::service::{get_stats, pixel};
use pulse::stats::{advance, begin, Progress, Step, StoreAnswer, StoreQuery, RECENT_LIMIT};
use pulse::store::{StoreFull, ViewStore};
use time::OffsetDateTime;

const T: i128 = 1_700_000_000_000_000_000;
const HOUR: i128 = 3_600_000_000_000;
const DAY: i128 = 86_400_000_000_000;

fn at(unix_nanos: i128) -> Timestamp {
    Timestamp::from_unix_nanos(unix_nanos)
}

fn view(id: &str, unix_nanos: i128) -> NewView {
    NewView {
        ip_address: "10.0.0.1".to_string(),
        user_agent: format!("github-camo ({})", id),
        camo_id: id.to_string(),
        timestamp: at(unix_nanos),
    }
}

fn store_of(views: &[(&str, i128)]) -> ViewStore {
    let mut store = ViewStore::new();
    for (k, (id, when)) in views.iter().enumerate() {
        assert_eq!(store.insert(view(id, *when)), Ok(k as i64 + 1));
    }
    store
}

#[test]
fn windows_count_day_week_and_total() {
    let store = store_of(&[("a", T - 10 * DAY), ("b", T - 2 * DAY), ("c", T - HOUR)]);
    let stats = get_stats(&store, at(T)).unwrap();
    assert_eq!(stats.views_today, 1);
    assert_eq!(stats.views_this_week, 2);
    assert_eq!(stats.total_views, 3);
    let ids: Vec<&str> = stats.recent_views.iter().map(|v| v.camo_id.as_str()).collect();
    assert_eq!(ids, vec!["c", "b", "a"]);
    assert_eq!(
        stats.recent_views[0],
        ViewLog {
            timestamp: at(T - HOUR),
            camo_id: "c".to_string(),
            user_agent: "github-camo (c)".to_string(),
        }
    );
}

#[test]
fn window_edges_are_exclusive() {
    let store = store_of(&[
        ("week-edge", T - 7 * DAY),
        ("week-in", T - 7 * DAY + 1),
        ("day-edge", T - DAY),
        ("day-in", T - DAY + 1),
        ("now", T),
        ("later", T + HOUR),
    ]);
    let stats = get_stats(&store, at(T)).unwrap();
    assert_eq!(stats.total_views, 6);
    assert_eq!(stats.views_this_week, 5);
    assert_eq!(stats.views_today, 3);
    assert_eq!(store.count_since(at(T - DAY)), 3);
    assert_eq!(store.count_since(at(T - DAY - 1)), 4);
    assert_eq!(store.count_since(at(T + HOUR)), 0);
    assert_eq!(store.count_since(at(i128::MIN)), 6);
    assert_eq!(store.count_since(at(i128::MAX)), 0);
}

#[test]
fn empty_store_has_empty_summary() {
    let store = ViewStore::new();
    let stats = get_stats(&store, at(T)).unwrap();
    assert_eq!(
        stats,
        Stats { total_views: 0, views_today: 0, views_this_week: 0, recent_views: vec![] }
    );
    assert_eq!(store.count_all(), 0);
    assert!(store.recent(10).is_empty());
}

#[test]
fn recent_views_hold_at_most_ten_latest_first() {
    // inserted out of order of time
    let times: Vec<i128> = vec![5, 17, 3, 11, 29, 2, 23, 7, 13, 19, 31, 1, 37];
    let mut store = ViewStore::new();
    for (k, t) in times.iter().enumerate() {
        store.insert(view(&format!("v{}", k), T - *t * HOUR)).unwrap();
    }
    let stats = get_stats(&store, at(T)).unwrap();
    assert_eq!(stats.total_views, 13);
    assert_eq!(stats.recent_views.len(), 10);
    for pair in stats.recent_views.windows(2) {
        assert!(pair[0].timestamp.unix_nanos() > pair[1].timestamp.unix_nanos());
    }
    let hours: Vec<i128> =
        stats.recent_views.iter().map(|v| (T - v.timestamp.unix_nanos()) / HOUR).collect();
    assert_eq!(hours, vec![1, 2, 3, 5, 7, 11, 13, 17, 19, 23]);
    assert_eq!(stats.recent_views[0].camo_id, "v11");
    assert_eq!(stats.recent_views[9].camo_id, "v6");
}

#[test]
fn equally_late_views_list_the_later_insertion_first() {
    let store = store_of(&[("a", T), ("b", T - HOUR), ("c", T), ("d", T - HOUR), ("e", T)]);
    let rows = store.recent(4);
    let ids: Vec<&str> = rows.iter().map(|r| r.camo_id.as_deref().unwrap()).collect();
    assert_eq!(ids, vec!["e", "c", "a", "d"]);
    for pair in rows.windows(2) {
        assert!(pair[0].timestamp.unix_nanos() >= pair[1].timestamp.unix_nanos());
    }
}

#[test]
fn recent_respects_its_limit() {
    let store = store_of(&[("a", T - 3), ("b", T - 2), ("c", T - 1)]);
    assert_eq!(store.recent(0).len(), 0);
    assert_eq!(store.recent(1).len(), 1);
    assert_eq!(store.recent(1)[0].camo_id.as_deref(), Some("c"));
    assert_eq!(store.recent(2).len(), 2);
    assert_eq!(store.recent(3).len(), 3);
    assert_eq!(store.recent(4).len(), 3);
    assert_eq!(store.recent(usize::MAX).len(), 3);
    assert_eq!(store.recent(3)[2].user_agent.as_deref(), Some("github-camo (a)"));
}

#[test]
fn summary_repeats_without_writes() {
    let mut store = ViewStore::new();
    for k in 0..15 {
        pixel(&mut store, Some("github-camo (x)"), None, at(T - k * 9 * HOUR));
    }
    let first = get_stats(&store, at(T)).unwrap();
    let second = get_stats(&store, at(T)).unwrap();
    assert_eq!(first.total_views, second.total_views);
    assert_eq!(first.views_today, second.views_today);
    assert_eq!(first.views_this_week, second.views_this_week);
    assert_eq!(first, second);
    assert_eq!(first.total_views, 15);
    assert_eq!(first.views_today, 3);
    assert_eq!(first.views_this_week, 15);
    // a later call sees the same total, and a window that has moved on
    let later = get_stats(&store, at(T + 4 * DAY)).unwrap();
    assert_eq!(later.total_views, 15);
    assert_eq!(later.views_today, 0);
    assert_eq!(later.views_this_week, 8);
}

#[test]
fn summary_questions_come_in_order() {
    let (progress, query) = begin(at(T));
    assert_eq!(query, StoreQuery::CountAll);
    assert_eq!(
        progress,
        Progress::NeedTotal { day_start: at(T - DAY), week_start: at(T - 7 * DAY) }
    );
    let step = advance(progress, StoreAnswer::Count(40));
    let Step::Ask(progress, query) = step else { panic!("expected a question") };
    assert_eq!(query, StoreQuery::CountSince(at(T - DAY)));
    assert_eq!(progress, Progress::NeedToday { week_start: at(T - 7 * DAY), total: 40 });
    let step = advance(progress, StoreAnswer::Count(4));
    let Step::Ask(progress, query) = step else { panic!("expected a question") };
    assert_eq!(query, StoreQuery::CountSince(at(T - 7 * DAY)));
    assert_eq!(progress, Progress::NeedWeek { total: 40, today: 4 });
    let step = advance(progress, StoreAnswer::Count(14));
    let Step::Ask(progress, query) = step else { panic!("expected a question") };
    assert_eq!(query, StoreQuery::Recent(10));
    assert_eq!(RECENT_LIMIT, 10);
    assert_eq!(progress, Progress::NeedRecent { total: 40, today: 4, week: 14 });
    let rows = vec![
        RecentRow { timestamp: at(T), camo_id: Some("a".to_string()), user_agent: None },
        RecentRow { timestamp: at(T - 1), camo_id: None, user_agent: Some("ua".to_string()) },
    ];
    let step = advance(progress, StoreAnswer::Rows(rows));
    assert_eq!(
        step,
        Step::Done(Ok(Stats {
            total_views: 40,
            views_today: 4,
            views_this_week: 14,
            recent_views: vec![
                ViewLog { timestamp: at(T), camo_id: "a".to_string(), user_agent: String::new() },
                ViewLog {
                    timestamp: at(T - 1),
                    camo_id: String::new(),
                    user_agent: "ua".to_string()
                },
            ],
        }))
    );
}

#[test]
fn any_failed_read_ends_the_summary_with_nothing() {
    let failed = || Step::Done(Err(Failure::StoreReadFailed));
    let day_start = at(T - DAY);
    let week_start = at(T - 7 * DAY);
    let states = [
        Progress::NeedTotal { day_start, week_start },
        Progress::NeedToday { week_start, total: 3 },
        Progress::NeedWeek { total: 3, today: 1 },
        Progress::NeedRecent { total: 3, today: 1, week: 2 },
    ];
    for state in states {
        assert_eq!(advance(state, StoreAnswer::Failed), failed());
    }
    // an answer of the wrong kind is a failed read too
    for state in &states[..3] {
        assert_eq!(advance(*state, StoreAnswer::Rows(vec![])), failed());
    }
    assert_eq!(advance(states[3], StoreAnswer::Count(0)), failed());
    assert_eq!(Failure::StoreReadFailed.status(), 500);
}

#[test]
fn rows_without_values_reduce_to_empty_text() {
    let row = RecentRow { timestamp: at(T), camo_id: None, user_agent: None };
    assert_eq!(
        row.reduce(),
        ViewLog { timestamp: at(T), camo_id: String::new(), user_agent: String::new() }
    );
    let rows = vec![
        RecentRow { timestamp: at(2), camo_id: Some("x".into()), user_agent: Some("y".into()) },
        row,
    ];
    let entries = reduce_all(&rows);
    assert_eq!(entries.len(), 2);
    assert_eq!(entries[0], ViewLog { timestamp: at(2), camo_id: "x".into(), user_agent: "y".into() });
    assert_eq!(entries[1].camo_id, "");
    assert!(reduce_all(&vec![]).is_empty());
}

#[test]
fn store_answers_each_question() {
    let store = store_of(&[("a", T - 3 * DAY), ("b", T)]);
    assert_eq!(store.answer(StoreQuery::CountAll), StoreAnswer::Count(2));
    assert_eq!(store.answer(StoreQuery::CountSince(at(T - DAY))), StoreAnswer::Count(1));
    let StoreAnswer::Rows(rows) = store.answer(StoreQuery::Recent(1)) else {
        panic!("expected rows")
    };
    assert_eq!(
        rows,
        vec![RecentRow {
            timestamp: at(T),
            camo_id: Some("b".to_string()),
            user_agent: Some("github-camo (b)".to_string()),
        }]
    );
    let event = &store.events()[0];
    assert_eq!(event.to_row().timestamp, at(T - 3 * DAY));
    assert_eq!(StoreFull, StoreFull);
}

#[test]
fn days_earlier_subtracts_whole_days() {
    assert_eq!(at(T).days_earlier(1), Some(at(T - 86_400_000_000_000)));
    assert_eq!(at(T).days_earlier(7), Some(at(T - 604_800_000_000_000)));
    assert_eq!(at(T).days_earlier(0), Some(at(T)));
    assert_eq!(at(0).days_earlier(1), Some(at(-86_400_000_000_000)));
    assert_eq!(at(123_456_789).days_earlier(365), Some(at(123_456_789 - 365 * DAY)));
    assert_eq!(NANOS_PER_DAY, DAY);
}

#[test]
fn days_earlier_stays_within_the_calendar() {
    assert_eq!(at(MIN_UNIX_NANOS).days_earlier(0), Some(at(MIN_UNIX_NANOS)));
    assert_eq!(at(MIN_UNIX_NANOS).days_earlier(1), None);
    assert_eq!(at(MIN_UNIX_NANOS + DAY - 1).days_earlier(1), None);
    assert_eq!(at(MIN_UNIX_NANOS + DAY).days_earlier(1), Some(at(MIN_UNIX_NANOS)));
    assert_eq!(at(MAX_UNIX_NANOS).days_earlier(1), Some(at(MAX_UNIX_NANOS - DAY)));
    assert_eq!(at(MAX_UNIX_NANOS + 1).days_earlier(1), None);
    assert_eq!(at(MIN_UNIX_NANOS - 1).days_earlier(0), None);
    assert_eq!(at(i128::MAX).days_earlier(1), None);
    assert_eq!(at(i128::MIN).days_earlier(1), None);
    assert_eq!(at(T).days_earlier(u32::MAX), None);
    assert_eq!(at(MAX_UNIX_NANOS).days_earlier(7_304_483), Some(at(MIN_UNIX_NANOS + DAY - 1)));
    assert_eq!(at(MAX_UNIX_NANOS).days_earlier(7_304_484), None);
}

#[test]
fn calendar_bounds_are_those_of_the_time_crate() {
    let first = OffsetDateTime::from_unix_timestamp_nanos(MIN_UNIX_NANOS).unwrap();
    assert_eq!((first.year(), first.ordinal(), first.hour(), first.nanosecond()), (-9999, 1, 0, 0));
    assert!(OffsetDateTime::from_unix_timestamp_nanos(MIN_UNIX_NANOS - 1).is_err());
    let last = OffsetDateTime::from_unix_timestamp_nanos(MAX_UNIX_NANOS).unwrap();
    assert_eq!(
        (last.year(), last.ordinal(), last.hour(), last.minute(), last.second(), last.nanosecond()),
        (9999, 365, 23, 59, 59, 999_999_999)
    );
    assert!(OffsetDateTime::from_unix_timestamp_nanos(MAX_UNIX_NANOS + 1).is_err());
    assert_eq!(first.unix_timestamp_nanos(), MIN_UNIX_NANOS);
    assert_eq!(last.unix_timestamp_nanos(), MAX_UNIX_NANOS);
}

#[test]
fn windows_need_a_week_of_calendar() {
    assert!(at(T).supports_windows());
    assert!(at(MAX_UNIX_NANOS).supports_windows());
    assert!(!at(MAX_UNIX_NANOS + 1).supports_windows());
    assert!(at(MIN_UNIX_NANOS + 7 * DAY).supports_windows());
    assert!(!at(MIN_UNIX_NANOS + 7 * DAY - 1).supports_windows());
    assert!(!at(i128::MIN).supports_windows());
    let (progress, _) = begin(at(MIN_UNIX_NANOS + 7 * DAY));
    assert_eq!(
        progress,
        Progress::NeedTotal {
            day_start: at(MIN_UNIX_NANOS + 6 * DAY),
            week_start: at(MIN_UNIX_NANOS)
        }
    );
}

#[test]
fn timestamps_compare_by_instant() {
    assert!(at(2).is_after(&at(1)));
    assert!(!at(1).is_after(&at(1)));
    assert!(!at(1).is_after(&at(2)));
    assert!(at(0).is_after(&at(-1)));
    assert_eq!(at(5).unix_nanos(), 5);
}
