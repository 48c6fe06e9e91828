use pulse::beacon::{conclude, screen};
use pulse::camo::{camo_id, is_camo_agent};
use pulse::instant::Timestamp;
use pulse::reply::{Failure, Reply, PIXEL};
use pulse::service::pixel;
use pulse::store::ViewStore;
use pulse::text::{chars_of, find, matches_at};

const T: i128 = 1_700_000_000_000_000_000;

fn at(unix_nanos: i128) -> Timestamp {
    Timestamp::from_unix_nanos(unix_nanos)
}

#[test]
fn wrapped_identifier_is_stored() {
    assert_eq!(camo_id("github-camo (abc123)"), "abc123");
    let mut store = ViewStore::new();
    let reply = pixel(&mut store, Some("github-camo (abc123)"), Some("10.0.0.7"), at(T));
    assert_eq!(reply.status, 200);
    let events = store.events();
    assert_eq!(events.len(), 1);
    assert_eq!(events[0].id, 1);
    assert_eq!(events[0].camo_id, "abc123");
    assert_eq!(events[0].user_agent, "github-camo (abc123)");
    assert_eq!(events[0].ip_address, "10.0.0.7");
    assert_eq!(events[0].timestamp, at(T));
}

#[test]
fn marker_elsewhere_is_stored_as_non_github() {
    assert!(is_camo_agent("xxgithub-camo yyy"));
    assert_eq!(camo_id("xxgithub-camo yyy"), "non-github");
    let mut store = ViewStore::new();
    let reply = pixel(&mut store, Some("xxgithub-camo yyy"), None, at(T));
    assert_eq!(reply.status, 200);
    assert_eq!(store.events()[0].camo_id, "non-github");
    assert_eq!(store.events()[0].user_agent, "xxgithub-camo yyy");
}

#[test]
fn agent_without_marker_is_rejected_and_nothing_written() {
    let mut store = ViewStore::new();
    for agent in ["Mozilla/5.0", "", "github", "github-cam", "GitHub-Camo (abc)", "unknown"] {
        let reply = pixel(&mut store, Some(agent), Some("10.0.0.7"), at(T));
        assert_eq!(reply.status, 403);
        assert!(reply.body.is_empty());
        assert!(reply.headers.is_empty());
        assert_eq!(reply, Reply::failure(Failure::ValidationRejected));
    }
    assert_eq!(store.events().len(), 0);
    assert_eq!(store.count_all(), 0);
}

#[test]
fn missing_agent_is_rejected() {
    let mut store = ViewStore::new();
    let reply = pixel(&mut store, None, Some("10.0.0.7"), at(T));
    assert_eq!(reply.status, 403);
    assert_eq!(store.count_all(), 0);
    assert_eq!(screen(None, None, at(T)), Err(Failure::ValidationRejected));
}

#[test]
fn accepted_fetch_gets_the_exact_image() {
    let expected: Vec<u8> = vec![
        0x47, 0x49, 0x46, 0x38, 0x39, 0x61, 0x01, 0x00, 0x01, 0x00, 0x80, 0x00, 0x00, 0xFF, 0xFF,
        0xFF, 0x00, 0x00, 0x00, 0x21, 0xF9, 0x04, 0x01, 0x00, 0x00, 0x00, 0x00, 0x2C, 0x00, 0x00,
        0x00, 0x00, 0x01, 0x00, 0x01, 0x00, 0x00, 0x02, 0x02, 0x44, 0x01, 0x00, 0x3B,
    ];
    assert_eq!(expected.len(), 43);
    assert_eq!(PIXEL.to_vec(), expected);
    let mut store = ViewStore::new();
    for agent in ["github-camo (abc123)", "github-camo ()", "xxgithub-camo yyy", "github-camo"] {
        let reply = pixel(&mut store, Some(agent), None, at(T));
        assert_eq!(reply.status, 200);
        assert_eq!(reply.body, expected);
    }
}

#[test]
fn image_reply_forbids_caching() {
    let reply = Reply::image();
    let headers: Vec<(&str, &str)> = reply.headers.iter().map(|h| (h.name, h.value)).collect();
    assert_eq!(
        headers,
        vec![
            ("Cache-Control", "no-cache, no-store, must-revalidate"),
            ("Content-Type", "image/gif"),
            ("Pragma", "no-cache"),
            ("Expires", "0"),
        ]
    );
}

#[test]
fn missing_address_is_recorded_as_unknown() {
    let view = screen(Some("github-camo (x)"), None, at(T)).unwrap();
    assert_eq!(view.ip_address, "unknown");
    assert_eq!(view.camo_id, "x");
    assert_eq!(view.timestamp.unix_nanos(), T);
    let view = screen(Some("github-camo (x)"), Some("192.0.2.1"), at(T)).unwrap();
    assert_eq!(view.ip_address, "192.0.2.1");
}

#[test]
fn identifier_edge_cases() {
    // only the opening is taken off the front, only one `)` off the end
    assert_eq!(camo_id("github-camo ()"), "");
    assert_eq!(camo_id("github-camo ("), "");
    assert_eq!(camo_id("github-camo (abc"), "abc");
    assert_eq!(camo_id("github-camo (abc))"), "abc)");
    assert_eq!(camo_id("github-camo (github-camo (x))"), "github-camo (x)");
    assert_eq!(camo_id("github-camo (a)b"), "a)b");
    // begins with the marker, but not with the opening
    assert_eq!(camo_id("github-camo"), "github-camo");
    assert_eq!(camo_id("github-camo/1.0)"), "github-camo/1.0");
    assert_eq!(camo_id("github-camo ä (é)"), "github-camo ä (é");
    // does not begin with the marker
    assert_eq!(camo_id(" github-camo (abc)"), "non-github");
    assert_eq!(camo_id("nothing here"), "non-github");
    assert_eq!(camo_id(""), "non-github");
}

#[test]
fn marker_is_found_anywhere() {
    assert!(is_camo_agent("github-camo"));
    assert!(is_camo_agent("github-camo (abc123)"));
    assert!(is_camo_agent("agent github-camo"));
    assert!(is_camo_agent("ägithub-camoé"));
    assert!(!is_camo_agent("github-cam"));
    assert!(!is_camo_agent("github_camo"));
    assert!(!is_camo_agent("Github-camo"));
    assert!(!is_camo_agent(""));
}

#[test]
fn conclude_tells_stored_from_failed() {
    assert_eq!(conclude(true), Ok(()));
    assert_eq!(conclude(false), Err(Failure::StoreWriteFailed));
    assert_eq!(Reply::for_outcome(conclude(true)), Reply::image());
    let failed = Reply::for_outcome(conclude(false));
    assert_eq!(failed.status, 500);
    assert!(failed.body.is_empty());
    assert!(failed.headers.is_empty());
}

#[test]
fn failures_have_their_status() {
    assert_eq!(Failure::ValidationRejected.status(), 403);
    assert_eq!(Failure::StoreWriteFailed.status(), 500);
    assert_eq!(Failure::StoreReadFailed.status(), 500);
}

#[test]
fn text_search() {
    let text = chars_of("abcabc");
    assert_eq!(text, vec!['a', 'b', 'c', 'a', 'b', 'c']);
    assert_eq!(find(&text, &chars_of("bc")), Some(1));
    assert_eq!(find(&text, &chars_of("ca")), Some(2));
    assert_eq!(find(&text, &chars_of("cb")), None);
    assert_eq!(find(&text, &chars_of("")), Some(0));
    assert_eq!(find(&text, &chars_of("abcabc")), Some(0));
    assert_eq!(find(&text, &chars_of("abcabca")), None);
    assert_eq!(find(&chars_of(""), &chars_of("")), Some(0));
    assert!(matches_at(&text, &chars_of("abc"), 3));
    assert!(!matches_at(&text, &chars_of("abc"), 4));
    assert!(!matches_at(&text, &chars_of("abc"), 1));
    assert!(matches_at(&text, &chars_of(""), 6));
    assert!(!matches_at(&text, &chars_of(""), 7));
    assert!(!matches_at(&text, &chars_of("a"), usize::MAX));
}

#[test]
fn accepted_fetches_each_add_one_view() {
    let mut store = ViewStore::new();
    pixel(&mut store, Some("github-camo (first)"), None, at(T));
    pixel(&mut store, Some("curl/8.0"), None, at(T));
    let before = store.count_all();
    assert_eq!(before, 1);
    let n: i64 = 25;
    for k in 0..n {
        let agent = format!("github-camo (id{})", k);
        let reply = pixel(&mut store, Some(&agent), Some("10.0.0.1"), at(T + k as i128));
        assert_eq!(reply.status, 200);
        assert_eq!(store.count_all(), before + k + 1);
    }
    assert_eq!(store.count_all(), before + n);
    let events = store.events();
    for (i, event) in events.iter().enumerate() {
        assert_eq!(event.id, i as i64 + 1);
    }
    assert_eq!(events[1].camo_id, "id0");
    assert_eq!(events[25].camo_id, "id24");
}
