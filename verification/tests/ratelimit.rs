use gateway::json::Json;
use gateway::ratelimit::{limit, shared_store, Check, ClientAddr, RateLimiter, SECOND};
use gateway::reply::Body;

const HOME: ClientAddr = ClientAddr::V4(0x7f000001);
const AWAY: ClientAddr = ClientAddr::V4(0x0a000001);
const SIX: ClientAddr = ClientAddr::V6(0x7f000001);

fn admitted(limiter: &mut RateLimiter, addr: ClientAddr, now: u128) -> bool {
    match limiter.check(addr, "127.0.0.1", now, 0) {
        Check::Decided(yes) => yes,
        Check::Count { .. } => panic!("not decided"),
    }
}

#[test]
fn a_window_admits_the_limit() {
    let mut limiter = RateLimiter::from_env(3, 60 * SECOND, false);
    let start: u128 = 5 * SECOND;
    let let_through =
        (0..10).filter(|i| admitted(&mut limiter, HOME, start + i * SECOND)).count();
    assert_eq!(let_through, 3);
    assert!(!admitted(&mut limiter, HOME, start + 60 * SECOND - 1));
}

#[test]
fn a_window_admits_the_first_requests() {
    let mut limiter = RateLimiter::from_env(3, 60 * SECOND, false);
    let row: Vec<bool> = (0..12)
        .filter_map(|i| {
            let addr = if i % 2 == 0 { HOME } else { AWAY };
            let yes = admitted(&mut limiter, addr, i * SECOND);
            (i % 2 == 0).then_some(yes)
        })
        .collect();
    assert_eq!(row, vec![true, true, true, false, false, false]);
}

#[test]
fn a_new_window_begins_when_the_last_one_is_over() {
    let mut limiter = RateLimiter::from_env(1, 60 * SECOND, false);
    assert!(admitted(&mut limiter, HOME, 0));
    assert!(!admitted(&mut limiter, HOME, 1));
    assert!(admitted(&mut limiter, HOME, 60 * SECOND));
    assert!(!admitted(&mut limiter, HOME, 60 * SECOND + 1));
}

#[test]
fn an_open_window_admits_the_rest() {
    let mut limiter = RateLimiter::from_env(2, 60 * SECOND, false);
    assert!(admitted(&mut limiter, HOME, 0));
    assert!(admitted(&mut limiter, AWAY, 1));
    assert!(admitted(&mut limiter, HOME, 2));
    assert!(!admitted(&mut limiter, HOME, 3));
    assert!(admitted(&mut limiter, AWAY, 4));
    assert!(!admitted(&mut limiter, AWAY, 5));
}

#[test]
fn addresses_are_independent() {
    let mut limiter = RateLimiter::from_env(1, 60 * SECOND, false);
    assert!(admitted(&mut limiter, HOME, 0));
    assert!(admitted(&mut limiter, AWAY, 0));
    assert!(admitted(&mut limiter, SIX, 0));
    assert!(!admitted(&mut limiter, HOME, 0));
    assert!(!admitted(&mut limiter, SIX, 0));
}

#[test]
fn a_limit_of_zero_admits_all() {
    for connected in [false, true] {
        let mut limiter = RateLimiter::from_env(0, 60 * SECOND, connected);
        for i in 0..100 {
            assert!(admitted(&mut limiter, HOME, i));
        }
    }
}

#[test]
fn an_empty_window_admits_every_request() {
    let mut limiter = RateLimiter::from_env(1, 0, false);
    assert!(admitted(&mut limiter, HOME, 7));
    assert!(admitted(&mut limiter, HOME, 7));
}

#[test]
fn a_request_beyond_the_clock_is_not_counted() {
    let mut limiter = RateLimiter::from_env(1, 60 * SECOND, false);
    assert!(limiter.try_check(HOME, "127.0.0.1", u128::MAX, 0).is_none());
    assert!(matches!(
        limiter.try_check(HOME, "127.0.0.1", 0, 0),
        Some(Check::Decided(true))
    ));
    assert!(matches!(
        limiter.try_check(HOME, "127.0.0.1", 0, 0),
        Some(Check::Decided(false))
    ));
}

fn counter(window: u128, addr: &str, unix_seconds: u64) -> (String, u64) {
    let mut limiter = RateLimiter::from_env(5, window, true);
    match limiter.check(HOME, addr, 0, unix_seconds) {
        Check::Count { key, seconds } => (key, seconds),
        Check::Decided(_) => panic!("decided"),
    }
}

#[test]
fn the_shared_store_counts_under_a_key() {
    assert_eq!(
        counter(60 * SECOND, "127.0.0.1", 1_700_000_000),
        ("rl:127.0.0.1:28333333".to_string(), 60)
    );
    assert_eq!(counter(60 * SECOND, "::1", 59), ("rl:::1:0".to_string(), 60));
    assert_eq!(counter(SECOND / 2, "10.0.0.1", 12), ("rl:10.0.0.1:12".to_string(), 1));
    assert_eq!(counter(0, "10.0.0.1", 12), ("rl:10.0.0.1:12".to_string(), 1));
}

#[test]
fn counter_keys_are_distinct() {
    let key = |addr: &str, at: u64| counter(60 * SECOND, addr, at).0;
    assert_eq!(key("10.0.0.1", 60), key("10.0.0.1", 119));
    assert_ne!(key("10.0.0.1", 60), key("10.0.0.1", 120));
    assert_ne!(key("10.0.0.1", 60), key("10.0.0.11", 60));
    assert_ne!(key("::1", 60), key("::", 60));
}

#[test]
fn the_count_of_the_store_decides() {
    let limiter = RateLimiter::from_env(5, 60 * SECOND, true);
    assert!(limiter.counted_by_store(Some(1)));
    assert!(limiter.counted_by_store(Some(5)));
    assert!(!limiter.counted_by_store(Some(6)));
    assert!(limiter.counted_by_store(None));
}

#[test]
fn an_empty_location_is_no_store() {
    assert_eq!(shared_store(None), None);
    assert_eq!(shared_store(Some(String::new())), None);
    assert_eq!(
        shared_store(Some("redis://r".to_string())),
        Some("redis://r".to_string())
    );
}

#[test]
fn a_request_over_the_limit_is_told_to_slow_down() {
    assert!(limit(true).is_none());
    let reply = limit(false).unwrap();
    assert_eq!(reply.status, 429);
    match reply.body {
        Body::Json(Json::Object(entries)) => {
            assert_eq!(entries.len(), 1);
            assert_eq!(entries[0].0, "error");
            assert!(matches!(&entries[0].1, Json::Text(t) if t == "rate limit exceeded, slow down"));
        }
        _ => panic!("not an object"),
    }
}
