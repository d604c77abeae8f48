//! Tests of group selection policies and the health-check scheduler.
use proxy_core::groups::{
    fallback_select, load_balance_select, session_key, url_test_select, MemberHealth, Selector,
};
use proxy_core::health::HealthCheck;
use proxy_core::session::Session;
use proxy_core::addr::SocksAddr;

fn member(alive: bool, latency: Option<u64>) -> MemberHealth {
    MemberHealth { alive, latency }
}

#[test]
fn url_test_picks_lowest_latency() {
    // A at 50 ms, B at 10 ms, both alive
    let h = vec![member(true, Some(50)), member(true, Some(10))];
    assert_eq!(url_test_select(&h), Some(1));
}

#[test]
fn url_test_falls_back_when_best_dies() {
    let h = vec![member(true, Some(50)), member(false, Some(10))];
    assert_eq!(url_test_select(&h), Some(0));
}

#[test]
fn url_test_excludes_unprobed_members() {
    let h = vec![member(true, None), member(true, Some(70))];
    assert_eq!(url_test_select(&h), Some(1));
    let h = vec![member(true, None)];
    assert_eq!(url_test_select(&h), None);
}

#[test]
fn url_test_breaks_ties_by_declaration_order() {
    let h = vec![member(true, Some(20)), member(true, Some(20))];
    assert_eq!(url_test_select(&h), Some(0));
}

#[test]
fn fallback_picks_first_alive() {
    let h = vec![member(false, None), member(true, Some(30))];
    assert_eq!(fallback_select(&h), Some(1));
}

#[test]
fn fallback_reports_unreachable_when_all_dead() {
    let h = vec![member(false, Some(10)), member(false, None)];
    assert_eq!(fallback_select(&h), None);
}

#[test]
fn load_balance_has_affinity_per_key() {
    let h = vec![member(true, Some(10)), member(false, None), member(true, Some(20))];
    let first = load_balance_select(&h, 12345, 0);
    let second = load_balance_select(&h, 12345, 99);
    // the same session key maps to the same alive member
    assert_eq!(first, second);
    assert!(h[first].alive);
}

#[test]
fn load_balance_degrades_to_round_robin() {
    let h = vec![member(false, None), member(false, None), member(false, None)];
    assert_eq!(load_balance_select(&h, 7, 0), 0);
    assert_eq!(load_balance_select(&h, 7, 1), 1);
    assert_eq!(load_balance_select(&h, 7, 2), 2);
    assert_eq!(load_balance_select(&h, 7, 3), 0);
}

#[test]
fn session_keys_are_stable_per_destination() {
    let mut a = Session::new();
    a.destination = SocksAddr::Domain { name: b"example.com".to_vec(), port: 80 };
    let mut b = Session::new();
    b.destination = SocksAddr::Domain { name: b"example.com".to_vec(), port: 80 };
    assert_eq!(session_key(&a), session_key(&b));
    let mut c = Session::new();
    c.destination = SocksAddr::Domain { name: b"example.org".to_vec(), port: 80 };
    assert_ne!(session_key(&a), session_key(&c));
}

#[test]
fn selector_defaults_to_first_member() {
    let s = Selector::new(vec!["a".to_owned(), "b".to_owned()]);
    assert_eq!(s.current, 0);
    assert_eq!(s.current_name(), "a");
}

#[test]
fn selector_changes_only_on_explicit_action() {
    let mut s = Selector::new(vec!["a".to_owned(), "b".to_owned()]);
    assert!(s.set_current(1));
    assert_eq!(s.current_name(), "b");
    // an out-of-range pin is refused and changes nothing
    assert!(!s.set_current(5));
    assert_eq!(s.current_name(), "b");
}

fn check_fixture(interval: u64, lazy: bool, now: u64) -> HealthCheck {
    HealthCheck::new(
        vec!["a".to_owned(), "b".to_owned()],
        "http://www.gstatic.com/generate_204".to_owned(),
        interval,
        lazy,
        now,
    )
}

#[test]
fn kick_off_fires_an_immediate_pass() {
    let mut hc = check_fixture(30, true, 0);
    assert!(hc.kick_off());
    assert!(hc.running);
}

#[test]
fn lazy_touch_suppresses_the_next_probe() {
    // lazy, 30 s interval: touch, then a tick 5 s later
    let mut hc = check_fixture(30, true, 0);
    hc.kick_off();
    hc.touch(100);
    assert!(!hc.tick(105));
    assert_eq!(hc.last_check, 100);
    // one full interval later the probe fires again
    assert!(hc.tick(130));
    assert_eq!(hc.last_check, 130);
}

#[test]
fn eager_scheduler_probes_every_tick() {
    let mut hc = check_fixture(30, false, 0);
    hc.kick_off();
    hc.touch(100);
    assert!(hc.tick(105));
}

#[test]
fn stop_twice_does_not_error() {
    let mut hc = check_fixture(30, true, 0);
    hc.stop();
    hc.stop();
    assert!(!hc.running);
    hc.kick_off();
    hc.stop();
    hc.stop();
    assert!(!hc.running);
}

#[test]
fn update_replaces_members_for_future_passes() {
    let mut hc = check_fixture(30, true, 0);
    hc.update(vec!["c".to_owned()]);
    assert_eq!(hc.proxies, vec!["c".to_owned()]);
}

#[test]
fn auto_iff_nonzero_interval() {
    let hc = check_fixture(30, true, 0);
    assert!(hc.auto());
    let hc = check_fixture(0, true, 0);
    assert!(!hc.auto());
}
