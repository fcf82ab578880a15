use sway_playground::client_ip::{IpAddress, LOOPBACK_V4};
use sway_playground::rate_limiter::{
    ClientIp, RateLimitConfig, RateLimitError, RateLimitGuard, RateLimiter, DAY_SECONDS,
};
use sway_playground::store::ClientRecord;

const START: i64 = 1_700_000_000;
const HOUR: i64 = 3600;

fn limiter(quota: u32) -> RateLimiter {
    RateLimiter::new(RateLimitConfig { requests_per_day: quota, cleanup_interval_minutes: 10 })
}

fn client(last: u8) -> IpAddress {
    IpAddress::V4(u32::from_be_bytes([10, 0, 0, last]))
}

#[test]
fn two_requests_admitted_third_rejected() {
    let mut rl = limiter(2);
    let ip = client(1);
    assert_eq!(rl.check_rate_limit_at(ip, START), Ok(()));
    assert_eq!(rl.check_rate_limit_at(ip, START + 60), Ok(()));
    assert_eq!(
        rl.check_rate_limit_at(ip, START + 120),
        Err(RateLimitError::LimitExceeded { limit: 2, reset_time: START + 86400 })
    );
}

#[test]
fn first_q_admitted_then_rejected_for_several_quotas() {
    for quota in [0u32, 1, 3, 7] {
        let mut rl = limiter(quota);
        let ip = client(2);
        for i in 0..quota {
            assert_eq!(rl.check_rate_limit_at(ip, START + i as i64), Ok(()));
        }
        // With no quota the rejected check itself opens the window.
        let window_start = if quota == 0 { START + 1000 } else { START };
        assert_eq!(
            rl.check_rate_limit_at(ip, START + 1000),
            Err(RateLimitError::LimitExceeded { limit: quota, reset_time: window_start + 86400 })
        );
    }
}

#[test]
fn rejection_does_not_consume_quota_of_next_window() {
    let mut rl = limiter(1);
    let ip = client(3);
    assert_eq!(rl.check_rate_limit_at(ip, START), Ok(()));
    for i in 1..5 {
        assert!(rl.check_rate_limit_at(ip, START + i).is_err());
    }
    let status = rl.get_rate_limit_status_at(ip, START + 10);
    assert_eq!(status.requests_remaining, 0);
}

#[test]
fn window_resets_after_twenty_five_hours() {
    let mut rl = limiter(2);
    let ip = client(1);
    assert!(rl.check_rate_limit_at(ip, START).is_ok());
    assert!(rl.check_rate_limit_at(ip, START + 1).is_ok());
    assert!(rl.check_rate_limit_at(ip, START + 2).is_err());
    let later = START + 25 * HOUR;
    assert_eq!(rl.check_rate_limit_at(ip, later), Ok(()));
    let status = rl.get_rate_limit_status_at(ip, later);
    assert_eq!(status.requests_remaining, 1);
    assert_eq!(status.reset_time, Some(later + 86400));
}

#[test]
fn window_boundary_is_not_yet_expired() {
    let mut rl = limiter(1);
    let ip = client(4);
    assert!(rl.check_rate_limit_at(ip, START).is_ok());
    assert_eq!(
        rl.check_rate_limit_at(ip, START + DAY_SECONDS as i64),
        Err(RateLimitError::LimitExceeded { limit: 1, reset_time: START + 86400 })
    );
    assert_eq!(rl.check_rate_limit_at(ip, START + DAY_SECONDS as i64 + 1), Ok(()));
}

#[test]
fn clients_are_limited_independently() {
    let mut rl = limiter(2);
    let a = client(1);
    let b = client(2);
    assert!(rl.check_rate_limit_at(a, START).is_ok());
    assert!(rl.check_rate_limit_at(a, START + 1).is_ok());
    assert!(rl.check_rate_limit_at(b, START + 2).is_ok());
    assert!(rl.check_rate_limit_at(b, START + 3).is_ok());
    assert!(rl.check_rate_limit_at(a, START + 4).is_err());
    assert!(rl.check_rate_limit_at(b, START + 5).is_err());
}

#[test]
fn exhausting_one_client_leaves_another_untouched() {
    let mut rl = limiter(1);
    let a = client(1);
    let b = IpAddress::V6(1);
    assert!(rl.check_rate_limit_at(a, START).is_ok());
    assert!(rl.check_rate_limit_at(a, START + 1).is_err());
    assert_eq!(rl.get_rate_limit_status_at(b, START + 2).requests_remaining, 1);
    assert_eq!(rl.check_rate_limit_at(b, START + 2), Ok(()));
}

#[test]
fn v4_and_v6_addresses_with_equal_bits_are_distinct_clients() {
    let mut rl = limiter(1);
    assert!(rl.check_rate_limit_at(IpAddress::V4(7), START).is_ok());
    assert!(rl.check_rate_limit_at(IpAddress::V6(7), START).is_ok());
}

#[test]
fn status_of_exhausted_client() {
    let mut rl = limiter(2);
    let ip = client(1);
    rl.check_rate_limit_at(ip, START).unwrap();
    rl.check_rate_limit_at(ip, START + 1).unwrap();
    let status = rl.get_rate_limit_status_at(ip, START + 2);
    assert_eq!(status.requests_remaining, 0);
    assert_eq!(status.requests_limit, 2);
    assert_eq!(status.reset_time, Some(START + 86400));
    assert_eq!(status.window_duration_seconds, 86400);
}

#[test]
fn status_of_unknown_client() {
    let rl = limiter(2);
    let status = rl.get_rate_limit_status_at(client(9), START);
    assert_eq!(status.requests_remaining, 2);
    assert_eq!(status.requests_limit, 2);
    assert_eq!(status.reset_time, None);
    assert_eq!(status.window_duration_seconds, 86400);
}

#[test]
fn status_of_expired_window_reports_full_quota() {
    let mut rl = limiter(3);
    let ip = client(1);
    rl.check_rate_limit_at(ip, START).unwrap();
    let status = rl.get_rate_limit_status_at(ip, START + 86401);
    assert_eq!(status.requests_remaining, 3);
    assert_eq!(status.reset_time, None);
}

#[test]
fn status_queries_do_not_change_admission() {
    let mut rl = limiter(2);
    let ip = client(1);
    rl.check_rate_limit_at(ip, START).unwrap();
    for i in 0..50 {
        let status = rl.get_rate_limit_status_at(ip, START + i);
        assert_eq!(status.requests_remaining, 1);
    }
    assert_eq!(rl.check_rate_limit_at(ip, START + 60), Ok(()));
    assert!(rl.check_rate_limit_at(ip, START + 61).is_err());
}

#[test]
fn sweep_keeps_live_records() {
    let mut rl = limiter(2);
    let ip = client(1);
    rl.check_rate_limit_at(ip, START).unwrap();
    rl.check_rate_limit_at(ip, START).unwrap();
    rl.sweep_expired(START + 86400);
    assert!(rl.check_rate_limit_at(ip, START + 86400).is_err());
    assert_eq!(rl.get_rate_limit_status_at(ip, START + 86400).requests_remaining, 0);
}

#[test]
fn sweep_removes_expired_records_and_client_starts_fresh() {
    let mut rl = limiter(2);
    let old = client(1);
    let young = client(2);
    rl.check_rate_limit_at(old, START).unwrap();
    rl.check_rate_limit_at(old, START).unwrap();
    rl.check_rate_limit_at(young, START + 20 * HOUR).unwrap();
    let now = START + 86401;
    rl.sweep_expired(now);
    assert_eq!(rl.get_rate_limit_status_at(old, now).reset_time, None);
    assert_eq!(rl.get_rate_limit_status_at(young, now).requests_remaining, 1);
    assert_eq!(rl.check_rate_limit_at(old, now), Ok(()));
    let status = rl.get_rate_limit_status_at(old, now);
    assert_eq!(status.requests_remaining, 1);
    assert_eq!(status.reset_time, Some(now + 86400));
}

#[test]
fn sweep_on_empty_store() {
    let mut rl = limiter(2);
    rl.sweep_expired(START);
    assert_eq!(rl.get_rate_limit_status_at(client(1), START).requests_remaining, 2);
}

#[test]
fn status_predicts_next_admission() {
    let mut rl = limiter(3);
    let ip = client(5);
    for i in 0..5 {
        let remaining = rl.get_rate_limit_status_at(ip, START + i).requests_remaining;
        let admitted = rl.check_rate_limit_at(ip, START + i).is_ok();
        assert_eq!(remaining > 0, admitted);
    }
}

#[test]
fn checks_on_the_clock_count_against_the_quota() {
    let mut rl = limiter(1);
    let ip = client(6);
    assert_eq!(rl.check_rate_limit(ip), Ok(()));
    assert!(rl.check_rate_limit(ip).is_err());
    let status = rl.get_rate_limit_status(ip);
    assert_eq!(status.requests_remaining, 0);
    assert!(status.reset_time.is_some());
}

#[test]
fn limiter_keeps_its_configuration() {
    let cfg = RateLimitConfig { requests_per_day: 5, cleanup_interval_minutes: 30 };
    let rl = RateLimiter::new(cfg);
    assert_eq!(rl.config(), cfg);
}

#[test]
fn guard_counts_request_under_resolved_address() {
    let mut rl = limiter(1);
    let forwarded = IpAddress::V4(0xcb00_7105);
    let real = client(1);
    let guard = RateLimitGuard::from_request(&mut rl, Some(forwarded), Some(real), None).unwrap();
    assert_eq!(guard.ip, forwarded);
    assert!(RateLimitGuard::from_request(&mut rl, Some(forwarded), None, None).is_err());
    assert!(RateLimitGuard::from_request(&mut rl, None, Some(real), None).is_ok());
}

#[test]
fn guard_falls_back_to_loopback() {
    let mut rl = limiter(1);
    let guard = RateLimitGuard::from_request(&mut rl, None, None, None).unwrap();
    assert_eq!(guard.ip, IpAddress::V4(LOOPBACK_V4));
    match RateLimitGuard::from_request(&mut rl, None, None, None) {
        Err(RateLimitError::LimitExceeded { limit, .. }) => assert_eq!(limit, 1),
        Ok(_) => panic!("second request from loopback must be rejected"),
    }
}

#[test]
fn client_ip_prefers_headers_over_peer() {
    assert_eq!(ClientIp::from_request(None, Some(client(2)), Some(client(3))).0, client(2));
    assert_eq!(ClientIp::from_request(None, None, Some(client(3))).0, client(3));
    assert_eq!(ClientIp::from_request(None, None, None).0, IpAddress::V4(LOOPBACK_V4));
}

#[test]
fn record_resets_only_after_a_full_day() {
    let mut rec = ClientRecord::new(START);
    assert_eq!(rec, ClientRecord { count: 0, window_start: START });
    rec.count = 5;
    assert!(!rec.reset_if_expired(START + 86400));
    assert_eq!(rec.count, 5);
    assert!(rec.reset_if_expired(START + 86401));
    assert_eq!(rec, ClientRecord { count: 0, window_start: START + 86401 });
}

#[test]
fn sweep_on_the_clock_keeps_current_windows() {
    let mut rl = limiter(1);
    let fresh = client(7);
    let stale = client(8);
    assert_eq!(rl.check_rate_limit(fresh), Ok(()));
    rl.check_rate_limit_at(stale, 0).unwrap();
    rl.sweep_expired_now();
    assert_eq!(rl.get_rate_limit_status(fresh).requests_remaining, 0);
    assert_eq!(rl.get_rate_limit_status_at(stale, 0).reset_time, None);
}
