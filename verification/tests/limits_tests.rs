use wftpg::quota::{check_quota, QuotaCache};
use wftpg::rate_limit::{RateLimitError, RateLimiter};
use wftpg::speed_limiter::SpeedLimiter;

#[test]
fn rate_limiter_counts_per_address_and_in_total() {
    let mut r = RateLimiter::new(2, 60, 3);
    assert!(r.check_and_record_at("1.1.1.1", 0).is_ok());
    assert!(r.check_and_record_at("1.1.1.1", 10).is_ok());
    match r.check_and_record_at("1.1.1.1", 20) {
        Err(e @ RateLimitError::PerIpLimit { .. }) => {
            assert_eq!(e.message(), "Rate limit exceeded for 1.1.1.1: 2 connections in 60 seconds");
        }
        _ => panic!("per-address limit expected"),
    }
    assert_eq!(r.get_stats(), (1, 2));
    assert!(r.check_and_record_at("2.2.2.2", 30).is_ok());
    match r.check_and_record_at("3.3.3.3", 40) {
        Err(e @ RateLimitError::ServerLimit) => assert_eq!(e.message(), "Server connection limit reached"),
        _ => panic!("server limit expected"),
    }
    assert_eq!(r.get_stats(), (2, 3));
}

#[test]
fn release_gives_back_what_was_recorded() {
    let mut r = RateLimiter::new(10, 60, 100);
    assert!(r.check_and_record_at("9.9.9.9", 5).is_ok());
    assert_eq!(r.get_stats(), (1, 1));
    r.release_for_ip("9.9.9.9");
    assert_eq!(r.get_stats(), (0, 0));
    r.release_for_ip("9.9.9.9");
    assert_eq!(r.get_stats(), (0, 0));
    assert!(r.check_and_record_at("9.9.9.9", 5).is_ok());
    assert!(r.check_and_record_at("9.9.9.9", 6).is_ok());
    r.release_for_ip("9.9.9.9");
    assert_eq!(r.get_stats(), (1, 1));
}

#[test]
fn entries_expire_after_the_window() {
    let mut r = RateLimiter::new(1, 60, 100);
    assert!(r.check_and_record_at("5.5.5.5", 1_000).is_ok());
    assert!(r.check_and_record_at("5.5.5.5", 60_999).is_err());
    assert!(r.check_and_record_at("5.5.5.5", 61_000).is_ok());
    assert_eq!(r.get_stats(), (1, 2));
    assert!(r.check_and_record("6.6.6.6").is_ok());
    let d = RateLimiter::default();
    assert_eq!(d.get_stats(), (0, 0));
}

#[test]
fn speed_limiter_keeps_its_limit_and_tokens() {
    let mut s = SpeedLimiter::new(100);
    assert_eq!(s.max_bytes_per_second(), 102_400);
    assert_eq!(s.get_limit(), 100);
    s.set_limit(7);
    assert_eq!(s.get_limit(), 7);
    assert!(s.applies_to(10));
    assert!(!s.applies_to(0));
    assert_eq!(s.refill(500), 500);
    assert_eq!(SpeedLimiter::deficit(500, 800), 300);
    assert_eq!(SpeedLimiter::deficit(500, 200), 0);
    s.consume(800);
    assert_eq!(s.available_tokens(), 0);
    assert_eq!(s.refill(u64::MAX), u64::MAX);
    assert_eq!(s.refill(1), u64::MAX);
    let u = SpeedLimiter::with_unlimited();
    assert_eq!(u.get_limit(), 0);
    assert!(!u.applies_to(10));
    let c = s.clone();
    assert_eq!(c.get_limit(), 7);
    assert_eq!(c.available_tokens(), 0);
    assert_eq!(SpeedLimiter::default().get_limit(), 0);
    let _ = s.restart_interval();
}

#[test]
fn quota_allocations_are_returned_unless_committed() {
    let mut q = QuotaCache::new();
    q.record_usage("/h", 1_000_000);
    let g = q.try_allocate("/h", 1, 48_000).unwrap();
    assert_eq!(g.bytes(), 48_000);
    assert_eq!(q.cached("/h"), Some(1_048_000));
    assert_eq!(q.try_allocate("/h", 1, 1_000).err(), Some("Quota exceeded"));
    q.finish(g);
    assert_eq!(q.cached("/h"), Some(1_000_000));
    let mut g2 = q.try_allocate("/h", 1, 10).unwrap();
    g2.commit();
    q.finish(g2);
    assert_eq!(q.cached("/h"), Some(1_000_010));
    let g3 = q.try_allocate("/new", 0, 5).unwrap();
    q.finish(g3);
    assert_eq!(q.cached("/new"), None);
    q.invalidate("/h");
    assert_eq!(q.cached("/h"), None);
    assert!(check_quota(0, u64::MAX, 1));
    assert!(check_quota(1, 1_048_000, 576));
    assert!(!check_quota(1, 1_048_000, 577));
}

#[test]
fn unlimited_allocation_leaves_cached_usage_alone() {
    let mut q = QuotaCache::new();
    q.record_usage("/u", 700);
    let g = q.try_allocate("/u", 0, 500).unwrap();
    assert_eq!(g.bytes(), 500);
    assert_eq!(q.cached("/u"), Some(700));
    q.finish(g);
    assert_eq!(q.cached("/u"), Some(700));
}
