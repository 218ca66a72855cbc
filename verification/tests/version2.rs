use ratelimit::MAX_REQUESTS;
use ratelimit::MAX_REQUESTS_DURATION_SECONDS;
use ratelimit::RateLimiter2;

use chrono::Utc;

use std::sync::Arc;
use std::sync::RwLock;
use std::sync::atomic::AtomicUsize;
use std::sync::atomic::Ordering;

fn ip_key(s: &str) -> u128 {
    let mut key: u128 = 0;
    for part in s.split('.') {
        let octet: u8 = part.parse().expect("Failed to parse IP");
        key = (key << 8) | octet as u128;
    }
    key
}

#[test]
fn test_ratelimit2_under_max() {
    let rate_limiter = RateLimiter2::new();
    let ip: u128 = ip_key("127.0.0.1");
    let now: i64 = Utc::now().timestamp();

    for _ in 0..MAX_REQUESTS - 1 {
        assert_eq!(rate_limiter.ratelimit2(ip, now), true);
    }
}

#[test]
fn test_ratelimit2_max_limit_still_permitted() {
    let rate_limiter = RateLimiter2::new();
    let ip: u128 = ip_key("127.0.0.1");
    let now: i64 = Utc::now().timestamp();

    for _ in 0..MAX_REQUESTS {
        assert_eq!(rate_limiter.ratelimit2(ip, now), true);
    }
}

#[test]
fn test_ratelimit2_over_denied() {
    let rate_limiter = RateLimiter2::new();
    let ip: u128 = ip_key("127.0.0.1");
    let now: i64 = Utc::now().timestamp();

    for _ in 0..MAX_REQUESTS {
        assert_eq!(rate_limiter.ratelimit2(ip, now), true);
    }
    assert_eq!(rate_limiter.ratelimit2(ip, now), false);
}

#[test]
fn test_ratelimit2_after_enough_time_allowed() {
    let rate_limiter = RateLimiter2::new();

    let ip: u128 = ip_key("127.0.0.1");
    let now: i64 = Utc::now().timestamp();

    for _ in 0..MAX_REQUESTS - 1 {
        assert_eq!(rate_limiter.ratelimit2(ip, now), true);
    }

    let later: i64 = now + MAX_REQUESTS_DURATION_SECONDS + 1;
    assert_eq!(rate_limiter.ratelimit2(ip, later), true);
}

#[test]
fn test_concurrent_ratelimit2() {
    let num_threads: usize = 10;
    let rate_limiter = Arc::new(RwLock::new(RateLimiter2::new()));
    let ip: u128 = ip_key("127.0.0.1");
    let now: i64 = Utc::now().timestamp();

    crossbeam_utils::thread::scope(|s| {
        for _ in 0..num_threads {
            let rate_limiter = Arc::clone(&rate_limiter);
            s.spawn(move |_| {
                for _ in 0..MAX_REQUESTS - 1 {
                    let rl = rate_limiter.write().unwrap();
                    rl.ratelimit2(ip, now);
                }
            });
        }
    })
    .expect("Thread failed");

    let total_requests: usize = {
        let rl = rate_limiter.read().unwrap();
        rl.window_len(ip)
    };
    assert!(
        total_requests <= MAX_REQUESTS * num_threads,
        "Number of requests exceeded expected limit"
    );
}

#[test]
fn test_ratelimit2_request_overlimit() {
    let thread_requests: usize = 60;
    let total_threads: usize = 2;
    let expected_denials: usize = (thread_requests * total_threads) - MAX_REQUESTS;
    let rate_limiter = Arc::new(RwLock::new(RateLimiter2::new()));
    let ip: u128 = ip_key("127.0.0.1");
    let now: i64 = Utc::now().timestamp();

    let results: Vec<usize> = crossbeam_utils::thread::scope(|s| {
        let handles: Vec<_> = (0..total_threads)
            .map(|_| {
                let rate_limiter = Arc::clone(&rate_limiter);
                s.spawn(move |_| {
                    let mut denied: usize = 0;
                    for _ in 0..thread_requests {
                        let rl = rate_limiter.write().unwrap();
                        if !rl.ratelimit2(ip, now) {
                            denied += 1;
                        }
                    }
                    denied
                })
            })
            .collect();
        handles
            .into_iter()
            .map(|handle| handle.join().expect("Thread failed"))
            .collect()
    })
    .expect("Thread failed");

    let total_denials: usize = results.iter().sum();
    assert!(
        total_denials >= expected_denials,
        "Expected at least {} denials, but got {}",
        expected_denials,
        total_denials
    );
}

// Same-key calls serialise on the key's own lock, so even without any outer
// synchronisation the admitted total for one key is exactly the quota.
#[test]
fn test_ratelimit2_concurrent_same_key_exact_quota() {
    let num_threads: usize = 10;
    let rate_limiter = Arc::new(RateLimiter2::new());
    let ip: u128 = ip_key("127.0.0.1");
    let now: i64 = Utc::now().timestamp();
    let total_admitted: Arc<AtomicUsize> = Arc::new(AtomicUsize::new(0));

    crossbeam_utils::thread::scope(|s| {
        for _ in 0..num_threads {
            let rate_limiter = Arc::clone(&rate_limiter);
            let total_admitted = Arc::clone(&total_admitted);
            s.spawn(move |_| {
                for _ in 0..MAX_REQUESTS + 1 {
                    if rate_limiter.ratelimit2(ip, now) {
                        total_admitted.fetch_add(1, Ordering::SeqCst);
                    }
                }
            });
        }
    })
    .expect("Thread failed");

    assert_eq!(total_admitted.load(Ordering::SeqCst), MAX_REQUESTS);
}
