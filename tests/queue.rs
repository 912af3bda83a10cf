use std::time::{Duration, Instant};

use crescendo::config::RateLimitingConfig;
use crescendo::tx_queue::{queue_rates, select_rate_limit, QueueSample, TxQueue};

fn wait(d: Duration) {
    let start = Instant::now();
    while start.elapsed() < d {
        std::hint::spin_loop();
    }
}

fn payload(i: u32) -> Vec<u8> {
    i.to_be_bytes().to_vec()
}

fn filled(rate: u64, n: u32) -> TxQueue {
    let mut q = TxQueue::new(rate);
    q.push_txs((0..n).map(payload).collect());
    q
}

#[test]
fn pop_zero_takes_nothing() {
    let mut q = filled(100, 5);
    wait(Duration::from_millis(1_100));
    assert!(q.pop_at_most(0).is_none());
    assert_eq!(q.queue_len(), 5);
    assert_eq!(q.total_popped(), 0);
    assert_eq!(q.available_tokens(), 0);
}

#[test]
fn pop_from_empty_queue_takes_nothing() {
    let mut q = TxQueue::new(100);
    wait(Duration::from_millis(1_100));
    assert!(q.pop_at_most(8).is_none());
    assert_eq!(q.total_popped(), 0);
    assert_eq!(q.available_tokens(), 0);
}

#[test]
fn fresh_bucket_grants_nothing() {
    let mut q = filled(100, 5);
    assert!(q.pop_at_most(5).is_none());
    assert_eq!(q.queue_len(), 5);
    assert_eq!(q.total_added(), 5);
}

#[test]
fn one_second_grants_at_most_the_rate() {
    let mut q = filled(5, 100);
    let start = Instant::now();
    let mut popped = 0usize;
    while start.elapsed() < Duration::from_millis(1_500) {
        if let Some(batch) = q.pop_at_most(100) {
            popped += batch.len();
        }
        wait(Duration::from_millis(10));
    }
    assert!(popped >= 1);
    assert!(popped <= 6);
    assert_eq!(q.total_popped() as usize, popped);
    assert_eq!(q.queue_len(), 100 - popped);
}

#[test]
fn pops_keep_publication_order() {
    let mut q = filled(1_000, 100);
    let mut seen = Vec::new();
    while q.queue_len() > 0 {
        let n = q.queue_len().min(8);
        let batch = q.drain_front(n).unwrap();
        assert!(batch.len() <= 8);
        seen.extend(batch);
    }
    let expected: Vec<Vec<u8>> = (0..100).map(payload).collect();
    assert_eq!(seen, expected);
    assert_eq!(q.total_popped(), 100);
    assert_eq!(q.total_added(), 100);
}

#[test]
fn drain_zero_is_none() {
    let mut q = filled(10, 3);
    assert!(q.drain_front(0).is_none());
    assert_eq!(q.queue_len(), 3);
}

#[test]
fn push_tx_appends_at_tail() {
    let mut q = TxQueue::new(10);
    q.push_tx(vec![1]);
    q.push_tx(vec![2]);
    assert_eq!(q.total_added(), 2);
    assert_eq!(q.drain_front(2).unwrap(), vec![vec![1], vec![2]]);
}

fn schedule() -> RateLimitingConfig {
    RateLimitingConfig { initial_ratelimit: 100, ratelimit_thresholds: vec![(1_000, 500), (5_000, 2_500)] }
}

#[test]
fn schedule_selects_highest_reached_step() {
    let c = schedule();
    assert_eq!(select_rate_limit(&c, 0), 100);
    assert_eq!(select_rate_limit(&c, 999), 100);
    assert_eq!(select_rate_limit(&c, 1_000), 500);
    assert_eq!(select_rate_limit(&c, 4_999), 500);
    assert_eq!(select_rate_limit(&c, 5_000), 2_500);
    assert_eq!(select_rate_limit(&c, u64::MAX), 2_500);
    let none = RateLimitingConfig { initial_ratelimit: 7, ratelimit_thresholds: Vec::new() };
    assert_eq!(select_rate_limit(&none, 123), 7);
}

#[test]
fn rate_steps_up_as_pops_cross_thresholds() {
    let c = schedule();
    let mut q = filled(100, 6_000);
    assert!(!q.adjust_rate_limit(&c));
    assert_eq!(q.rate_limit(), 100);
    q.drain_front(1_000).unwrap();
    assert!(q.adjust_rate_limit(&c));
    assert_eq!(q.rate_limit(), 500);
    assert_eq!(q.available_tokens(), 0);
    assert!(!q.adjust_rate_limit(&c));
    q.drain_front(4_000).unwrap();
    assert!(q.adjust_rate_limit(&c));
    assert_eq!(q.rate_limit(), 2_500);
    assert_eq!(q.available_tokens(), 0);
}

#[test]
fn rate_can_step_down() {
    let mut q = TxQueue::new(500);
    assert!(q.apply_rate_limit(200));
    assert_eq!(q.rate_limit(), 200);
    assert_eq!(q.available_tokens(), 0);
    assert!(!q.apply_rate_limit(200));
}

#[test]
fn rates_between_samples() {
    let last = QueueSample { total_added: 100, total_popped: 40, queue_len: 60 };
    let current = QueueSample { total_added: 400, total_popped: 100, queue_len: 45 };
    let r = queue_rates(&current, &last, 2);
    assert_eq!(r.added_per_second, 150);
    assert_eq!(r.popped_per_second, 30);
    assert_eq!(r.delta_per_second, -7);
    let grow = queue_rates(&last, &QueueSample { total_added: 100, total_popped: 40, queue_len: 0 }, 4);
    assert_eq!(grow.delta_per_second, 15);
}

#[test]
fn sample_reads_counters() {
    let mut q = filled(10, 4);
    q.drain_front(1).unwrap();
    let s = q.sample();
    assert_eq!((s.total_added, s.total_popped, s.queue_len), (4, 1, 3));
}

#[test]
fn new_queue_bucket_settings() {
    let q = TxQueue::new(250);
    assert_eq!(q.rate_limit(), 250);
    assert_eq!(q.burst_limit(), 250);
    assert_eq!(q.refill_interval_nanos(), 1_000_000_000);
    assert_eq!(q.available_tokens(), 0);
}

#[test]
fn held_tokens_guarantee_a_full_pop() {
    let mut q = filled(5, 20);
    wait(Duration::from_millis(1_100));
    let first = q.pop_at_most(1).unwrap();
    assert_eq!(first, vec![payload(0)]);
    assert_eq!(q.available_tokens(), 4);
    let next = q.pop_at_most(3).unwrap();
    assert_eq!(next, vec![payload(1), payload(2), payload(3)]);
    assert_eq!(q.available_tokens(), 1);
    assert_eq!(q.burst_limit(), 5);
}

#[test]
fn rate_change_sets_burst() {
    let mut q = TxQueue::new(100);
    q.apply_rate_limit(700);
    assert_eq!(q.burst_limit(), 700);
    q.apply_rate_limit(50);
    assert_eq!(q.burst_limit(), 50);
    assert_eq!(q.rate_limit(), 50);
    q.push_tx(vec![1]);
    assert_eq!(q.burst_limit(), 50);
}
