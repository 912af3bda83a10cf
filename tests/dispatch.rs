use crescendo::network_stats::{per_second, BatchOutcome, NetworkStats};
use crescendo::payload_queue::PayloadQueue;
use crescendo::rpc::{count_error_markers, is_success_status, rpc_batch_body};
use crescendo::stats::Stats;

#[test]
fn batch_body_of_two_payloads() {
    let body = rpc_batch_body(&vec![vec![0xab, 0x01], vec![0x00, 0xff, 0x10]]);
    assert_eq!(
        body,
        format!(
            "{}{}",
            r#"[{"jsonrpc":"2.0","method":"eth_sendRawTransaction","params":["0xab01"],"id":1},"#,
            r#"{"jsonrpc":"2.0","method":"eth_sendRawTransaction","params":["0x00ff10"],"id":2}]"#
        )
    );
}

#[test]
fn batch_body_ids_count_from_one() {
    let txs: Vec<Vec<u8>> = (0..12u8).map(|i| vec![i]).collect();
    let body = rpc_batch_body(&txs);
    assert!(body.starts_with("[{"));
    assert!(body.ends_with(r#""params":["0x0b"],"id":12}]"#));
    assert_eq!(body.matches("eth_sendRawTransaction").count(), 12);
}

#[test]
fn empty_batch_body() {
    assert_eq!(rpc_batch_body(&Vec::new()), "[]");
}

#[test]
fn counts_error_markers() {
    let reply = br#"[{"jsonrpc":"2.0","result":"0x1","id":1},{"jsonrpc":"2.0","error":{"code":-32000},"id":2},{"error":{},"id":3}]"#;
    assert_eq!(count_error_markers(reply), 2);
    assert_eq!(count_error_markers(b""), 0);
    assert_eq!(count_error_markers(b"\"error\""), 0);
    assert_eq!(count_error_markers(b"\"error\":\"error\":"), 2);
    assert_eq!(count_error_markers(b"errors: \"Error\":"), 0);
}

#[test]
fn success_statuses() {
    assert!(is_success_status(200));
    assert!(is_success_status(204));
    assert!(is_success_status(299));
    assert!(!is_success_status(199));
    assert!(!is_success_status(300));
    assert!(!is_success_status(500));
}

fn reply_with_two_errors() -> Vec<u8> {
    let mut items = Vec::new();
    for id in 1..=10 {
        if id == 3 || id == 7 {
            items.push(format!(r#"{{"jsonrpc":"2.0","error":{{"code":-32000,"message":"nonce"}},"id":{id}}}"#));
        } else {
            items.push(format!(r#"{{"jsonrpc":"2.0","result":"0x{id:064x}","id":{id}}}"#));
        }
    }
    format!("[{}]", items.join(",")).into_bytes()
}

#[test]
fn per_item_error_accounting() {
    let mut stats = NetworkStats::new();
    let n = 25u64;
    for _ in 0..n {
        let pause = stats.record_batch(10, &BatchOutcome::Delivered(reply_with_two_errors()));
        assert!(!pause);
    }
    assert_eq!(stats.errors(), 2 * n);
    assert_eq!(stats.requests(), 8 * n);
}

#[test]
fn transport_errors_count_whole_batches() {
    let mut stats = NetworkStats::new();
    let batch_factor = 16usize;
    for _ in 0..5 {
        assert!(stats.record_batch(batch_factor, &BatchOutcome::TransportError));
    }
    assert_eq!(stats.errors(), 5 * batch_factor as u64);
    assert_eq!(stats.requests(), 0);
    assert!(!stats.record_batch(batch_factor, &BatchOutcome::Delivered(b"[]".to_vec())));
    assert_eq!(stats.requests(), batch_factor as u64);
    assert_eq!(stats.errors(), 5 * batch_factor as u64);
}

#[test]
fn bad_status_and_unreadable_body_fail_the_batch() {
    let mut stats = NetworkStats::new();
    assert!(stats.record_batch(4, &BatchOutcome::BadStatus(503)));
    assert!(stats.record_batch(3, &BatchOutcome::BodyUnreadable));
    assert_eq!(stats.errors(), 7);
    assert_eq!(stats.requests(), 0);
}

#[test]
fn more_markers_than_items() {
    let mut stats = NetworkStats::new();
    stats.record_batch(1, &BatchOutcome::Delivered(b"\"error\":\"error\":".to_vec()));
    assert_eq!(stats.errors(), 2);
    assert_eq!(stats.requests(), 0);
}

#[test]
fn counters_saturate() {
    let mut stats = NetworkStats::new();
    stats.inc_requests_by(usize::MAX);
    stats.inc_requests_by(5);
    assert_eq!(stats.requests(), u64::MAX);
    stats.inc_errors_by(3);
    assert_eq!(stats.errors(), 3);
}

#[test]
fn rates_per_second() {
    assert_eq!(per_second(1_000, 400, 3), 200);
    assert_eq!(per_second(5, 5, 1), 0);
}

#[test]
fn single_request_stats() {
    let mut s = Stats::new();
    s.inc_requests();
    s.inc_requests();
    s.inc_errors();
    assert_eq!((s.requests(), s.errors()), (2, 1));
}

#[test]
fn payload_queue_keeps_order() {
    let mut q = PayloadQueue::new();
    assert_eq!(q.queue_len(), 0);
    q.push_payload(vec![1]);
    q.push_payload(vec![2, 3]);
    assert_eq!(q.queue_len(), 2);
}
