use crescendo::utils::format_ranges;
use crescendo::workers::{assign_workers, DesireType, WorkerType, PERCENTAGE_SCALE};

fn cores(n: usize) -> Vec<usize> {
    (0..n).collect()
}

#[test]
fn percentage_split_of_ten_cores() {
    let (assigned, counts) = assign_workers(
        cores(10),
        vec![
            (WorkerType::TxGen, DesireType::Percentage(3_000)),
            (WorkerType::Network, DesireType::Percentage(7_000)),
        ],
    );
    let producers = counts.get(WorkerType::TxGen);
    let dispatchers = counts.get(WorkerType::Network);
    assert!(producers >= 1);
    assert!(dispatchers >= 1);
    assert!(dispatchers >= producers);
    // One seed core each, then floor(8 * 0.3) = 2 and floor(8 * 0.7) = 5.
    assert_eq!(producers, 3);
    assert_eq!(dispatchers, 6);
    assert_eq!(assigned.len(), 9);
    assert_eq!(assigned[0], (9, WorkerType::TxGen));
    assert_eq!(assigned[1], (8, WorkerType::Network));
    assert_eq!(assigned[2], (7, WorkerType::TxGen));
    assert_eq!(assigned[3], (6, WorkerType::TxGen));
    assert_eq!(assigned[4], (5, WorkerType::Network));
    assert_eq!(assigned[8], (1, WorkerType::Network));
}

#[test]
fn zero_exact_and_full_share_takes_all() {
    for k in 0..12usize {
        let (assigned, counts) = assign_workers(
            cores(k),
            vec![
                (WorkerType::TxGen, DesireType::Exact(0)),
                (WorkerType::Network, DesireType::Percentage(PERCENTAGE_SCALE)),
            ],
        );
        assert_eq!(assigned.len(), k);
        assert!(assigned.iter().all(|(_, w)| *w == WorkerType::Network));
        assert_eq!(counts.get(WorkerType::Network), k as u64);
        assert_eq!(counts.get(WorkerType::TxGen), 0);
    }
}

#[test]
fn exact_requests_come_first_from_the_back() {
    let (assigned, counts) = assign_workers(
        vec![10, 11, 12, 13, 14],
        vec![
            (WorkerType::Network, DesireType::Percentage(PERCENTAGE_SCALE)),
            (WorkerType::TxGen, DesireType::Exact(2)),
        ],
    );
    assert_eq!(
        assigned,
        vec![
            (14, WorkerType::TxGen),
            (13, WorkerType::TxGen),
            (12, WorkerType::Network),
            (11, WorkerType::Network),
            (10, WorkerType::Network),
        ]
    );
    assert_eq!(counts.get(WorkerType::TxGen), 2);
    assert_eq!(counts.get(WorkerType::Network), 3);
}

#[test]
fn exact_request_larger_than_supply() {
    let (assigned, counts) = assign_workers(
        cores(3),
        vec![
            (WorkerType::TxGen, DesireType::Exact(7)),
            (WorkerType::Network, DesireType::Percentage(5_000)),
        ],
    );
    assert_eq!(assigned.len(), 3);
    assert_eq!(counts.get(WorkerType::TxGen), 3);
    assert_eq!(counts.get(WorkerType::Network), 0);
}

#[test]
fn no_cores_no_assignment() {
    let (assigned, counts) = assign_workers(
        Vec::new(),
        vec![(WorkerType::TxGen, DesireType::Percentage(5_000))],
    );
    assert!(assigned.is_empty());
    assert_eq!(counts.get(WorkerType::TxGen), 0);
}

#[test]
fn ranges_of_consecutive_runs() {
    assert_eq!(format_ranges(&[1, 2, 3, 5, 7, 8, 9]), "1-3, 5, 7-9");
}

#[test]
fn ranges_of_empty_list() {
    assert_eq!(format_ranges(&[]), "");
}

#[test]
fn ranges_of_single_values() {
    assert_eq!(format_ranges(&[42]), "42");
    assert_eq!(format_ranges(&[0, 2, 4]), "0, 2, 4");
    assert_eq!(format_ranges(&[10, 11]), "10-11");
}

#[test]
fn ranges_at_the_top_of_usize() {
    assert_eq!(format_ranges(&[usize::MAX - 1, usize::MAX, 0]), format!("{}-{}, 0", usize::MAX - 1, usize::MAX));
}
