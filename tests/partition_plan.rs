use site_pulse::partition::{plan, worker_indices, PlanError};

#[test]
fn five_targets_over_two_workers() {
    let p = plan(2, 5).unwrap();
    assert_eq!(p, vec![vec![0, 2, 4], vec![1, 3]]);
    let total: usize = p.iter().map(|w| w.len()).sum();
    assert_eq!(total, 5);
}

#[test]
fn zero_workers_is_refused() {
    assert_eq!(plan(0, 3), Err(PlanError::NoWorkers));
}

#[test]
fn more_workers_than_targets_leaves_some_idle() {
    let p = plan(4, 2).unwrap();
    assert_eq!(p, vec![vec![0], vec![1], vec![], vec![]]);
}

#[test]
fn strides_cover_every_index_once() {
    for w in 1..6usize {
        for n in 0..12usize {
            let mut seen = vec![0usize; n];
            for i in 0..w {
                for j in worker_indices(i, w, n) {
                    assert_eq!(j % w, i);
                    seen[j] += 1;
                }
            }
            assert!(seen.iter().all(|&c| c == 1));
        }
    }
}

#[test]
fn empty_target_set_gives_empty_strides() {
    assert_eq!(worker_indices(0, 3, 0), Vec::<usize>::new());
}
