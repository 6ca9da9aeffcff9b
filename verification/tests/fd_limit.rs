use std::cell::Cell;

use geph_bootstrap::fd_limit::{
    largest_accepted, maximize_fd_limit, probe_accepted, Found, HIGHEST_LIMIT, LOWEST_LIMIT,
    MOST_PROBES,
};

#[test]
fn bounds_of_the_search() {
    assert_eq!(LOWEST_LIMIT, 1);
    assert_eq!(HIGHEST_LIMIT, 65536);
    assert_eq!(MOST_PROBES, 16);
}

#[test]
fn probe_is_accepted_when_the_limit_in_force_reaches_the_request() {
    assert!(probe_accepted(4096, Some(4096)));
    assert!(probe_accepted(4096, Some(1_048_576)));
    assert!(probe_accepted(1, Some(1)));
}

#[test]
fn probe_is_rejected_when_less_was_granted() {
    assert!(!probe_accepted(4096, Some(4095)));
    assert!(!probe_accepted(65536, Some(1024)));
    assert!(!probe_accepted(1, Some(0)));
}

#[test]
fn failed_probe_counts_as_zero_granted() {
    assert!(!probe_accepted(1, None));
    assert!(!probe_accepted(65536, None));
    assert!(probe_accepted(0, None));
}

#[test]
fn threshold_4096_gives_4096() {
    assert_eq!(largest_accepted(|n| n <= 4096), Found { largest: 4096, probes: 16 });
}

#[test]
fn rejecting_everything_gives_the_lower_bound() {
    assert_eq!(largest_accepted(|_| false).largest, 1);
}

#[test]
fn accepting_everything_gives_the_upper_bound() {
    assert_eq!(largest_accepted(|_| true).largest, 65536);
}

#[test]
fn every_threshold_near_the_ends_is_found() {
    for threshold in [1u64, 2, 3, 4, 5, 65532, 65533, 65534, 65535, 65536] {
        assert_eq!(largest_accepted(|n| n <= threshold).largest, threshold);
    }
}

#[test]
fn powers_of_two_and_their_neighbours_are_found() {
    let mut power = 2u64;
    while power <= 65536 {
        for threshold in [power - 1, power, power + 1] {
            if threshold <= 65536 {
                assert_eq!(largest_accepted(|n| n <= threshold).largest, threshold);
            }
        }
        power *= 2;
    }
}

#[test]
fn threshold_above_the_candidates_gives_the_upper_bound() {
    assert_eq!(largest_accepted(|n| n <= 1_000_000).largest, 65536);
}

#[test]
fn threshold_below_the_candidates_gives_the_lower_bound() {
    assert_eq!(largest_accepted(|n| n == 0).largest, 1);
}

#[test]
fn lower_bound_is_never_probed() {
    let asked_for_lowest = Cell::new(false);
    let found = largest_accepted(|n| {
        if n == 1 {
            asked_for_lowest.set(true);
        }
        n <= 1
    });
    assert_eq!(found.largest, 1);
    assert!(!asked_for_lowest.get());
}

#[test]
fn probes_stay_within_the_candidates() {
    let lowest = Cell::new(u64::MAX);
    let highest = Cell::new(0u64);
    for threshold in [1u64, 777, 4096, 65536] {
        largest_accepted(|n| {
            lowest.set(lowest.get().min(n));
            highest.set(highest.get().max(n));
            n <= threshold
        });
    }
    assert!(lowest.get() >= 2);
    assert!(highest.get() <= 65536);
}

#[test]
fn search_takes_at_most_seventeen_probes() {
    for threshold in [1u64, 2, 100, 4095, 4096, 4097, 32768, 32769, 65535, 65536] {
        let probes = Cell::new(0u64);
        let found = largest_accepted(|n| {
            probes.set(probes.get() + 1);
            n <= threshold
        });
        assert_eq!(found.largest, threshold);
        assert!(probes.get() <= 17);
        assert!(found.probes <= 16);
    }
}

#[test]
fn search_counts_the_probes_it_makes() {
    let probes = Cell::new(0u64);
    let found = largest_accepted(|n| {
        probes.set(probes.get() + 1);
        n <= 4096
    });
    assert_eq!(probes.get(), 16);
    assert_eq!(found.probes, 16);
}

#[test]
fn first_probe_is_the_midpoint() {
    let first = Cell::new(0u64);
    largest_accepted(|n| {
        if first.get() == 0 {
            first.set(n);
        }
        false
    });
    assert_eq!(first.get(), 32769);
}

#[test]
fn maximized_limit_is_a_candidate_and_in_force() {
    let applied = maximize_fd_limit();
    assert!(applied >= 1);
    assert!(applied <= 65536);
    let in_force = rlimit::utils::increase_nofile_limit(applied).unwrap_or_default();
    assert!(applied == 1 || in_force >= applied);
}

#[test]
fn maximizing_twice_gives_the_same_limit() {
    let first = maximize_fd_limit();
    let second = maximize_fd_limit();
    assert_eq!(first, second);
}
