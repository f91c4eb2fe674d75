//! Bisection and linear search over releases ordered from the most recent, driven by the
//! outcome of each check.
use cargo_msrv::search_methods::{
    bisect_with_outcomes, linear_with_outcomes, Bisect, Linear, SearchAction,
};
use cargo_msrv::version::Version;

fn outcomes(space: &[Version], accept: &[Version]) -> Vec<bool> {
    space.iter().map(|v| accept.contains(v)).collect()
}

fn v(major: u64, minor: u64, patch: u64) -> Version {
    Version::new(major, minor, patch)
}

#[test]
fn bisect_regression288_all_succeed() {
    let space = [v(1, 58, 1), v(1, 57, 0), v(1, 56, 1)];
    let accept = [v(1, 58, 1), v(1, 57, 0), v(1, 56, 1)];
    let found = bisect_with_outcomes(&outcomes(&space, &accept)).unwrap();
    assert_eq!(space[found], v(1, 56, 1));
}

#[test]
fn bisect_one_option() {
    let space = [v(1, 56, 1)];
    let found = bisect_with_outcomes(&outcomes(&space, &[v(1, 56, 1)])).unwrap();
    assert_eq!(space[found], v(1, 56, 1));
}

#[test]
fn bisect_most_recent_succeeds() {
    let space = [v(1, 58, 0), v(1, 57, 0), v(1, 56, 0)];
    let found = bisect_with_outcomes(&outcomes(&space, &[v(1, 58, 0)])).unwrap();
    assert_eq!(space[found], v(1, 58, 0));
}

#[test]
fn bisect_most_recent_two_succeed() {
    let space = [v(1, 58, 0), v(1, 57, 0), v(1, 56, 0)];
    let found = bisect_with_outcomes(&outcomes(&space, &[v(1, 58, 0), v(1, 57, 0)])).unwrap();
    assert_eq!(space[found], v(1, 57, 0));
}

#[test]
fn bisect_none_succeed() {
    assert_eq!(bisect_with_outcomes(&vec![false, false, false]), None);
    assert_eq!(bisect_with_outcomes(&vec![false]), None);
}

#[test]
fn bisect_each_boundary_of_ten() {
    // Exactly the k most recent of ten releases are compatible.
    for k in 0..=10usize {
        let outcomes: Vec<bool> = (0..10).map(|i| i < k).collect();
        let expected = if k == 0 { None } else { Some(k - 1) };
        assert_eq!(bisect_with_outcomes(&outcomes), expected);
        assert_eq!(linear_with_outcomes(&outcomes), expected);
    }
}

fn bisect_checks(outcomes: &[bool]) -> (Vec<usize>, Option<usize>) {
    let mut b = Bisect::new(outcomes.len());
    let mut checked = Vec::new();
    loop {
        match b.next_action() {
            SearchAction::Check(i) => {
                checked.push(i);
                b.record(outcomes[i]);
            }
            SearchAction::Finished(r) => return (checked, r),
        }
    }
}

#[test]
fn bisect_checks_middles_in_order() {
    // Twenty releases, only the most recent is compatible: the window halves towards index 0.
    let outcomes: Vec<bool> = (0..20).map(|i| i == 0).collect();
    let (checked, found) = bisect_checks(&outcomes);
    assert_eq!(checked, vec![9, 4, 2, 1, 0]);
    assert_eq!(found, Some(0));
}

#[test]
fn bisect_checks_all_compatible() {
    // Five releases, all compatible: the oldest is checked last, once.
    let (checked, found) = bisect_checks(&[true; 5]);
    assert_eq!(checked, vec![2, 3, 4]);
    assert_eq!(found, Some(4));
}

#[test]
fn bisect_checks_none_compatible() {
    let (checked, found) = bisect_checks(&[false; 5]);
    assert_eq!(checked, vec![2, 1, 0]);
    assert_eq!(found, None);
}

#[test]
fn bisect_checks_the_last_release_once() {
    // The window closes on the last release, which is then checked for the first time.
    let (checked, found) = bisect_checks(&[true, true, false]);
    assert_eq!(checked, vec![1, 2]);
    assert_eq!(found, Some(1));
    let (checked, found) = bisect_checks(&[true, true, true]);
    assert_eq!(checked, vec![1, 2]);
    assert_eq!(found, Some(2));
}

#[test]
fn bisect_checks_each_release_at_most_once() {
    for len in 1..=9usize {
        for bits in 0u32..(1 << len) {
            let outcomes: Vec<bool> = (0..len).map(|i| bits & (1 << i) != 0).collect();
            let (checked, _) = bisect_checks(&outcomes);
            let mut sorted = checked.clone();
            sorted.sort();
            sorted.dedup();
            assert_eq!(sorted.len(), checked.len(), "{outcomes:?}");
        }
    }
}

#[test]
fn bisect_steps_count_checks_and_remaining() {
    let mut b = Bisect::new(8);
    assert_eq!(b.steps(), 7);
    b.record(true); // middle 3 compatible: the window becomes 4 to 7
    assert_eq!(b.steps(), 1 + 3);
}

#[test]
fn linear_stops_at_first_failure() {
    assert_eq!(linear_with_outcomes(&vec![true, true, false, true]), Some(1));
    assert_eq!(linear_with_outcomes(&vec![false, true]), None);
    assert_eq!(linear_with_outcomes(&vec![true, true]), Some(1));
    assert_eq!(linear_with_outcomes(&vec![]), None);
}

#[test]
fn linear_checks_from_most_recent() {
    let mut l = Linear::new(3);
    assert_eq!(l.next_action(), SearchAction::Check(0));
    l.record(true);
    assert_eq!(l.next_action(), SearchAction::Check(1));
    l.record(false);
    assert_eq!(l.next_action(), SearchAction::Finished(Some(0)));
}

#[test]
fn bisect_result_always_passed() {
    // Whatever the outcomes, a returned release passed its check.
    for bits in 0u32..(1 << 6) {
        let outcomes: Vec<bool> = (0..6).map(|i| bits & (1 << i) != 0).collect();
        if let Some(i) = bisect_with_outcomes(&outcomes) {
            assert!(outcomes[i]);
        }
    }
}

#[test]
fn bisect_checks_at_most_log2_plus_one() {
    for len in 1..=12usize {
        // The number of binary digits of len - 1.
        let halvings = (usize::BITS - (len - 1).leading_zeros()) as usize;
        for bits in 0u32..(1 << len) {
            let outcomes: Vec<bool> = (0..len).map(|i| bits & (1 << i) != 0).collect();
            let (checked, _) = bisect_checks(&outcomes);
            assert!(checked.len() <= halvings + 1, "{outcomes:?}");
        }
    }
}
