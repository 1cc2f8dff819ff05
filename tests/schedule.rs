use mdsim::pairs::partners;
use mdsim::schedule::{Action, Schedule};

fn all_actions(n: u32) -> Vec<Action> {
    let mut s = Schedule::new(n);
    let mut out = Vec::new();
    loop {
        let a = s.next_action();
        if a == Action::Finish {
            break;
        }
        out.push(a);
    }
    out
}

#[test]
fn zero_steps_only_evaluates_forces() {
    assert_eq!(all_actions(0), vec![Action::CalculateForces]);
}

#[test]
fn two_steps_in_order() {
    assert_eq!(
        all_actions(2),
        vec![
            Action::CalculateForces,
            Action::UpdatePositions,
            Action::CalculateForces,
            Action::UpdateVelocities,
            Action::UpdatePositions,
            Action::CalculateForces,
            Action::UpdateVelocities,
        ]
    );
}

#[test]
fn run_length_and_completion() {
    assert_eq!(all_actions(10_000).len(), 30_001);
    let mut s = Schedule::new(1);
    assert!(!s.is_completed());
    for _ in 0..4 {
        assert_ne!(s.next_action(), Action::Finish);
    }
    assert!(s.is_completed());
    assert_eq!(s.next_action(), Action::Finish);
    assert_eq!(s.next_action(), Action::Finish);
}

#[test]
fn lone_particle_has_no_partners() {
    assert_eq!(partners(1, 0), Vec::<usize>::new());
}

#[test]
fn partners_skip_self() {
    assert_eq!(partners(4, 0), vec![1, 2, 3]);
    assert_eq!(partners(4, 2), vec![0, 1, 3]);
    assert_eq!(partners(4, 3), vec![0, 1, 2]);
}

#[test]
fn pairs_are_visited_both_ways() {
    let n = 5;
    for i in 0..n {
        for j in 0..n {
            if i != j {
                assert!(partners(n, i).contains(&j));
                assert!(partners(n, j).contains(&i));
            }
        }
    }
}
