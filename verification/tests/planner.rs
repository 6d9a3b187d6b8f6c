use workflow::planner::{find_join, find_partner, plan_joins};
use workflow::work::JoinReq;

fn unmerged(n: u32, plan: &[JoinReq]) -> Vec<u64> {
    let total = n as u64 + plan.len() as u64;
    (0..total)
        .filter(|j| !plan.iter().any(|join| join.left == *j || join.right == *j))
        .collect()
}

#[test]
fn no_segments_no_joins() {
    assert_eq!(plan_joins(0), vec![]);
}

#[test]
fn one_segment_needs_no_join() {
    assert_eq!(plan_joins(1), vec![]);
    assert_eq!(unmerged(1, &plan_joins(1)), vec![0]);
}

#[test]
fn three_segments_take_two_joins_with_a_carry() {
    assert_eq!(
        plan_joins(3),
        vec![JoinReq { idx: 3, left: 0, right: 1 }, JoinReq { idx: 4, left: 2, right: 3 }]
    );
}

#[test]
fn five_segments_take_four_joins() {
    assert_eq!(
        plan_joins(5),
        vec![
            JoinReq { idx: 5, left: 0, right: 1 },
            JoinReq { idx: 6, left: 2, right: 3 },
            JoinReq { idx: 7, left: 4, right: 5 },
            JoinReq { idx: 8, left: 6, right: 7 },
        ]
    );
}

#[test]
fn join_count_is_one_less_than_segments() {
    for n in 1..=64u32 {
        let plan = plan_joins(n);
        assert_eq!(plan.len() as u32, n - 1);
        assert_eq!(unmerged(n, &plan), vec![2 * n as u64 - 2]);
    }
}

#[test]
fn every_join_merges_receipts_that_exist_before_it() {
    for n in [2u32, 3, 4, 7, 8, 9, 31, 32, 33] {
        for join in plan_joins(n) {
            assert!(join.left < join.right);
            assert!(join.right < join.idx);
        }
    }
}

#[test]
fn no_receipt_is_merged_twice() {
    for n in [2u32, 3, 4, 7, 8, 9, 31, 32, 33] {
        let plan = plan_joins(n);
        let mut inputs: Vec<u64> = plan.iter().flat_map(|j| [j.left, j.right]).collect();
        inputs.sort();
        let expected: Vec<u64> = (0..2 * n as u64 - 2).collect();
        assert_eq!(inputs, expected);
    }
}

#[test]
fn find_join_agrees_with_the_plan() {
    let plan = plan_joins(5);
    assert_eq!(find_join(5, 0), Some(plan[0]));
    assert_eq!(find_join(5, 1), Some(plan[0]));
    assert_eq!(find_join(5, 4), Some(plan[2]));
    assert_eq!(find_join(5, 5), Some(plan[2]));
    assert_eq!(find_join(5, 7), Some(plan[3]));
    assert_eq!(find_join(5, 8), None);
    assert_eq!(find_join(1, 0), None);
    assert_eq!(find_join(0, 0), None);
}

#[test]
fn partners_come_in_pairs() {
    assert_eq!(find_partner(0), 1);
    assert_eq!(find_partner(1), 0);
    assert_eq!(find_partner(6), 7);
    assert_eq!(find_partner(7), 6);
}
