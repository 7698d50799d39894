use caith::rollresult::{RollHistory, RollResult, TotalModifier};

fn pool(groups: &[&[u64]]) -> RollResult {
    let mut r = RollResult::new();
    for g in groups {
        r.add_history(g.to_vec(), false);
    }
    r
}

fn total(groups: &[&[u64]], m: TotalModifier) -> i64 {
    pool(groups).compute_total(m)
}

#[test]
fn constants_added() {
    let r = RollResult::with_total(3).add(RollResult::with_total(4));
    assert_eq!(r.get_total(), 7);
    let h = r.get_history();
    assert_eq!(h.len(), 3);
    assert!(matches!(h[0], RollHistory::Value(3)));
    assert!(matches!(h[1], RollHistory::Separator("+")));
    assert!(matches!(h[2], RollHistory::Value(4)));
}

#[test]
fn operators_combine_totals() {
    assert_eq!(RollResult::with_total(3).sub(RollResult::with_total(10)).get_total(), -7);
    assert_eq!(RollResult::with_total(6).mul(RollResult::with_total(7)).get_total(), 42);
    assert_eq!(RollResult::with_total(7).div(RollResult::with_total(2)).get_total(), 3);
    let neg = RollResult::with_total(3).sub(RollResult::with_total(10));
    assert_eq!(neg.div(RollResult::with_total(2)).get_total(), -3);
    let r = RollResult::with_total(8).div(RollResult::with_total(4));
    assert!(matches!(r.get_history()[1], RollHistory::Separator("/")));
    let r = RollResult::with_total(8).mul(RollResult::with_total(4));
    assert!(matches!(r.get_history()[1], RollHistory::Separator("*")));
    let r = RollResult::with_total(8).sub(RollResult::with_total(4));
    assert!(matches!(r.get_history()[1], RollHistory::Separator("-")));
}

#[test]
fn empty_right_operand_adds_no_separator() {
    let r = RollResult::with_total(5).add(RollResult::new());
    assert_eq!(r.get_history().len(), 1);
    assert_eq!(r.get_total(), 5);
}

#[test]
fn left_reason_is_kept() {
    let mut a = RollResult::with_total(1);
    a.add_reason("attack".to_string());
    let mut b = RollResult::with_total(2);
    b.add_reason("damage".to_string());
    let r = a.add(b);
    assert_eq!(r.get_reason(), Some(&"attack".to_string()));
    assert_eq!(RollResult::new().get_reason(), None);
}

#[test]
fn history_sorted_largest_first() {
    let r = pool(&[&[3, 1, 6, 2]]);
    match &r.get_history()[0] {
        RollHistory::Roll(v) => assert_eq!(v, &vec![6, 3, 2, 1]),
        _ => panic!("a roll is recorded"),
    }
    let mut f = RollResult::new();
    f.add_history(vec![1, 6, 3], true);
    match &f.get_history()[0] {
        RollHistory::Fudge(v) => assert_eq!(v, &vec![6, 3, 1]),
        _ => panic!("a fudge roll is recorded"),
    }
}

#[test]
fn keep_and_drop_totals() {
    let g: &[&[u64]] = &[&[4, 1, 6, 3]];
    assert_eq!(total(g, TotalModifier::Sum), 14);
    assert_eq!(total(g, TotalModifier::KeepHi(3)), 13);
    assert_eq!(total(g, TotalModifier::KeepLo(2)), 4);
    assert_eq!(total(g, TotalModifier::DropHi(1)), 8);
    assert_eq!(total(g, TotalModifier::DropLo(1)), 13);
    assert_eq!(total(g, TotalModifier::KeepHi(0)), 0);
    assert_eq!(total(g, TotalModifier::DropLo(4)), 0);
    assert_eq!(total(g, TotalModifier::KeepLo(4)), 14);
}

#[test]
fn pool_spans_groups_and_constants() {
    let mut p = pool(&[&[2, 5], &[6, 1]]);
    assert_eq!(p.compute_total(TotalModifier::KeepHi(2)), 11);
    let mut left = pool(&[&[2, 5]]);
    left.compute_total(TotalModifier::Sum);
    let mut right = pool(&[&[6]]);
    right.compute_total(TotalModifier::Sum);
    let mut r = left.add(RollResult::with_total(3)).mul(right);
    assert_eq!(r.get_total(), 60);
    assert_eq!(r.compute_total(TotalModifier::KeepHi(1)), 60);
    assert_eq!(r.get_history().len(), 5);
}

#[test]
fn keep_high_beats_keep_low() {
    let g: &[&[u64]] = &[&[5, 2, 9, 2, 7]];
    for n in 0..5 {
        assert!(total(g, TotalModifier::KeepHi(n)) >= total(g, TotalModifier::KeepLo(n)));
    }
    assert_eq!(total(g, TotalModifier::KeepHi(2)), 16);
    assert_eq!(total(g, TotalModifier::KeepLo(2)), 4);
}

#[test]
fn drop_high_plus_largest_is_sum() {
    let g: &[&[u64]] = &[&[5, 2, 9, 2, 7]];
    for n in 0..=5 {
        let dropped = total(g, TotalModifier::DropHi(n));
        let kept = total(g, TotalModifier::KeepHi(n));
        assert_eq!(dropped + kept, 25);
    }
}

#[test]
fn fudge_total() {
    let mut r = RollResult::new();
    r.add_history(vec![1, 3, 6], true);
    assert_eq!(r.compute_total(TotalModifier::Fudge), 0);
    let mut r = RollResult::new();
    r.add_history(vec![2, 4, 5, 6], true);
    assert_eq!(r.compute_total(TotalModifier::Fudge), 1);
}

#[test]
fn target_failure_total() {
    let g: &[&[u64]] = &[&[1, 8, 9, 2, 5]];
    assert_eq!(total(g, TotalModifier::TargetFailure(8, 2)), 0);
    assert_eq!(total(g, TotalModifier::TargetFailure(8, 0)), 2);
    // a value meeting both thresholds counts as a success
    assert_eq!(total(g, TotalModifier::TargetFailure(2, 8)), 3);
}

#[test]
fn computed_total_is_cached() {
    let mut r = pool(&[&[4, 1, 6, 3]]);
    assert!(r.compute_total(TotalModifier::KeepHi(1)) == 6);
    assert_eq!(r.compute_total(TotalModifier::KeepHi(1)), 6);
    assert_eq!(r.compute_total(TotalModifier::Sum), 6);
    assert_eq!(r.get_total(), 6);
    r.add_history(vec![10], false);
    assert_eq!(r.compute_total(TotalModifier::Sum), 24);
}

#[test]
fn constant_total_is_set() {
    let mut r = RollResult::with_total(12);
    assert_eq!(r.get_total(), 12);
    assert_eq!(r.compute_total(TotalModifier::KeepLo(0)), 12);
    assert_eq!(RollResult::new().get_total(), 0);
}

#[test]
fn render_combined_constants() {
    let r = RollResult::with_total(3).add(RollResult::with_total(4));
    assert_eq!(r.render(), "`3 + 4` Result: **7**");
    let r = RollResult::with_total(3).sub(RollResult::with_total(10));
    assert_eq!(r.render(), "`3 - 10` Result: **-7**");
}

#[test]
fn render_rolls_and_reason() {
    let mut r = pool(&[&[12, 3, 105]]);
    r.compute_total(TotalModifier::Sum);
    r.add_reason("fireball".to_string());
    assert_eq!(r.render(), "`[105, 12, 3]` Result: **120**, Reason: `fireball`");
    let r = r.div(RollResult::with_total(7));
    assert_eq!(r.render(), "`[105, 12, 3] / 7` Result: **17**, Reason: `fireball`");
}

#[test]
fn render_fudge_and_empty() {
    let mut f = RollResult::new();
    f.add_history(vec![1, 3, 6, 4, 2, 5], true);
    f.compute_total(TotalModifier::Fudge);
    assert_eq!(f.render(), "`[+, +, ▢, ▢, -, -]` Result: **0**");
    assert_eq!(RollResult::new().render(), "`0` Result: **0**");
    assert_eq!(RollResult::with_total(0).render(), "`0` Result: **0**");
}
