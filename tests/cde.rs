use caith::cde::{compute_cde, interpret, CdeError, CdeResult, Element};
use caith::rollresult::{RollHistory, RollResult, TotalModifier};

fn roll_of(faces: &[u64]) -> RollResult {
    let mut r = RollResult::new();
    r.add_history(faces.to_vec(), false);
    r.compute_total(TotalModifier::Sum);
    r
}

fn expected(success: u32, lucky: u32, ill: u32, loksyu: (u32, u32), tin_ji: u32) -> CdeResult {
    CdeResult {
        success,
        lucky,
        ill,
        loksyu,
        tin_ji,
        history: Some(RollHistory::Roll(vec![1, 2, 3, 4, 5, 7, 10, 5])),
        elements: Default::default(),
    }
}

#[test]
fn test_cde() {
    let roll_mock = vec![1, 2, 3, 4, 5, 7, 10, 5];
    assert_eq!(format!("{}d10", roll_mock.len()), "8d10");

    let res = compute_cde(&roll_of(&roll_mock), "fire").unwrap();
    assert_eq!(expected(2, 3, 1, (0, 1), 1), res);
    println!("{}", res.render());

    let res = compute_cde(&roll_of(&roll_mock), "earth").unwrap();
    assert_eq!(expected(3, 1, 2, (0, 1), 1), res);
    println!("{}", res.render());

    let res = compute_cde(&roll_of(&roll_mock), "metal").unwrap();
    assert_eq!(expected(1, 1, 3, (1, 0), 2), res);
    println!("{}", res.render());

    let res = compute_cde(&roll_of(&roll_mock), "water").unwrap();
    assert_eq!(expected(1, 1, 1, (1, 1), 3), res);
    println!("{}", res.render());

    let res = compute_cde(&roll_of(&roll_mock), "wood").unwrap();
    assert_eq!(expected(1, 2, 1, (1, 2), 1), res);
    println!("{}", res.render());
}

#[test]
fn cde_keeps_roll_and_labels() {
    let res = compute_cde(&roll_of(&[1, 2, 3]), "fire").unwrap();
    match &res.history {
        Some(RollHistory::Roll(v)) => assert_eq!(v, &vec![3, 2, 1]),
        _ => panic!("the roll is kept"),
    }
    assert_eq!(res.elements[0], "㊋ fire");
    assert_eq!(res.elements[1], "㊏ earth");
    assert_eq!(res.elements[2], "㊍ wood");
    assert_eq!(res.elements[3], "㊎ metal");
    assert_eq!(res.elements[4], "㊌ water");
}

#[test]
fn cde_names_any_case_and_french() {
    let roll_mock = [1, 2, 3, 4, 5, 7, 10, 5];
    let upper = compute_cde(&roll_of(&roll_mock), "FIRE").unwrap();
    assert_eq!(expected(2, 3, 1, (0, 1), 1), upper);
    let french = compute_cde(&roll_of(&roll_mock), "Terre").unwrap();
    assert_eq!(expected(3, 1, 2, (0, 1), 1), french);
    let accented = compute_cde(&roll_of(&roll_mock), "MÉTAL").unwrap();
    assert_eq!(expected(1, 1, 3, (1, 0), 2), accented);
    assert_eq!(accented.elements[0], "㊎ metal");
}

#[test]
fn cde_unknown_element() {
    let res = compute_cde(&roll_of(&[1, 2]), "air");
    assert_eq!(res.err(), Some(CdeError::MalformedInput));
}

#[test]
fn cde_composite_roll_is_shape_mismatch() {
    let left = roll_of(&[3, 4]);
    let right = roll_of(&[7]);
    let both = left.add(right);
    assert_eq!(compute_cde(&both, "fire").err(), Some(CdeError::ShapeMismatch));
}

#[test]
fn cde_fudge_roll_is_shape_mismatch() {
    let mut r = RollResult::new();
    r.add_history(vec![1, 6], true);
    assert_eq!(compute_cde(&r, "fire").err(), Some(CdeError::ShapeMismatch));
    assert_eq!(compute_cde(&RollResult::with_total(3), "fire").err(), Some(CdeError::ShapeMismatch));
    assert_eq!(compute_cde(&RollResult::new(), "fire").err(), Some(CdeError::ShapeMismatch));
}

#[test]
fn cde_shape_tested_before_name() {
    let r = RollResult::with_total(3);
    assert_eq!(compute_cde(&r, "air").err(), Some(CdeError::ShapeMismatch));
}

#[test]
fn element_from_lowercase_names() {
    assert_eq!(Element::from_lowercase("feu"), Some(Element::Fire));
    assert_eq!(Element::from_lowercase("terre"), Some(Element::Earth));
    assert_eq!(Element::from_lowercase("métal"), Some(Element::Metal));
    assert_eq!(Element::from_lowercase("eau"), Some(Element::Water));
    assert_eq!(Element::from_lowercase("bois"), Some(Element::Wood));
    assert_eq!(Element::from_lowercase("wood"), Some(Element::Wood));
    assert_eq!(Element::from_lowercase("Fire"), None);
    assert_eq!(Element::from_lowercase(""), None);
}

#[test]
fn interpret_with_element() {
    let res = interpret(&roll_of(&[1, 2, 3, 4, 5, 7, 10, 5]), Element::Water).unwrap();
    assert_eq!(expected(1, 1, 1, (1, 1), 3), res);
    let none = interpret(&RollResult::new(), Element::Water);
    assert_eq!(none.err(), Some(CdeError::ShapeMismatch));
}

#[test]
fn cde_equality_ignores_roll_and_labels() {
    let a = compute_cde(&roll_of(&[2, 7]), "fire").unwrap();
    let b = CdeResult {
        success: 2,
        lucky: 0,
        ill: 0,
        loksyu: (0, 0),
        tin_ji: 0,
        history: None,
        elements: Default::default(),
    };
    assert_eq!(a, b);
    let c = CdeResult { success: 1, ..b };
    assert_ne!(a, c);
}

#[test]
fn cde_render() {
    let res = compute_cde(&roll_of(&[1, 2, 3, 4, 5, 7, 10, 5]), "fire").unwrap();
    assert_eq!(
        res.render(),
        "[10, 7, 5, 5, 4, 3, 2, 1]\nSuccess (㊋ fire): 2\nLucky dice (㊏ earth): 3\nIll dice (㊍ wood): 1\nLoksyu (㊎ metal): 0 ● Yin / 1 ○ Yang\nTin Ji (㊌ water): 1\n"
    );
}
