use imprint_of_light::csg::{
    complement_is_inside, intersect_hits, intersect_is_inside, union_hits, union_is_inside,
    Candidate,
};

fn cand(x: f64, child: usize, inside: Vec<bool>) -> Candidate<f64> {
    Candidate { hit: x, child, inside }
}

// Two unit circles centred at x = 0 and x = 1, a ray along the x axis from
// x = -2: circle 0 is crossed at -1 and 1, circle 1 at 0 and 2.
fn overlapping_circles() -> Vec<Candidate<f64>> {
    vec![
        cand(-1.0, 0, vec![false, false]),
        cand(1.0, 0, vec![false, true]),
        cand(0.0, 1, vec![true, false]),
        cand(2.0, 1, vec![false, false]),
    ]
}

#[test]
fn union_of_overlapping_circles_reports_outer_crossings() {
    assert_eq!(union_hits(&overlapping_circles()), vec![-1.0, 2.0]);
}

#[test]
fn union_contains_points_of_either_child() {
    assert!(union_is_inside(&vec![true, false]));
    assert!(union_is_inside(&vec![false, true]));
    assert!(union_is_inside(&vec![true, true]));
    assert!(!union_is_inside(&vec![false, false]));
    assert!(!union_is_inside(&vec![]));
}

#[test]
fn intersect_of_overlapping_circles_reports_inner_crossings() {
    assert_eq!(intersect_hits(&overlapping_circles()), vec![1.0, 0.0]);
}

#[test]
fn intersect_contains_points_of_every_child() {
    assert!(intersect_is_inside(&vec![true, true]));
    assert!(!intersect_is_inside(&vec![true, false]));
    assert!(!intersect_is_inside(&vec![false, true]));
    assert!(intersect_is_inside(&vec![]));
}

#[test]
fn single_child_reports_every_hit() {
    let c = vec![cand(-1.0, 0, vec![false]), cand(1.0, 0, vec![true])];
    assert_eq!(union_hits(&c), vec![-1.0, 1.0]);
    assert_eq!(intersect_hits(&c), vec![-1.0, 1.0]);
}

#[test]
fn no_children_report_no_hits() {
    let c: Vec<Candidate<f64>> = Vec::new();
    assert!(union_hits(&c).is_empty());
    assert!(intersect_hits(&c).is_empty());
}

#[test]
fn own_child_does_not_hide_its_hit() {
    // whether the producing child contains the point plays no part
    let c = vec![cand(3.0, 1, vec![false, true, false])];
    assert_eq!(union_hits(&c), vec![3.0]);
    let c = vec![cand(3.0, 1, vec![true, false, true])];
    assert_eq!(intersect_hits(&c), vec![3.0]);
}

#[test]
fn union_of_three_drops_hits_hidden_by_any_other_child() {
    let c = vec![
        cand(1.0, 0, vec![false, false, true]),
        cand(2.0, 1, vec![false, false, false]),
        cand(3.0, 2, vec![true, false, false]),
        cand(4.0, 2, vec![false, false, true]),
    ];
    assert_eq!(union_hits(&c), vec![2.0, 4.0]);
}

#[test]
fn complement_negates_containment() {
    // a unit circle contains (0, 0) but not (2, 0)
    assert!(!complement_is_inside(true));
    assert!(complement_is_inside(false));
}
