use imprint_of_light::scene::nearest;

#[test]
fn nearest_of_no_hits_is_none() {
    assert_eq!(nearest(&vec![]), None);
}

#[test]
fn nearest_picks_smallest_key() {
    assert_eq!(nearest(&vec![7, 3, 9, 4]), Some(1));
    assert_eq!(nearest(&vec![5]), Some(0));
    assert_eq!(nearest(&vec![9, 8, 7, 1]), Some(3));
}

#[test]
fn nearest_keeps_first_on_ties() {
    assert_eq!(nearest(&vec![4, 2, 6, 2, 2]), Some(1));
    assert_eq!(nearest(&vec![3, 3, 3]), Some(0));
}

#[test]
fn nearest_orders_distances_by_their_bits() {
    let d: Vec<f64> = vec![2.5, 1.0, 1.0000001, 3.0];
    let keys: Vec<u64> = d.iter().map(|x| x.to_bits()).collect();
    assert_eq!(nearest(&keys), Some(1));
}
