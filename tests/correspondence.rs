use icp_registration::correspondence::closest_index;

#[test]
fn no_target_points_give_no_correspondence() {
    assert_eq!(closest_index(&Vec::new()), None);
}

#[test]
fn single_target_point_is_closest() {
    assert_eq!(closest_index(&vec![u64::MAX]), Some(0));
}

#[test]
fn smallest_key_wins() {
    assert_eq!(closest_index(&vec![27, 13, 40, 14]), Some(1));
    assert_eq!(closest_index(&vec![9, 8, 7, 6, 5]), Some(4));
}

#[test]
fn ties_go_to_the_first_occurrence() {
    assert_eq!(closest_index(&vec![5, 3, 7, 3, 3]), Some(1));
    assert_eq!(closest_index(&vec![0, 0, 0]), Some(0));
}

#[test]
fn distance_bits_order_like_distances() {
    let distances: [f64; 4] = [2.25, 0.5, 1e-9, 3.0];
    let keys: Vec<u64> = distances.iter().map(|d| d.to_bits()).collect();
    assert_eq!(closest_index(&keys), Some(2));

    let distances: [f32; 3] = [0.75, 0.0, 0.0];
    let keys: Vec<u64> = distances.iter().map(|d| u64::from(d.to_bits())).collect();
    assert_eq!(closest_index(&keys), Some(1));
}
