use raytrace::{closest_member, pick_root, Root};

#[test]
fn tangent_or_missing_ray_reports_no_root() {
    assert_eq!(pick_root(false, true, true), None);
    assert_eq!(pick_root(false, false, false), None);
}

#[test]
fn nearer_root_wins_when_inside() {
    assert_eq!(pick_root(true, true, true), Some(Root::Near));
    assert_eq!(pick_root(true, true, false), Some(Root::Near));
}

#[test]
fn farther_root_when_nearer_is_outside() {
    assert_eq!(pick_root(true, false, true), Some(Root::Far));
}

#[test]
fn no_root_inside_interval_misses() {
    assert_eq!(pick_root(true, false, false), None);
}

#[test]
fn closest_member_is_last_to_report() {
    assert_eq!(closest_member(&vec![true, false, true, false]), Some(2));
    assert_eq!(closest_member(&vec![true]), Some(0));
    assert_eq!(closest_member(&vec![false, false, true]), Some(2));
}

#[test]
fn closest_member_none_without_report() {
    assert_eq!(closest_member(&Vec::new()), None);
    assert_eq!(closest_member(&vec![false, false, false]), None);
}
