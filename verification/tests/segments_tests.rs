use traj_propagate::segments::{
    frame_name, segment_identifier, segment_targets, INTERPOLATION_DEGREE,
};

#[test]
fn segments_use_the_j2000_frame_and_degree_seven() {
    assert_eq!(frame_name(), "J2000");
    assert_eq!(INTERPOLATION_DEGREE, 7);
}

#[test]
fn identifier_names_target_and_center() {
    assert_eq!(segment_identifier(-202, 10), "Position of -202 relative to 10");
    assert_eq!(segment_identifier(399, 0), "Position of 399 relative to 0");
    assert_eq!(segment_identifier(0, -32), "Position of 0 relative to -32");
}

#[test]
fn identifier_handles_extreme_ids() {
    assert_eq!(
        segment_identifier(i32::MIN, i32::MAX),
        "Position of -2147483648 relative to 2147483647"
    );
}

#[test]
fn every_body_but_the_center_gets_a_segment() {
    let bodies = vec![10, 399, 5, 499, -202];
    let targets = segment_targets(&bodies, 10);
    assert_eq!(targets, vec![(1, 399), (2, 5), (3, 499), (4, -202)]);
}

#[test]
fn a_center_outside_the_body_list_leaves_all_segments() {
    let bodies = vec![-32];
    let targets = segment_targets(&bodies, 10);
    assert_eq!(targets, vec![(0, -32)]);
}

#[test]
fn repeated_center_entries_are_all_skipped() {
    let bodies = vec![10, 399, 10];
    let targets = segment_targets(&bodies, 10);
    assert_eq!(targets, vec![(1, 399)]);
}

#[test]
fn no_bodies_means_no_segments() {
    assert_eq!(segment_targets(&Vec::new(), 10), Vec::<(usize, i32)>::new());
}
