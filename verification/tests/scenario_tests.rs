//! The library-side decisions of the propagation scenarios: which runs are
//! accepted, how the body ordering and the observing body are fixed, which
//! solver drives the run, how the saved fraction thins the samples, and
//! which SPK segments are planned.  The numeric integration itself and the
//! kernel I/O belong to the unverified driver and are not exercised here.

use traj_propagate::bodies::{concat_bodies, default_center};
use traj_propagate::config::{
    collect_resolved_ids, parse_method, validate_selection, validate_stride, SolverKind,
};
use traj_propagate::sampling::downsample;
use traj_propagate::segments::{segment_identifier, segment_targets};

fn labels(names: &[&str]) -> Vec<String> {
    names.iter().map(|n| n.to_string()).collect()
}

/// Saved-fraction handling as the driver computes it: `floor(1 / fts)`
/// for a fraction within `(0, 1]`.
fn stride_of(fts: f32) -> Option<usize> {
    if 0.0 < fts && fts <= 1.0 {
        Some((1.0 / fts) as usize)
    } else {
        None
    }
}

#[test]
fn maven_cruise_rk4() {
    let bodies = labels(&["Sun", "Earth", "Jupiter Barycenter", "Mars"]);
    let small_bodies = labels(&["Maven"]);
    assert!(validate_selection(&Some(bodies.clone()), &Some(small_bodies.clone()), &None, &None)
        .is_ok());
    assert_eq!(parse_method(&Some("rk4".to_string())), Ok(SolverKind::Rk4));

    let full = collect_resolved_ids(&bodies, &vec![Some(10), Some(399), Some(5), Some(499)])
        .unwrap();
    let small = collect_resolved_ids(&small_bodies, &vec![Some(-202)]).unwrap();
    let all = concat_bodies(&full, &small);
    assert_eq!(all, vec![10, 399, 5, 499, -202]);
    let cb_id = default_center(&full);
    assert_eq!(cb_id, 10);

    let stride = validate_stride(stride_of(0.1)).unwrap();
    assert_eq!(stride, 10);
    let sample_index: Vec<usize> = (0..100).collect();
    let kept = downsample(&sample_index, stride);
    assert_eq!(kept.len(), 10);
    assert_eq!(kept[1], 10);

    let targets = segment_targets(&all, cb_id);
    assert_eq!(targets, vec![(1, 399), (2, 5), (3, 499), (4, -202)]);
    assert!(targets.len() >= 4);
}

#[test]
fn maven_cruise_euler() {
    let bodies = labels(&["Sun", "Earth", "Jupiter Barycenter", "Mars"]);
    let small_bodies = labels(&["Maven"]);
    assert!(validate_selection(&Some(bodies.clone()), &Some(small_bodies.clone()), &None, &None)
        .is_ok());
    assert_eq!(parse_method(&Some("euler".to_string())), Ok(SolverKind::Euler));

    let full = collect_resolved_ids(&bodies, &vec![Some(10), Some(399), Some(5), Some(499)])
        .unwrap();
    let small = collect_resolved_ids(&small_bodies, &vec![Some(-202)]).unwrap();
    let all = concat_bodies(&full, &small);
    let cb_id = default_center(&full);
    let targets = segment_targets(&all, cb_id);
    assert_eq!(targets.len(), 4);
    assert_eq!(
        segment_identifier(targets[3].1, cb_id),
        "Position of -202 relative to 10"
    );
}

#[test]
fn voyager2_flyby_dopri45() {
    let bodies = labels(&["Sun", "Earth", "Jupiter Barycenter", "Mars"]);
    let small_bodies = labels(&["Voyager 2"]);
    assert!(validate_selection(&Some(bodies.clone()), &Some(small_bodies.clone()), &None, &None)
        .is_ok());
    assert_eq!(parse_method(&Some("dopri45".to_string())), Ok(SolverKind::Dopri45));

    let full = collect_resolved_ids(&bodies, &vec![Some(10), Some(399), Some(5), Some(499)])
        .unwrap();
    let small = collect_resolved_ids(&small_bodies, &vec![Some(-32)]).unwrap();
    let all = concat_bodies(&full, &small);
    assert_eq!(all, vec![10, 399, 5, 499, -32]);
    let cb_id = default_center(&full);
    let targets = segment_targets(&all, cb_id);
    assert_eq!(targets, vec![(1, 399), (2, 5), (3, 499), (4, -32)]);
}

#[test]
fn spk_attractors() {
    let small_bodies = labels(&["Voyager 2"]);
    let attractors = labels(&["Sun", "Earth", "Jupiter Barycenter", "Mars"]);

    // Without an observing body the attractor run is refused; with the Sun
    // as center it is accepted.
    assert!(validate_selection(&None, &Some(small_bodies.clone()), &Some(attractors.clone()), &None)
        .is_err());
    assert!(validate_selection(
        &None,
        &Some(small_bodies.clone()),
        &Some(attractors.clone()),
        &Some(10)
    )
    .is_ok());

    let small = collect_resolved_ids(&small_bodies, &vec![Some(-32)]).unwrap();
    let all = concat_bodies(&Vec::new(), &small);
    assert_eq!(all, vec![-32]);

    // A single segment: Voyager 2 relative to the Sun.
    let targets = segment_targets(&all, 10);
    assert_eq!(targets, vec![(0, -32)]);
    assert_eq!(segment_identifier(-32, 10), "Position of -32 relative to 10");
}
