use traj_propagate::bodies::{concat_bodies, default_center, masses_with_zero_tail, position_of};

#[test]
fn full_bodies_precede_small_bodies() {
    let full = vec![10, 399, 5, 499];
    let small = vec![-202];
    assert_eq!(concat_bodies(&full, &small), vec![10, 399, 5, 499, -202]);
}

#[test]
fn concat_with_empty_sides() {
    assert_eq!(concat_bodies(&vec![], &vec![-32]), vec![-32]);
    assert_eq!(concat_bodies(&vec![10], &vec![]), vec![10]);
    assert_eq!(concat_bodies(&vec![], &vec![]), Vec::<i32>::new());
}

#[test]
fn position_of_finds_first_occurrence() {
    let bodies = vec![10, 399, 10, 499];
    assert_eq!(position_of(&bodies, 10), Some(0));
    assert_eq!(position_of(&bodies, 499), Some(3));
    assert_eq!(position_of(&bodies, -202), None);
}

#[test]
fn default_center_is_first_body() {
    assert_eq!(default_center(&vec![10, 399, 5]), 10);
}

#[test]
fn mass_vector_zeroes_the_small_body_tail() {
    let full_mus = vec![1.327e20_f64, 3.986e14_f64];
    let mus = masses_with_zero_tail(&full_mus, 0.0_f64, 5);
    assert_eq!(mus.len(), 5);
    assert_eq!(mus[0], 1.327e20);
    assert_eq!(mus[1], 3.986e14);
    assert_eq!(mus[2], 0.0);
    assert_eq!(mus[3], 0.0);
    assert_eq!(mus[4], 0.0);
}
