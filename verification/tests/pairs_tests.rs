use traj_propagate::pairs::interaction_pairs;

#[test]
fn no_pairs_below_two_bodies() {
    assert_eq!(interaction_pairs(0), Vec::<(usize, usize)>::new());
    assert_eq!(interaction_pairs(1), Vec::<(usize, usize)>::new());
}

#[test]
fn two_bodies_interact_once() {
    assert_eq!(interaction_pairs(2), vec![(0, 1)]);
}

#[test]
fn four_bodies_interact_in_row_major_order() {
    assert_eq!(
        interaction_pairs(4),
        vec![(0, 1), (0, 2), (0, 3), (1, 2), (1, 3), (2, 3)]
    );
}

#[test]
fn pair_count_is_n_choose_two() {
    assert_eq!(interaction_pairs(5).len(), 10);
    assert_eq!(interaction_pairs(10).len(), 45);
}
