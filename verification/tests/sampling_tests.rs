use traj_propagate::sampling::downsample;

#[test]
fn stride_one_keeps_every_sample() {
    let ets: Vec<f64> = (0..10).map(|k| k as f64 * 60.0).collect();
    assert_eq!(downsample(&ets, 1), ets);
}

#[test]
fn stride_two_keeps_every_second_sample_from_index_zero() {
    let ets: Vec<i64> = (0..10).collect();
    assert_eq!(downsample(&ets, 2), vec![0, 2, 4, 6, 8]);
}

#[test]
fn stride_three_keeps_every_third_sample() {
    let ets: Vec<i64> = (0..10).collect();
    assert_eq!(downsample(&ets, 3), vec![0, 3, 6, 9]);
}

#[test]
fn stride_larger_than_input_keeps_the_first_sample() {
    let ets: Vec<i64> = vec![5, 6, 7];
    assert_eq!(downsample(&ets, 100), vec![5]);
}

#[test]
fn downsampling_empty_input_is_empty() {
    assert_eq!(downsample(&Vec::<i64>::new(), 4), Vec::<i64>::new());
}

#[test]
fn downsampled_epochs_stay_strictly_increasing() {
    let ets: Vec<i64> = vec![0, 10, 25, 31, 47, 60, 81, 90];
    let kept = downsample(&ets, 3);
    assert_eq!(kept, vec![0, 31, 81]);
    for w in kept.windows(2) {
        assert!(w[0] < w[1]);
    }
}

#[test]
fn parallel_epoch_and_state_sequences_stay_aligned() {
    let ets: Vec<f64> = (0..7).map(|k| k as f64 * 0.5).collect();
    let sample_index: Vec<usize> = (0..7).collect();
    assert_eq!(downsample(&ets, 3).len(), downsample(&sample_index, 3).len());
}
