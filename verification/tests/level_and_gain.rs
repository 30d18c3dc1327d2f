use audio_recorder::fixed::{clamp_to_sample, div_toward_zero, int_sqrt, FULL_SCALE};
use audio_recorder::gain::{apply_gain, gain_sample, UNITY_GAIN};
use audio_recorder::level::level;

fn to_fixed(x: f32) -> i32 {
    (x * 1_000_000.0).round() as i32
}

fn to_float(x: i32) -> f32 {
    x as f32 / 1_000_000.0
}

#[test]
fn level_of_an_empty_buffer_is_zero() {
    assert_eq!(level(&[]), 0);
}

#[test]
fn level_is_five_times_the_root_mean_square() {
    assert_eq!(level(&[100_000, -100_000, 100_000, -100_000]), 500_000);
    assert_eq!(level(&[3, 4]), 15);
    assert_eq!(level(&[0, 0, 0]), 0);
    assert_eq!(level(&[1]), 5);
}

#[test]
fn level_is_capped_at_full_scale() {
    assert_eq!(level(&[FULL_SCALE, -FULL_SCALE]), FULL_SCALE);
    assert_eq!(level(&[200_000; 16]), FULL_SCALE);
    assert_eq!(level(&[200_001; 16]), FULL_SCALE);
    assert_eq!(level(&[199_999; 16]), 999_995);
    assert_eq!(level(&[i32::MAX, i32::MIN]), FULL_SCALE);
}

#[test]
fn level_stays_between_silence_and_full_scale() {
    let buffers: Vec<Vec<i32>> = vec![
        vec![],
        vec![1],
        vec![-1],
        vec![i32::MIN],
        vec![i32::MAX; 7],
        vec![12, -900_000, 4_000_000, 0],
        (0..1000).map(|i| (i * 7919) % 2_000_001 - 1_000_000).collect(),
    ];
    for buffer in buffers {
        let l = level(&buffer);
        assert!(0 <= l && l <= FULL_SCALE);
    }
}

#[test]
fn level_of_a_float_buffer_matches_the_real_formula() {
    let samples = [0.1f32, -0.1, 0.1, -0.1];
    let fixed: Vec<i32> = samples.iter().map(|&x| to_fixed(x)).collect();
    let sum: f32 = samples.iter().map(|&s| s * s).sum();
    let expected = ((sum / samples.len() as f32).sqrt() * 5.0).min(1.0);
    assert!((to_float(level(&fixed)) - expected).abs() < 1e-5);
}

#[test]
fn integer_square_root_rounds_down() {
    assert_eq!(int_sqrt(0), 0);
    assert_eq!(int_sqrt(1), 1);
    assert_eq!(int_sqrt(3), 1);
    assert_eq!(int_sqrt(4), 2);
    assert_eq!(int_sqrt(99), 9);
    assert_eq!(int_sqrt(100), 10);
    assert_eq!(int_sqrt(1_000_000_000_000), 1_000_000);
    assert_eq!(int_sqrt(u64::MAX), 4_294_967_295);
}

#[test]
fn division_rounds_toward_zero() {
    assert_eq!(div_toward_zero(7, 2), 3);
    assert_eq!(div_toward_zero(-7, 2), -3);
    assert_eq!(div_toward_zero(0, 5), 0);
    assert_eq!(div_toward_zero(-1, 10), 0);
}

#[test]
fn clamping_keeps_values_in_range() {
    assert_eq!(clamp_to_sample(0), 0);
    assert_eq!(clamp_to_sample(2_500_000), FULL_SCALE);
    assert_eq!(clamp_to_sample(-2_500_000), -FULL_SCALE);
    assert_eq!(clamp_to_sample(i64::MAX), FULL_SCALE);
    assert_eq!(clamp_to_sample(i64::MIN), -FULL_SCALE);
    assert_eq!(clamp_to_sample(-999_999), -999_999);
}

#[test]
fn gain_of_five_clips_half_scale_to_full_scale() {
    assert_eq!(gain_sample(500_000, 5_000_000), FULL_SCALE);
    assert_eq!(apply_gain(&[to_fixed(0.5)], to_fixed(5.0)), vec![to_fixed(1.0)]);
    assert_eq!(to_float(gain_sample(to_fixed(0.5), to_fixed(5.0))), 1.0);
}

#[test]
fn gain_multiplies_each_sample() {
    assert_eq!(apply_gain(&[100_000, -200_000, 0], 2_000_000), vec![200_000, -400_000, 0]);
    assert_eq!(apply_gain(&[100_000, -200_000], 500_000), vec![50_000, -100_000]);
    assert_eq!(apply_gain(&[100_000, -200_000], UNITY_GAIN), vec![100_000, -200_000]);
    assert_eq!(apply_gain(&[100_000, -200_000], 0), vec![0, 0]);
    assert_eq!(apply_gain(&[], 3_000_000), Vec::<i32>::new());
}

#[test]
fn gain_rounds_toward_zero() {
    assert_eq!(gain_sample(3, 500_000), 1);
    assert_eq!(gain_sample(-3, 500_000), -1);
    assert_eq!(gain_sample(1, 999_999), 0);
}

#[test]
fn negative_gain_inverts_and_still_clips() {
    assert_eq!(gain_sample(300_000, -1_000_000), -300_000);
    assert_eq!(gain_sample(600_000, -2_000_000), -FULL_SCALE);
    assert_eq!(gain_sample(-600_000, -2_000_000), FULL_SCALE);
}

#[test]
fn gained_samples_are_always_valid_samples() {
    let samples = [i32::MIN, -1_000_001, -1, 0, 1, 999_999, 1_000_000, i32::MAX];
    let gains = [i32::MIN, -5_000_000, -1, 0, 1, 1_000_000, 5_000_000, i32::MAX];
    for &g in gains.iter() {
        for &s in samples.iter() {
            let r = gain_sample(s, g);
            assert!(-FULL_SCALE <= r && r <= FULL_SCALE);
        }
    }
}
