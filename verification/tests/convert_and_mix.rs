use audio_recorder::downmix::to_mono;
use audio_recorder::fixed::FULL_SCALE;
use audio_recorder::mixdown::{mix_pair, mixdown};
use audio_recorder::resample::{resample, ResampleError};

fn fixed(values: &[f32]) -> Vec<i32> {
    values.iter().map(|&x| (x * 1_000_000.0).round() as i32).collect()
}

fn floats(values: &[i32]) -> Vec<f32> {
    values.iter().map(|&x| x as f32 / 1_000_000.0).collect()
}

#[test]
fn resampling_between_equal_rates_returns_the_input() {
    let x = vec![5, -7, 900_000, i32::MAX, i32::MIN];
    assert_eq!(resample(x.clone(), 48000, 48000), Ok(x.clone()));
    assert_eq!(resample(x.clone(), 1, 1), Ok(x.clone()));
    assert_eq!(resample(x.clone(), 0, 0), Ok(x));
    assert_eq!(resample(vec![], 44100, 44100), Ok(vec![]));
}

#[test]
fn resampling_down_by_two_keeps_every_other_sample() {
    assert_eq!(resample(vec![1, 2, 3, 4], 48000, 24000), Ok(vec![1, 3]));
}

#[test]
fn resampling_up_by_two_repeats_each_sample() {
    assert_eq!(resample(vec![1, 2, 3], 24000, 48000), Ok(vec![1, 1, 2, 2, 3, 3]));
}

#[test]
fn resampled_length_is_the_rounded_ratio() {
    let out = resample(vec![10, 20, 30], 44100, 48000).unwrap();
    assert_eq!(out, vec![10, 10, 20]);
    let out = resample(vec![0; 441], 44100, 48000).unwrap();
    assert_eq!(out.len(), 480);
    let out = resample(vec![0; 3], 2, 1).unwrap();
    assert_eq!(out.len(), 2);
    let out = resample(vec![0; 1], 2, 1).unwrap();
    assert_eq!(out.len(), 1);
    let out = resample(vec![0; 1], 3, 1).unwrap();
    assert_eq!(out.len(), 0);
}

#[test]
fn resampled_length_is_within_one_of_the_exact_ratio() {
    let rates = [8000u32, 11025, 16000, 22050, 44100, 48000, 96000];
    for &from in rates.iter() {
        for &to in rates.iter() {
            for len in [0usize, 1, 2, 7, 100, 441] {
                let out = resample(vec![1; len], from, to).unwrap();
                let exact = len as f64 * to as f64 / from as f64;
                assert!((out.len() as f64 - exact.round()).abs() <= 1.0);
            }
        }
    }
}

#[test]
fn a_selected_index_past_the_input_reads_as_silence() {
    assert_eq!(resample(vec![9], 3, 5), Ok(vec![9, 9]));
    assert_eq!(resample(vec![7, 8, 9], 2, 1), Ok(vec![7, 9]));
    assert_eq!(resample(vec![7], 2, 1), Ok(vec![7]));
    assert_eq!(resample(vec![4, 5, 6], 6, 3), Ok(vec![4, 6]));
    assert_eq!(resample(vec![4, 5, 6], 2, 1), Ok(vec![4, 6]));
}

#[test]
fn resampling_to_rate_zero_gives_nothing() {
    assert_eq!(resample(vec![1, 2, 3], 48000, 0), Ok(vec![]));
}

#[test]
fn resampling_from_rate_zero_is_refused() {
    assert_eq!(resample(vec![1, 2, 3], 0, 48000), Err(ResampleError::ZeroSourceRate));
    assert_eq!(resample(vec![], 0, 1), Err(ResampleError::ZeroSourceRate));
}

#[test]
fn to_mono_averages_each_frame() {
    assert_eq!(to_mono(&[10, 20, 30, 50], 2), vec![15, 40]);
    assert_eq!(to_mono(&[3, 6, 9, -3, -6, -9], 3), vec![6, -6]);
    assert_eq!(to_mono(&[], 2), Vec::<i32>::new());
}

#[test]
fn to_mono_of_k_times_n_samples_has_n_samples() {
    for k in 1u16..6 {
        for n in 0usize..5 {
            let input: Vec<i32> = (0..(k as usize * n)).map(|i| i as i32 * 10).collect();
            let out = to_mono(&input, k);
            assert_eq!(out.len(), n);
            for (j, &value) in out.iter().enumerate() {
                let frame = &input[j * k as usize..(j + 1) * k as usize];
                let sum: i64 = frame.iter().map(|&s| s as i64).sum();
                assert_eq!(value as i64, sum / k as i64);
            }
        }
    }
}

#[test]
fn to_mono_drops_a_trailing_partial_frame() {
    assert_eq!(to_mono(&[10, 20, 30], 2), vec![15]);
    assert_eq!(to_mono(&[10], 2), Vec::<i32>::new());
}

#[test]
fn to_mono_with_one_channel_changes_nothing() {
    assert_eq!(to_mono(&[1, -2, 3], 1), vec![1, -2, 3]);
}

#[test]
fn to_mono_rounds_the_mean_toward_zero() {
    assert_eq!(to_mono(&[1, 2], 2), vec![1]);
    assert_eq!(to_mono(&[-1, -2], 2), vec![-1]);
    assert_eq!(to_mono(&[i32::MAX, i32::MAX], 2), vec![i32::MAX]);
    assert_eq!(to_mono(&[i32::MIN, i32::MIN], 2), vec![i32::MIN]);
}

#[test]
fn mixdown_pads_the_shorter_source_with_silence() {
    let mixed = mixdown(&[500_000, 500_000], &[500_000]);
    assert_eq!(mixed, vec![700_000, 350_000]);
    let mixed = mixdown(&fixed(&[0.5, 0.5]), &fixed(&[0.5]));
    assert_eq!(floats(&mixed), vec![0.7, 0.35]);
}

#[test]
fn mixdown_does_not_depend_on_the_order_of_its_sources() {
    let a = vec![100_000, -900_000, 3, 1_000_000, 12];
    let b = vec![-50_000, 950_000];
    assert_eq!(mixdown(&a, &b), mixdown(&b, &a));
    assert_eq!(mixdown(&a, &[]), mixdown(&[], &a));
    assert_eq!(mixdown(&a, &b), mixdown(&a, &b));
}

#[test]
fn mixdown_clips_to_the_valid_range() {
    assert_eq!(mixdown(&[1_000_000], &[1_000_000]), vec![FULL_SCALE]);
    assert_eq!(mixdown(&[-1_000_000], &[-1_000_000]), vec![-FULL_SCALE]);
    assert_eq!(mixdown(&[i32::MAX], &[i32::MAX]), vec![FULL_SCALE]);
    assert_eq!(mixdown(&[i32::MIN], &[i32::MIN]), vec![-FULL_SCALE]);
    assert_eq!(mixdown(&[1_000_000], &[428_571]), vec![999_999]);
    assert_eq!(mixdown(&[1_000_000], &[428_572]), vec![FULL_SCALE]);
}

#[test]
fn mixdown_of_nothing_is_nothing() {
    assert_eq!(mixdown(&[], &[]), Vec::<i32>::new());
}

#[test]
fn mixing_a_pair_scales_the_sum_by_seven_tenths() {
    assert_eq!(mix_pair(100_000, 200_000), 210_000);
    assert_eq!(mix_pair(1, 0), 0);
    assert_eq!(mix_pair(-1, 0), 0);
    assert_eq!(mix_pair(-3, 0), -2);
    assert_eq!(mix_pair(3, 0), 2);
    assert_eq!(mix_pair(500_000, -500_000), 0);
}
