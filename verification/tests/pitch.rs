use karaoke::pitch::estimate_period;
use karaoke::pitch::first_zero_crossing;
use karaoke::pitch::peak_lag;
use karaoke::pitch::zero_crossings;

fn levels(values: &[i32]) -> Vec<Option<i32>> {
    values.iter().map(|v| Some(*v)).collect()
}

#[test]
fn first_zero_crossing_is_the_first_negative_lag() {
    assert_eq!(first_zero_crossing(&levels(&[9, 4, 0, -1, -5, 3])), Some(3));
    assert_eq!(first_zero_crossing(&levels(&[-1, -2])), Some(0));
    assert_eq!(first_zero_crossing(&levels(&[9, 4, 0])), None);
    assert_eq!(first_zero_crossing(&levels(&[])), None);
    assert_eq!(first_zero_crossing(&vec![None, None, Some(-3)]), Some(2));
}

#[test]
fn peak_is_the_first_of_the_largest_levels_after_the_start() {
    let auto = levels(&[100, 40, -10, -60, 20, 80, 80, 10, 90, 95]);
    assert_eq!(peak_lag(&auto, 2, 8), 5);
    assert_eq!(peak_lag(&auto, 2, 10), 9);
    assert_eq!(peak_lag(&auto, 6, 8), 6);
    assert_eq!(peak_lag(&auto, 7, 8), 7);
}

#[test]
fn peak_search_from_lag_zero_passes_over_lag_zero() {
    let auto = levels(&[100, 40, 30, 50, 20]);
    assert_eq!(peak_lag(&auto, 0, 5), 3);
    assert_eq!(peak_lag(&auto, 0, 2), 1);
    assert_eq!(peak_lag(&auto, 0, 1), 0);
    assert_eq!(peak_lag(&auto, 0, 0), 0);
    assert_eq!(peak_lag(&levels(&[100, 90, 80, 70]), 0, 4), 1);
}

#[test]
fn peak_search_that_starts_behind_the_window_gives_the_start() {
    let auto = levels(&[5, 4, 3, 2, -1, 7]);
    assert_eq!(peak_lag(&auto, 4, 3), 4);
    assert_eq!(peak_lag(&auto, 4, 4), 4);
    assert_eq!(peak_lag(&auto, 9, 6), 9);
}

#[test]
fn peak_search_looks_at_no_lag_beyond_the_levels() {
    let auto = levels(&[5, -4, 3, 9]);
    assert_eq!(peak_lag(&auto, 1, 100), 3);
    assert_eq!(estimate_period(&auto, 100), 3);
}

#[test]
fn levels_that_are_no_numbers_are_above_nothing() {
    let silence = vec![None; 6];
    assert_eq!(first_zero_crossing(&silence), None);
    assert_eq!(estimate_period(&silence, 3), 1);
    let mixed = vec![Some(5), Some(-1), None, Some(7), None];
    assert_eq!(peak_lag(&mixed, 1, 5), 3);
    let blocked = vec![Some(5), Some(-1), None, Some(7)];
    assert_eq!(peak_lag(&blocked, 2, 4), 2);
}

fn levels_of_sine(frequency: f64, rate: f64, window: usize) -> Vec<Option<i32>> {
    let samples: Vec<f64> = (0..window)
        .map(|i| (2.0 * std::f64::consts::PI * frequency * i as f64 / rate).sin())
        .collect();
    let mut auto = Vec::new();
    for lag in 0..2 * window {
        let mut sum = 0.0f64;
        for i in 0..window {
            if i + lag < window {
                sum += samples[i] * samples[i + lag];
            }
        }
        auto.push(sum);
    }
    let energy = auto[0];
    auto.iter().map(|v| Some((v / energy * 1_000_000.0).round() as i32)).collect()
}

#[test]
fn period_of_a_sine_is_found_in_its_autocorrelation() {
    let keys = levels_of_sine(200.0, 8000.0, 160);
    assert_eq!(first_zero_crossing(&keys), Some(11));
    assert_eq!(estimate_period(&keys, 160), 40);
}

#[test]
fn pitch_of_a_sine_is_within_a_semitone() {
    let rate = 44100.0f64;
    for frequency in [100.0f64, 146.83, 220.0, 440.0, 523.25, 880.0, 1000.0] {
        let window = (3.0 * rate / frequency).ceil() as usize;
        let keys = levels_of_sine(frequency, rate, window);
        let period = estimate_period(&keys, window);
        assert!(period > 0);
        let pitch = (12.0 * (rate / period as f64 / 440.0).log2()).floor() as i32;
        let expected = (12.0 * (frequency / 440.0).log2()).round() as i32;
        assert!((pitch - expected).abs() <= 1, "{} Hz: {} for {}", frequency, pitch, expected);
    }
}

#[test]
fn zero_crossings_count_the_changes_of_side() {
    assert_eq!(zero_crossings(&levels(&[1, 2, -1, -2, 3, 0, -1])), 3);
    assert_eq!(zero_crossings(&levels(&[1, 2, 3])), 0);
    assert_eq!(zero_crossings(&levels(&[-1])), 0);
    assert_eq!(zero_crossings(&levels(&[])), 0);
    assert_eq!(zero_crossings(&vec![Some(-1), None, Some(-1)]), 0);
    assert_eq!(zero_crossings(&vec![Some(-1), None, Some(1), Some(-1), None]), 1);
    assert_eq!(zero_crossings(&levels(&[0, -1, 0])), 2);
}
