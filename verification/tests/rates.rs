use rand::rngs::StdRng;
use rand::SeedableRng;
use santa::curve::{rounded_log_drop, MAX_MILLISECONDS};
use santa::rate::{percentile_to_ms_delay, RateController, RateState, SpeedUpdate, DEFAULT_PERCENT};

#[test]
fn half_speed_gives_about_a_second_and_a_half() {
    assert_eq!(percentile_to_ms_delay(50), 1505);
}

#[test]
fn slowest_speed_gives_the_longest_delay() {
    assert_eq!(percentile_to_ms_delay(1), 10_000);
    assert_eq!(percentile_to_ms_delay(1), MAX_MILLISECONDS);
}

#[test]
fn fastest_speed_gives_one_millisecond() {
    assert_eq!(percentile_to_ms_delay(100), 1);
}

#[test]
fn zero_speed_is_taken_as_one() {
    assert_eq!(percentile_to_ms_delay(0), percentile_to_ms_delay(1));
    assert_eq!(percentile_to_ms_delay(0), 10_000);
}

#[test]
fn speeds_above_the_range_give_one_millisecond() {
    assert_eq!(percentile_to_ms_delay(101), 1);
    assert_eq!(percentile_to_ms_delay(200), 1);
    assert_eq!(percentile_to_ms_delay(255), 1);
}

#[test]
fn delay_bounds_stay_in_range() {
    for percent in 0..=255u8 {
        let ms = percentile_to_ms_delay(percent);
        assert!(ms >= 1 && ms <= 10_000, "{} gave {}", percent, ms);
    }
}

#[test]
fn delay_bounds_never_rise_with_speed() {
    for percent in 0..255u8 {
        assert!(percentile_to_ms_delay(percent + 1) <= percentile_to_ms_delay(percent));
    }
    assert!(percentile_to_ms_delay(100) < percentile_to_ms_delay(1));
}

#[test]
fn chosen_points_of_the_curve() {
    assert_eq!(percentile_to_ms_delay(2), 8495);
    assert_eq!(percentile_to_ms_delay(10), 5000);
    assert_eq!(percentile_to_ms_delay(25), 3010);
    assert_eq!(percentile_to_ms_delay(75), 625);
    assert_eq!(percentile_to_ms_delay(99), 22);
}

#[test]
fn curve_is_the_rounded_logarithm() {
    for percent in 1..=100u8 {
        let exact = 10_000.0 * (percent as f64).ln() / 100f64.ln();
        assert_eq!(rounded_log_drop(percent), exact.round() as u64, "at {}", percent);
        let left = (10_000.0 - exact).round().max(1.0) as u64;
        assert_eq!(percentile_to_ms_delay(percent), left, "at {}", percent);
    }
}

#[test]
fn curve_turns_products_into_sums() {
    for a in 1..=100u64 {
        for b in 1..=100u64 {
            if a * b <= 100 {
                let sum = rounded_log_drop(a as u8) + rounded_log_drop(b as u8);
                let product = rounded_log_drop((a * b) as u8);
                assert!(sum <= product + 1 && product <= sum + 1, "{} {}", a, b);
            }
        }
    }
}

#[test]
fn controller_starts_at_the_default_speed() {
    assert_eq!(DEFAULT_PERCENT, 50);
    assert_eq!(RateController::new().get(), 1505);
    let rates = RateState::new();
    assert_eq!(rates.work_delay_bound_ms(), 1505);
    assert_eq!(rates.vacation_delay_bound_ms(), 1505);
}

#[test]
fn controller_set_and_get() {
    let mut cell = RateController::from_percent(10);
    assert_eq!(cell.get(), 5000);
    cell.set(42);
    assert_eq!(cell.get(), 42);
    cell.set_percent(100);
    assert_eq!(cell.get(), 1);
    cell.set_percent(0);
    assert_eq!(cell.get(), 10_000);
}

#[test]
fn drawn_delay_is_below_the_bound() {
    let mut rng = StdRng::seed_from_u64(7);
    let cell = RateController::from_percent(50);
    let mut seen_nonzero = false;
    for _ in 0..1000 {
        let ms = cell.draw_delay(&mut rng);
        assert!(ms < 1505);
        seen_nonzero = seen_nonzero || ms != 0;
    }
    assert!(seen_nonzero);
}

#[test]
fn drawn_delay_below_one_is_zero() {
    let mut rng = StdRng::seed_from_u64(11);
    let cell = RateController::from_percent(100);
    for _ in 0..100 {
        assert_eq!(cell.draw_delay(&mut rng), 0);
    }
}

#[test]
fn update_sets_only_the_speeds_it_carries() {
    let mut rates = RateState::new();
    rates.apply(SpeedUpdate { work_speed: Some(100), vacation_speed: None });
    assert_eq!(rates.work_delay_bound_ms(), 1);
    assert_eq!(rates.vacation_delay_bound_ms(), 1505);
    rates.apply(SpeedUpdate { work_speed: None, vacation_speed: Some(1) });
    assert_eq!(rates.work_delay_bound_ms(), 1);
    assert_eq!(rates.vacation_delay_bound_ms(), 10_000);
    rates.apply(SpeedUpdate { work_speed: Some(10), vacation_speed: Some(0) });
    assert_eq!(rates.work_delay_bound_ms(), 5000);
    assert_eq!(rates.vacation_delay_bound_ms(), 10_000);
    rates.apply(SpeedUpdate { work_speed: None, vacation_speed: None });
    assert_eq!(rates.work_delay_bound_ms(), 5000);
    assert_eq!(rates.vacation_delay_bound_ms(), 10_000);
}
