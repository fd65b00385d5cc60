use orbit_zoom::zoom::{smoothstep, zoom_speed, MAX_DISTANCE, SCALE, SPEED_FLOOR};

#[test]
fn speed_is_floor_at_and_below_min() {
    assert_eq!(zoom_speed(1000, 100000, 0), SPEED_FLOOR);
    assert_eq!(zoom_speed(1000, 100000, 500), SPEED_FLOOR);
    assert_eq!(zoom_speed(1000, 100000, 1000), SPEED_FLOOR);
    assert_eq!(SPEED_FLOOR, 1);
}

#[test]
fn speed_is_capped_at_and_above_max() {
    assert_eq!(zoom_speed(1000, 100000, 100000), SCALE / 2 + SPEED_FLOOR);
    assert_eq!(zoom_speed(1000, 100000, 5_000_000), 501);
    assert_eq!(zoom_speed(1000, 100000, u64::MAX), 501);
}

#[test]
fn speed_at_midpoint_is_quarter_plus_floor() {
    assert_eq!(smoothstep(1000, 100000, 50500), SCALE / 2);
    assert_eq!(zoom_speed(1000, 100000, 50500), SCALE / 4 + SPEED_FLOOR);
    assert_eq!(zoom_speed(1000, 100000, 50500), 251);
}

#[test]
fn speed_is_monotonic_in_distance() {
    let mut previous = 0u64;
    let mut d = 0u64;
    while d <= 120000 {
        let s = zoom_speed(1000, 100000, d);
        assert!(s >= previous, "speed decreased at distance {d}");
        previous = s;
        d += 500;
    }
}

#[test]
fn ease_is_flat_at_boundaries() {
    // With edges [0, SCALE] the normalized position equals the raw distance,
    // so smoothstep gives the ease curve directly.
    let low_step = smoothstep(0, SCALE, 20) - smoothstep(0, SCALE, 0);
    let high_step = smoothstep(0, SCALE, SCALE) - smoothstep(0, SCALE, SCALE - 20);
    let central_step = smoothstep(0, SCALE, 520) - smoothstep(0, SCALE, 480);
    assert!(low_step <= 2);
    assert!(high_step <= 2);
    assert!(central_step >= 50);
    assert!(low_step <= central_step);
    assert!(high_step <= central_step);
}

#[test]
fn smoothstep_exact_values() {
    assert_eq!(smoothstep(0, SCALE, 0), 0);
    assert_eq!(smoothstep(0, SCALE, 250), 156);
    assert_eq!(smoothstep(0, SCALE, 500), 500);
    assert_eq!(smoothstep(0, SCALE, 750), 843);
    assert_eq!(smoothstep(0, SCALE, SCALE), SCALE);
}

#[test]
fn speed_at_widest_admissible_range() {
    assert_eq!(zoom_speed(0, MAX_DISTANCE, 0), SPEED_FLOOR);
    assert_eq!(zoom_speed(0, MAX_DISTANCE, MAX_DISTANCE), SCALE / 2 + SPEED_FLOOR);
    assert_eq!(zoom_speed(0, MAX_DISTANCE, u64::MAX), SCALE / 2 + SPEED_FLOOR);
}

#[test]
fn speed_matches_float_model() {
    // The fixed-point speed stays within a few units of the real-valued
    // model 0.5 * t^2 * (3 - 2t) + 0.001 over a sweep of the operating
    // range (each truncating step loses less than one fixed-point unit).
    let (min, max) = (1000u64, 100000u64);
    let mut d = min;
    while d <= max {
        let fixed = zoom_speed(min, max, d) as f64 / SCALE as f64;
        let t = (d - min) as f64 / (max - min) as f64;
        let real = 0.5 * (t * t * (3.0 - 2.0 * t)) + 0.001;
        assert!((fixed - real).abs() <= 3.0 / SCALE as f64);
        d += 731;
    }
}
