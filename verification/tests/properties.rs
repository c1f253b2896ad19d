use kalman_fusion::{kalman_update_fixed, KalmanState, I16F16, I8F24, U32F32};

const ONE_I8F24: i32 = 1 << 24;
const ONE_I16F16: i32 = 1 << 16;
const ONE_U32F32: u64 = 1 << 32;

fn i8f24(x: f64) -> I8F24 {
    I8F24::from_bits(fixed::types::I8F24::from_num(x).to_bits())
}

fn u32f32(x: f64) -> U32F32 {
    U32F32::from_bits(fixed::types::U32F32::from_num(x).to_bits())
}

// The least tolerance that is wide enough for the gain at the least
// uncertainty and for observations that rise by at most `limit` at a time.
fn tolerance(least_uncertainty: u128, measurement_uncertainty: u128, limit: u128, one: u128) -> u128 {
    let least_gain = least_uncertainty * one / (least_uncertainty + measurement_uncertainty);
    let needed = (one - least_gain) * limit + one;
    (needed + least_gain - 1) / least_gain
}

#[test]
fn new_fixed_takes_magnitudes_i8f24() {
    let s = KalmanState::new_fixed(
        I8F24::from_bits(-5 * ONE_I8F24),
        I8F24::from_bits(-3 * ONE_I8F24),
        I8F24::from_bits(-7),
        I8F24::from_bits(-ONE_I8F24 / 2),
    );
    assert_eq!(s.estimate.to_bits(), -5 * ONE_I8F24);
    assert_eq!(s.uncertainty.to_bits(), 3 * ONE_I8F24);
    assert_eq!(s.measurement_uncertainty.to_bits(), 7);
    assert_eq!(s.process_noise.to_bits(), ONE_I8F24 / 2);
}

#[test]
fn new_fixed_takes_magnitudes_i16f16() {
    let s = KalmanState::new_fixed(
        I16F16::from_bits(i32::MIN),
        I16F16::from_bits(-i32::MAX),
        I16F16::from_bits(-1),
        I16F16::from_bits(0),
    );
    assert_eq!(s.estimate.to_bits(), i32::MIN);
    assert_eq!(s.uncertainty.to_bits(), i32::MAX);
    assert_eq!(s.measurement_uncertainty.to_bits(), 1);
    assert_eq!(s.process_noise.to_bits(), 0);
}

#[test]
fn new_fixed_keeps_non_negative_values() {
    let s = KalmanState::new_fixed(
        I8F24::from_bits(9),
        I8F24::from_bits(8),
        I8F24::from_bits(7),
        I8F24::from_bits(6),
    );
    assert_eq!(
        (
            s.estimate.to_bits(),
            s.uncertainty.to_bits(),
            s.measurement_uncertainty.to_bits(),
            s.process_noise.to_bits()
        ),
        (9, 8, 7, 6)
    );
}

#[test]
fn new_fixed_leaves_unsigned_values_unchanged() {
    let s = KalmanState::new_fixed(
        U32F32::from_bits(u64::MAX),
        U32F32::from_bits(u64::MAX - 1),
        U32F32::from_bits(1 << 63),
        U32F32::from_bits(0),
    );
    assert_eq!(s.estimate.to_bits(), u64::MAX);
    assert_eq!(s.uncertainty.to_bits(), u64::MAX - 1);
    assert_eq!(s.measurement_uncertainty.to_bits(), 1 << 63);
    assert_eq!(s.process_noise.to_bits(), 0);
}

#[test]
fn update_gives_exact_values_i16f16() {
    // gain = 1/2; the estimate moves half of the way, half of the uncertainty stays
    let s = KalmanState::new_fixed(
        I16F16::from_bits(0),
        I16F16::from_bits(ONE_I16F16),
        I16F16::from_bits(ONE_I16F16),
        I16F16::from_bits(3),
    );
    let r = kalman_update_fixed(&s, I16F16::from_bits(2 * ONE_I16F16));
    assert_eq!(r.estimate.to_bits(), 65536);
    assert_eq!(r.uncertainty.to_bits(), 32771);
    assert_eq!(r.measurement_uncertainty.to_bits(), ONE_I16F16);
    assert_eq!(r.process_noise.to_bits(), 3);
}

#[test]
fn update_rounds_the_gain_down_i16f16() {
    // gain = floor(65536 / 3) = 21845
    let s = KalmanState::new_fixed(
        I16F16::from_bits(0),
        I16F16::from_bits(ONE_I16F16),
        I16F16::from_bits(2 * ONE_I16F16),
        I16F16::from_bits(10),
    );
    let r = kalman_update_fixed(&s, I16F16::from_bits(ONE_I16F16));
    assert_eq!(r.estimate.to_bits(), 21845);
    assert_eq!(r.uncertainty.to_bits(), 43691 + 10);
}

#[test]
fn update_with_observation_below_estimate_signed() {
    // gain = 3/4 exactly; distance 4.0, so the estimate drops by 3.0
    let s = KalmanState::new_fixed(
        I8F24::from_bits(ONE_I8F24),
        I8F24::from_bits(3 * ONE_I8F24),
        I8F24::from_bits(ONE_I8F24),
        I8F24::from_bits(ONE_I8F24 / 4),
    );
    let r = kalman_update_fixed(&s, I8F24::from_bits(-3 * ONE_I8F24));
    assert_eq!(r.estimate.to_bits(), -2 * ONE_I8F24);
    assert_eq!(r.uncertainty.to_bits(), ONE_I8F24);
}

#[test]
fn update_with_observation_below_estimate_unsigned() {
    let s = KalmanState::new_fixed(
        U32F32::from_bits(5 * ONE_U32F32),
        U32F32::from_bits(3 * ONE_U32F32),
        U32F32::from_bits(ONE_U32F32),
        U32F32::from_bits(ONE_U32F32 / 4),
    );
    let r = kalman_update_fixed(&s, U32F32::from_bits(ONE_U32F32));
    assert_eq!(r.estimate.to_bits(), 2 * ONE_U32F32);
    assert_eq!(r.uncertainty.to_bits(), ONE_U32F32);
    assert_eq!(r.measurement_uncertainty.to_bits(), ONE_U32F32);
    assert_eq!(r.process_noise.to_bits(), ONE_U32F32 / 4);
}

#[test]
fn update_with_observation_equal_to_estimate_keeps_it() {
    let s = KalmanState::new_fixed(
        U32F32::from_bits(7 * ONE_U32F32 + 5),
        U32F32::from_bits(ONE_U32F32),
        U32F32::from_bits(9),
        U32F32::from_bits(1),
    );
    let r = kalman_update_fixed(&s, U32F32::from_bits(7 * ONE_U32F32 + 5));
    assert_eq!(r.estimate.to_bits(), 7 * ONE_U32F32 + 5);
}

#[test]
fn update_with_certain_estimate_ignores_the_observation() {
    // no uncertainty in the estimate: the gain is zero
    let s = KalmanState::new_fixed(
        I8F24::from_bits(ONE_I8F24),
        I8F24::from_bits(0),
        I8F24::from_bits(ONE_I8F24),
        I8F24::from_bits(0),
    );
    let r = kalman_update_fixed(&s, I8F24::from_bits(100 * ONE_I8F24));
    assert_eq!(r.estimate.to_bits(), ONE_I8F24);
    assert_eq!(r.uncertainty.to_bits(), 0);
}

#[test]
fn update_with_exact_measurement_jumps_to_the_observation() {
    // no uncertainty in the measurement: the gain is one
    let s = KalmanState::new_fixed(
        I8F24::from_bits(ONE_I8F24),
        I8F24::from_bits(ONE_I8F24 / 8),
        I8F24::from_bits(0),
        I8F24::from_bits(5),
    );
    let r = kalman_update_fixed(&s, I8F24::from_bits(-100 * ONE_I8F24 + 1));
    assert_eq!(r.estimate.to_bits(), -100 * ONE_I8F24 + 1);
    assert_eq!(r.uncertainty.to_bits(), 5);
}

#[test]
fn update_normalizes_a_state_built_by_hand() {
    let s = KalmanState {
        estimate: I16F16::from_bits(0),
        uncertainty: I16F16::from_bits(ONE_I16F16),
        measurement_uncertainty: I16F16::from_bits(ONE_I16F16),
        process_noise: I16F16::from_bits(-3),
    };
    let r = kalman_update_fixed(&s, I16F16::from_bits(2 * ONE_I16F16));
    assert_eq!(r.estimate.to_bits(), 65536);
    assert_eq!(r.uncertainty.to_bits(), 32765);
    assert_eq!(r.process_noise.to_bits(), 3);
}

#[test]
fn constant_observation_is_approached_from_below() {
    let target = i8f24(1.0);
    let mut s = KalmanState::new_fixed(i8f24(-3.0), i8f24(0.5), i8f24(0.25), i8f24(0.01));
    for _ in 0..200 {
        let r = kalman_update_fixed(&s, target);
        assert!(r.estimate.to_bits() >= s.estimate.to_bits());
        assert!(r.estimate.to_bits() <= target.to_bits());
        s = r;
    }
    assert!(target.to_bits() - s.estimate.to_bits() < 8);
}

#[test]
fn constant_observation_is_approached_from_above() {
    let target = u32f32(2.0);
    let mut s = KalmanState::new_fixed(u32f32(1000.0), u32f32(0.5), u32f32(0.25), u32f32(0.01));
    let mut distance = s.estimate.to_bits() - target.to_bits();
    for _ in 0..200 {
        s = kalman_update_fixed(&s, target);
        assert!(s.estimate.to_bits() >= target.to_bits());
        let next = s.estimate.to_bits() - target.to_bits();
        assert!(next <= distance);
        distance = next;
    }
    assert!(distance < 8);
}

#[test]
fn uncertainty_stays_within_its_bounds() {
    let one = ONE_U32F32;
    let mut s = KalmanState::new_fixed(u32f32(0.0), u32f32(50.0), u32f32(0.5), u32f32(0.125));
    let (m, p) = (s.measurement_uncertainty.to_bits(), s.process_noise.to_bits());
    for i in 0..100u32 {
        let u = s.uncertainty.to_bits();
        s = kalman_update_fixed(&s, u32f32(f64::from(i % 7)));
        let next = s.uncertainty.to_bits();
        assert!(next >= p);
        assert!(next <= u + p);
        assert!(next <= p + m + u / one);
        assert_eq!(s.measurement_uncertainty.to_bits(), m);
        assert_eq!(s.process_noise.to_bits(), p);
    }
}

#[test]
fn uncertainty_decays_without_process_noise() {
    let mut s = KalmanState::new_fixed(i8f24(0.0), i8f24(100.0), i8f24(0.5), i8f24(0.0));
    for _ in 0..100 {
        let u = s.uncertainty.to_bits();
        s = kalman_update_fixed(&s, i8f24(1.0));
        assert!(s.uncertainty.to_bits() <= u);
    }
    assert!(s.uncertainty.to_bits() < ONE_I8F24 / 100);
}

#[test]
fn uncertainty_does_not_depend_on_the_observation() {
    let s = KalmanState::new_fixed(u32f32(10.0), u32f32(3.0), u32f32(0.7), u32f32(0.2));
    let a = kalman_update_fixed(&s, u32f32(0.0));
    let b = kalman_update_fixed(&s, u32f32(4000.0));
    assert_eq!(a.uncertainty, b.uncertainty);
}

#[test]
fn update_gives_the_same_result_twice() {
    let s = KalmanState::new_fixed(i8f24(0.5), i8f24(0.1), i8f24(1E-4), i8f24(1.0));
    let a = kalman_update_fixed(&s, i8f24(1.0));
    let b = kalman_update_fixed(&s, i8f24(1.0));
    assert_eq!(a.estimate, b.estimate);
    assert_eq!(a.uncertainty, b.uncertainty);
    assert_eq!(a.measurement_uncertainty, b.measurement_uncertainty);
    assert_eq!(a.process_noise, b.process_noise);
    assert_eq!(s.estimate, i8f24(0.5));
    assert_eq!(s.uncertainty, i8f24(0.1));
}

#[test]
fn unsigned_filter_tracks_a_rising_sequence_to_the_maximum() {
    type Outside = fixed::types::U32F32;
    let mut s = KalmanState::new_fixed(u32f32(0.0), u32f32(1.0), u32f32(1E-6), u32f32(2.0));
    let max: u32 = Outside::MAX.to_num::<u32>();
    let stride: usize = 1000;
    let mut last: u32 = 0;
    for i in (1..=max).step_by(stride) {
        s = kalman_update_fixed(&s, U32F32::from_bits(Outside::from_num(i).to_bits()));
        last = i;
    }
    let estimate = Outside::from_bits(s.estimate.to_bits());
    let uncertainty = Outside::from_bits(s.uncertainty.to_bits());
    let one = u128::from(ONE_U32F32);
    let bound = tolerance(one, u128::from(s.measurement_uncertainty.to_bits()), 1000 * one, one);
    assert_eq!(bound, 4295006);
    assert!(u128::from((Outside::from_num(last) - estimate).to_bits()) <= bound);
    assert!(Outside::from_num(max) - estimate < Outside::from_num(stride));
    assert!(Outside::from_num(last) - estimate < Outside::from_num(1E-3));
    assert!(estimate <= Outside::from_num(last));
    assert!(uncertainty >= Outside::from_num(2.0));
    assert!(uncertainty - Outside::from_num(2.0) < Outside::from_num(2E-6));
}

#[test]
fn unsigned_filter_follows_unit_steps() {
    type Outside = fixed::types::U32F32;
    let mut s = KalmanState::new_fixed(u32f32(0.0), u32f32(1.0), u32f32(1E-6), u32f32(2.0));
    for i in 1..=100000u32 {
        s = kalman_update_fixed(&s, U32F32::from_bits(Outside::from_num(i).to_bits()));
    }
    let estimate = Outside::from_bits(s.estimate.to_bits());
    assert!(Outside::from_num(100000) - estimate < Outside::from_num(1E-6));
}

#[test]
fn state_can_be_copied_and_printed() {
    let s = KalmanState::new_fixed(
        I8F24::from_bits(1),
        I8F24::from_bits(2),
        I8F24::from_bits(3),
        I8F24::from_bits(4),
    );
    let t = s;
    let c = s.clone();
    assert_eq!(t.estimate, c.estimate);
    assert_eq!(format!("{:?}", s.uncertainty), "I8F24 { bits: 2 }");
}

#[test]
fn rising_sequence_lag_is_within_the_tolerance_unsigned() {
    // the uncertainty starts below the process noise, so the first update
    // has the least gain
    let one = u128::from(ONE_U32F32);
    let mut s = KalmanState::new_fixed(u32f32(0.0), u32f32(1.0), u32f32(1E-6), u32f32(2.0));
    let bound = tolerance(
        u128::from(s.uncertainty.to_bits()),
        u128::from(s.measurement_uncertainty.to_bits()),
        one,
        one,
    );
    assert_eq!(bound, 4297);
    for i in 1..=50000u64 {
        let observation = U32F32::from_bits(i * ONE_U32F32);
        s = kalman_update_fixed(&s, observation);
        assert!(s.estimate.to_bits() <= observation.to_bits());
        assert!(u128::from(observation.to_bits() - s.estimate.to_bits()) <= bound);
    }
}

#[test]
fn rising_sequence_lag_is_within_the_tolerance_signed() {
    let one = ONE_I16F16 as u128;
    let mut s = KalmanState::new_fixed(
        I16F16::from_bits(ONE_I16F16),
        I16F16::from_bits(ONE_I16F16),
        I16F16::from_bits(65),
        I16F16::from_bits(65),
    );
    let bound = tolerance(65, 65, one, one);
    assert_eq!(bound, 65538);
    for i in 1..=32767i32 {
        let observation = I16F16::from_bits(i * ONE_I16F16);
        s = kalman_update_fixed(&s, observation);
        assert!(s.estimate.to_bits() <= observation.to_bits());
        assert!(((observation.to_bits() - s.estimate.to_bits()) as u128) <= bound);
    }
}
