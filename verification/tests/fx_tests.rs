use tapedeck::constants::FX_ONE;
use tapedeck::fx::{clamp_i64, fx_mul, noise_sample, osc_wave, soft_sat};
use tapedeck::meter::{isqrt, LevelMeter};

#[test]
fn fixed_point_multiply_truncates_toward_zero() {
    assert_eq!(fx_mul(FX_ONE, FX_ONE), FX_ONE);
    assert_eq!(fx_mul(32_768, 32_768), 16_384);
    assert_eq!(fx_mul(-32_768, 32_768), -16_384);
    assert_eq!(fx_mul(3, 3), 0);
}

#[test]
fn oscillator_wave_is_odd_and_bounded() {
    assert_eq!(osc_wave(0), 0);
    assert_eq!(osc_wave(16_384), FX_ONE);
    assert_eq!(osc_wave(49_152), -FX_ONE);
    for p in (0..65_536).step_by(997) {
        let v = osc_wave(p);
        assert!(v >= -FX_ONE && v <= FX_ONE);
    }
}

#[test]
fn saturator_is_gentle_near_zero_and_clamps_far_out() {
    assert_eq!(soft_sat(0), 0);
    let small = soft_sat(1000);
    assert!((small - 1000).abs() < 20);
    assert_eq!(soft_sat(3 * FX_ONE), FX_ONE);
    assert_eq!(soft_sat(100 * FX_ONE), FX_ONE);
    assert_eq!(soft_sat(-100 * FX_ONE), -FX_ONE);
}

#[test]
fn noise_stays_within_full_scale() {
    let mut state = 1u32;
    for _ in 0..100 {
        state = tapedeck::fx::lcg_next(state);
        let n = noise_sample(state);
        assert!(n >= -FX_ONE && n <= FX_ONE);
    }
}

#[test]
fn integer_square_root_is_exact_on_squares() {
    assert_eq!(isqrt(0), 0);
    assert_eq!(isqrt(1), 1);
    assert_eq!(isqrt(15), 3);
    assert_eq!(isqrt(16), 4);
    assert_eq!(isqrt(1_000_000), 1000);
}

#[test]
fn meter_reports_rms_and_decays_peak() {
    let mut m = LevelMeter::new();
    m.push(300);
    m.push(-400);
    // rms of {300, 400} = sqrt(125000/2) = sqrt(250000 / 4)... floor(sqrt(125000)) = 353
    assert_eq!(m.take_rms(), 353);
    assert_eq!(m.take_peak(), 400);
    // the peak decays by the report factor 0.995
    assert_eq!(m.take_peak(), 398);
    assert_eq!(m.take_rms(), 0);
}

#[test]
fn clamp_orders_bounds() {
    assert_eq!(clamp_i64(5, 0, 10), 5);
    assert_eq!(clamp_i64(-5, 0, 10), 0);
    assert_eq!(clamp_i64(50, 0, 10), 10);
}
