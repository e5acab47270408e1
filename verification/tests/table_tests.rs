use fmsynth::fp::FP;
use fmsynth::sin::sin_from_table;
use fmsynth::wave_generator::{WaveForm, WaveGenerator};

#[test]
fn test_sin_golden() {
    assert_eq!(sin_from_table(0), 0);
    assert_eq!(sin_from_table(0x1000), 25079);
    assert_eq!(sin_from_table(0x2000), 46340);
    assert_eq!(sin_from_table(0x3FFF), 65535);
    // only the low 14 bits are significant
    assert_eq!(sin_from_table(0x4000), 0);
    assert_eq!(sin_from_table(0x4000 + 0x2000), 46340);
}

#[test]
fn test_sin_accuracy_sweep() {
    for w in 0..0x4000i32 {
        let approx = sin_from_table(w) as f64 / 65536.0;
        let true_value = (2.0 * std::f64::consts::PI * w as f64 / 65536.0).sin();
        assert!(
            (approx - true_value).abs() < 1.0e-4,
            "sine lookup off at {w}: {approx} vs {true_value}"
        );
    }
}

#[test]
fn test_sin_monotone_on_quarter() {
    let mut prev = sin_from_table(0);
    for w in 1..0x4000i32 {
        let cur = sin_from_table(w);
        assert!(cur >= prev, "sine lookup not monotone at {w}");
        prev = cur;
    }
}

#[test]
fn test_fullsine_continuity() {
    // no jump anywhere over a full cycle, quadrant boundaries included
    let mut wg = WaveGenerator::new();
    wg.set_wave(WaveForm::FullSine);
    let mut prev = wg.generate(FP::raw(0)).repr;
    for p in 1..=0x1_0000i32 {
        let cur = wg.generate(FP::raw(p)).repr;
        assert!((cur - prev).abs() <= 8, "fullsine jumps at phase {p}");
        prev = cur;
    }
}

#[test]
fn test_exp_golden() {
    assert_eq!(FP::raw(0).exp().repr, 0x1_0000);
    assert_eq!(FP::raw(0x1_0000).exp().repr, 0x2_0000);
    assert_eq!(FP::raw(-0x1_0000).exp().repr, 0x8000);
    assert_eq!(FP::raw(0x8000).exp().repr, 92682);
    assert_eq!(FP::raw(-196608).exp().repr, 8192);
}

#[test]
fn test_exp_accuracy_sweep() {
    let mut v = -4 * 65536i32;
    while v < 2 * 65536 {
        let approx = FP::raw(v).exp().repr as f64 / 65536.0;
        let true_value = (v as f64 / 65536.0).exp2();
        assert!(
            ((approx - true_value) / true_value).abs() < 5.0e-4,
            "exp lookup off at {v}: {approx} vs {true_value}"
        );
        v += 7;
    }
}

#[test]
fn test_exp_monotone() {
    let mut prev = FP::raw(-4 * 65536).exp().repr;
    let mut v = -4 * 65536i32 + 1;
    while v < 65536 {
        let cur = FP::raw(v).exp().repr;
        assert!(cur >= prev, "exp lookup not monotone at {v}");
        prev = cur;
        v += 1;
    }
}

#[test]
fn test_exp_extremes() {
    // large exponents saturate, very small ones underflow to zero
    assert_eq!(FP::raw(15 << 16).exp().repr, i32::MAX);
    assert_eq!(FP::raw(100 << 16).exp().repr, i32::MAX);
    assert_eq!(FP::raw(-18 << 16).exp().repr, 0);
    assert_eq!(FP::raw(14 << 16).exp().repr, 0x1_0000 << 14);
}
