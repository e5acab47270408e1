use fmsynth::fp::FP;

fn from_f32(x: f32) -> FP {
    FP::raw((x * 65536.0) as i32)
}

fn to_f32(v: FP) -> f32 {
    v.repr as f32 / 65536.0
}

#[test]
fn test_fp() {
    let fp1 = FP::from(1);
    let fp2 = FP::from(2);
    let fp_pi = from_f32(3.1415279);
    assert_eq!(fp1.repr, 0x1_0000);
    assert_eq!(fp2.repr, 0x2_0000);
    assert_eq!(fp_pi.repr, 0x3_243B);
    assert!(fp1 < fp_pi);
    assert!(fp1.add(fp_pi) == from_f32(4.1415279));
    assert!(fp_pi > fp2);
    assert_eq!(fp1.mul(fp2), fp2);
    assert_eq!(fp2.mul(fp_pi), from_f32(6.2830558));
    assert_eq!(fp1.add(fp2.mul(fp_pi)), from_f32(7.2830558));
}

#[test]
fn test_from_int_mul_exact() {
    assert_eq!(FP::from(1).mul(FP::from(2)), FP::from(2));
    assert_eq!(FP::from(3).mul(FP::from(4)), FP::from(12));
    assert_eq!(FP::from(-1).mul(FP::from(2)), FP::from(-2));
}

#[test]
fn test_mul_negative_rounds_toward_negative_infinity() {
    // golden value: (-3 * 1) >> 16 floors to -1, where truncation would give 0
    assert_eq!(FP::raw(-3).mul(FP::raw(1)).repr, -1);
    assert_eq!(FP::raw(3).mul(FP::raw(1)).repr, 0);
    // -1.5 * 0.5 = -0.75 exactly, no rounding needed
    assert_eq!(FP::raw(-98304).mul(FP::raw(32768)).repr, -49152);
    // -1.00001526 * 0.5 rounds down, not toward zero
    assert_eq!(FP::raw(-65537).mul(FP::raw(32768)).repr, -32769);
}

#[test]
fn test_round_trip_within_resolution() {
    // to_float(from_float(x)) stays within one Q16.16 step of x
    let mut x: f32 = -100.0;
    while x < 100.0 {
        let rt = to_f32(from_f32(x));
        assert!((rt - x).abs() <= 1.0 / 65536.0, "round trip failed at {x}: {rt}");
        x += 0.0137;
    }
    for v in [0.0f32, -0.5, 0.5, 1.0, -1.0, 99.99884, -99.99884] {
        let rt = to_f32(from_f32(v));
        assert!((rt - v).abs() <= 1.0 / 65536.0);
    }
}

#[test]
fn test_frac_and_int_part() {
    let v = FP::raw(0x1_8000);
    assert_eq!(v.frac().repr, 0x8000);
    assert_eq!(v.fraq(), 0x8000);
    assert_eq!(v.int_part(), 1);
    // negative values: the fractional part is taken from below
    let n = FP::raw(-1);
    assert_eq!(n.fraq(), 0xFFFF);
    assert_eq!(n.int_part(), -1);
    let h = FP::raw(-0x8000);
    assert_eq!(h.fraq(), 0x8000);
    assert_eq!(h.int_part(), -1);
    assert_eq!(FP::raw(0).fraq(), 0);
    assert_eq!(FP::raw(i32::MIN).int_part(), -0x8000);
}

#[test]
fn test_shift_ops() {
    assert_eq!(FP::raw(6).shr(1).repr, 3);
    // arithmetic shift of a negative value floors
    assert_eq!(FP::raw(-7).shr(1).repr, -4);
    assert_eq!(FP::raw(-1).shr(4).repr, -1);
    assert_eq!(FP::raw(5).shl(3).repr, 40);
    assert_eq!(FP::raw(-5).shl(3).repr, -40);
    assert_eq!(FP::raw(0x1234).bitand(0xFF0).repr, 0x230);
}

#[test]
fn test_wrapping_add_sub() {
    assert_eq!(FP::raw(i32::MAX).add(FP::raw(1)).repr, i32::MIN);
    assert_eq!(FP::raw(i32::MIN).sub(FP::raw(1)).repr, i32::MAX);
    assert_eq!(FP::raw(5).neg().repr, -5);
    assert_eq!(FP::raw(7).muli(3).repr, 21);
}
