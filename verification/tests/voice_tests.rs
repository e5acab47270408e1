use fmsynth::env_generator::EnvState;
use fmsynth::fp::FP;
use fmsynth::operator::Operator;
use fmsynth::phase_generator::{PhaseGenerator, LOG2_SF_REPR};
use fmsynth::voice::Voice;
use fmsynth::wave_generator::{WaveForm, WaveGenerator};

fn from_f32(x: f32) -> FP {
    FP::raw((x * 65536.0) as i32)
}

// log2(110 Hz) in Q16.16, the A two octaves below concert pitch
const NOTE_A2: i32 = 0x7_C807;

fn configured_voice() -> Voice {
    let mut voice = Voice::new();

    voice.operators[0].wave_gen.waveform = WaveForm::FullSine;
    voice.operators[0].total_level = 48;
    voice.operators[0].phase_gen.tune = FP::from(1);
    voice.operators[0].env_gen.attack_rate = from_f32(0.2);
    voice.operators[0].env_gen.decay_rate = from_f32(0.01);
    voice.operators[0].env_gen.sustain_level = from_f32(0.59);
    voice.operators[0].env_gen.release_rate = from_f32(0.005);

    voice.operators[1].wave_gen.waveform = WaveForm::Square;
    voice.operators[1].total_level = 32;
    voice.operators[1].phase_gen.tune = FP::from(-1);
    voice.operators[1].env_gen.attack_rate = from_f32(0.2);
    voice.operators[1].env_gen.decay_rate = from_f32(0.01);
    voice.operators[1].env_gen.sustain_level = from_f32(0.59);
    voice.operators[1].env_gen.release_rate = from_f32(0.005);

    voice.operators[2].wave_gen.waveform = WaveForm::Sawish;
    voice.operators[2].total_level = 63;
    voice.operators[2].phase_gen.tune = from_f32(0.5833);
    voice.operators[2].env_gen.attack_rate = from_f32(0.999);
    voice.operators[2].env_gen.decay_rate = from_f32(0.001);
    voice.operators[2].env_gen.sustain_level = from_f32(0.3);
    voice.operators[2].env_gen.release_rate = from_f32(0.005);
    voice.operators[2].env_gen.is_sustained = false;

    voice.operators[3].wave_gen.waveform = WaveForm::FullSine;
    voice.operators[3].total_level = 255;
    voice.operators[3].phase_gen.tune = FP::from(1);
    voice.operators[3].env_gen.attack_rate = from_f32(0.999);
    voice.operators[3].env_gen.decay_rate = from_f32(0.002);
    voice.operators[3].env_gen.sustain_level = from_f32(0.5);
    voice.operators[3].env_gen.release_rate = from_f32(0.005);
    voice.operators[3].feedback_level = 100;

    voice
}

#[test]
fn test_serial_chain_matches_manual() {
    // algorithm 0: operator 0 unmodulated, each later operator modulated by
    // its predecessor's sample, operator 3's sample is the voice's
    let mut voice = configured_voice();
    assert!(voice.set_algorithm(0));
    voice.note_on(FP::raw(NOTE_A2));

    let mut manual: [Operator; 4] = voice.operators;

    for _ in 0..64 {
        let sample = voice.get_sample();

        manual[0].mod_input = FP::raw(0);
        let s0 = manual[0].get_sample();
        manual[1].mod_input = s0;
        let s1 = manual[1].get_sample();
        manual[2].mod_input = s1;
        let s2 = manual[2].get_sample();
        manual[3].mod_input = s2;
        let s3 = manual[3].get_sample();

        assert_eq!(sample, s3);
        assert_eq!(voice.operators[0], manual[0]);
        assert_eq!(voice.operators[1], manual[1]);
        assert_eq!(voice.operators[2], manual[2]);
        assert_eq!(voice.operators[3], manual[3]);
    }
}

#[test]
fn test_parallel_sum() {
    // algorithm 7: every operator unmodulated, the sample is their sum
    let mut voice = configured_voice();
    assert!(voice.set_algorithm(7));
    voice.note_on(FP::raw(NOTE_A2));

    let mut manual: [Operator; 4] = voice.operators;

    for _ in 0..64 {
        let sample = voice.get_sample();
        let mut sum = FP::raw(0);
        for op in manual.iter_mut() {
            op.mod_input = FP::raw(0);
            sum = sum.add(op.get_sample());
        }
        assert_eq!(sample, sum);
    }
}

#[test]
fn test_determinism_bit_identical() {
    // a fixed patch produces the same first N samples on every run
    let mut first = configured_voice();
    first.set_algorithm(1);
    first.note_on(FP::raw(NOTE_A2));
    let mut second = configured_voice();
    second.set_algorithm(1);
    second.note_on(FP::raw(NOTE_A2));

    let mut all_zero = true;
    for _ in 0..500 {
        let a = first.get_sample();
        let b = second.get_sample();
        assert_eq!(a.repr, b.repr);
        if a.repr != 0 {
            all_zero = false;
        }
    }
    assert!(!all_zero, "the patch should make sound");
}

#[test]
fn test_muted_operator_outputs_zero() {
    // total_level == 0 forces the output to exactly zero every sample,
    // whatever the waveform, envelope or feedback
    let mut op = Operator::new();
    op.total_level = 0;
    op.feedback_level = 255;
    op.wave_gen.waveform = WaveForm::Square;
    op.env_gen.attack_rate = from_f32(0.9);
    op.phase_gen.flog2 = FP::raw(NOTE_A2);
    op.env_gen.open();
    for _ in 0..256 {
        op.mod_input = FP::raw(12345);
        let s = op.get_sample();
        assert_eq!(s.repr, 0);
        assert_eq!(op.feedback.repr, 0);
    }
}

#[test]
fn test_muted_operator_config_is_inaudible() {
    // two voices differing only in a muted operator's waveform and envelope
    // produce identical output: the muted operator contributes exactly zero
    let mut a = configured_voice();
    let mut b = configured_voice();
    a.operators[1].total_level = 0;
    b.operators[1].total_level = 0;
    b.operators[1].wave_gen.waveform = WaveForm::FastSine;
    b.operators[1].env_gen.attack_rate = from_f32(0.77);
    a.set_algorithm(7);
    b.set_algorithm(7);
    a.note_on(FP::raw(NOTE_A2));
    b.note_on(FP::raw(NOTE_A2));
    for _ in 0..256 {
        assert_eq!(a.get_sample().repr, b.get_sample().repr);
    }
}

#[test]
fn test_set_algorithm_rejects_out_of_range() {
    let mut voice = Voice::new();
    assert!(voice.set_algorithm(7));
    assert_eq!(voice.algorithm, 7);
    assert!(!voice.set_algorithm(8));
    assert_eq!(voice.algorithm, 7);
    assert!(!voice.set_algorithm(usize::MAX));
    assert_eq!(voice.algorithm, 7);
}

#[test]
fn test_note_on_and_off() {
    let mut voice = configured_voice();
    voice.note_on(FP::raw(NOTE_A2));
    for op in voice.operators.iter() {
        assert_eq!(op.phase_gen.flog2.repr, NOTE_A2);
        assert_eq!(op.env_gen.state, EnvState::Attack);
    }
    voice.note_off();
    for op in voice.operators.iter() {
        assert_eq!(op.env_gen.state, EnvState::Release);
    }
    voice.set_freq(FP::raw(NOTE_A2 + 0x1_0000));
    for op in voice.operators.iter() {
        assert_eq!(op.phase_gen.flog2.repr, NOTE_A2 + 0x1_0000);
        // set_freq leaves the envelopes alone
        assert_eq!(op.env_gen.state, EnvState::Release);
    }
}

#[test]
fn test_op_accessor() {
    let mut voice = Voice::new();
    voice.op(2).total_level = 10;
    assert_eq!(voice.operators[2].total_level, 10);
    assert_eq!(voice.operators[0].total_level, 255);
}

#[test]
fn test_phase_constant_step() {
    // for constant pitch the accumulator advances by a fixed step modulo 1
    let mut pg = PhaseGenerator::new();
    pg.set_freq(FP::raw(NOTE_A2));
    let step = FP::raw(NOTE_A2).sub(FP::raw(LOG2_SF_REPR)).exp().repr;
    assert!(step > 0);
    let mut expected: i64 = 0;
    for _ in 0..4096 {
        pg.update(FP::raw(0));
        expected = (expected + step as i64) & 0xFFFF;
        assert_eq!(pg.phase.repr as i64, expected);
    }
    // the sequence returns to its start after 2^16 / gcd(step, 2^16) updates
    let mut g: i64 = step as i64;
    let mut b: i64 = 0x1_0000;
    while b != 0 {
        let t = g % b;
        g = b;
        b = t;
    }
    let period = 0x1_0000 / g;
    let mut pg2 = PhaseGenerator::new();
    pg2.set_freq(FP::raw(NOTE_A2));
    let start = pg2.phase.repr;
    let mut returned = 0i64;
    loop {
        pg2.update(FP::raw(0));
        returned += 1;
        if pg2.phase.repr == start || returned > period {
            break;
        }
    }
    assert_eq!(returned, period);
}

#[test]
fn test_wave_shapes_golden() {
    let mut wg = WaveGenerator::new();
    // full sine quadrant signs and mirror symmetry
    wg.set_wave(WaveForm::FullSine);
    assert_eq!(wg.generate(FP::raw(0)).repr, 0);
    assert_eq!(wg.generate(FP::raw(0x2000)).repr, 46340);
    // the mirrored quadrants read the table at 0x3FFF - w
    assert_eq!(wg.generate(FP::raw(0x6000)).repr, 46335);
    assert_eq!(wg.generate(FP::raw(0xA000)).repr, -46340);
    assert_eq!(wg.generate(FP::raw(0xE000)).repr, -46335);
    // half sine is silent in the negative half-cycle
    wg.set_wave(WaveForm::HalfSine);
    assert_eq!(wg.generate(FP::raw(0x2000)).repr, 46340);
    assert_eq!(wg.generate(FP::raw(0xA000)).repr, 0);
    assert_eq!(wg.generate(FP::raw(0xE000)).repr, 0);
    // rectified double half sine repeats the positive arch
    wg.set_wave(WaveForm::DblHalfSine);
    assert_eq!(wg.generate(FP::raw(0x2000)).repr, 46340);
    assert_eq!(wg.generate(FP::raw(0xA000)).repr, 46340);
    assert_eq!(wg.generate(FP::raw(0x6000)).repr, 46335);
    // double quarter sine: positive arch, silence, negative arch, silence
    wg.set_wave(WaveForm::DblQuartSine);
    assert_eq!(wg.generate(FP::raw(0x2000)).repr, 46340);
    assert_eq!(wg.generate(FP::raw(0x6000)).repr, 0);
    assert_eq!(wg.generate(FP::raw(0xA000)).repr, -46340);
    // fast sine runs at doubled rate in the first half-cycle only
    wg.set_wave(WaveForm::FastSine);
    assert_eq!(wg.generate(FP::raw(0x1000)).repr, 46340);
    assert_eq!(wg.generate(FP::raw(0x5000)).repr, -46340);
    assert_eq!(wg.generate(FP::raw(0x9000)).repr, 0);
    wg.set_wave(WaveForm::FastHalfSine);
    assert_eq!(wg.generate(FP::raw(0x1000)).repr, 46340);
    assert_eq!(wg.generate(FP::raw(0x5000)).repr, 46340);
    assert_eq!(wg.generate(FP::raw(0x9000)).repr, 0);
    // square is constant per half-cycle
    wg.set_wave(WaveForm::Square);
    assert_eq!(wg.generate(FP::raw(0x1234)).repr, 0x1_0000);
    assert_eq!(wg.generate(FP::raw(0x5678)).repr, 0x1_0000);
    assert_eq!(wg.generate(FP::raw(0x9ABC)).repr, -0x1_0000);
    assert_eq!(wg.generate(FP::raw(0xDEF0)).repr, -0x1_0000);
    // sawish rises through the first half-cycle
    wg.set_wave(WaveForm::Sawish);
    assert_eq!(wg.generate(FP::raw(0)).repr, 0);
    assert!(wg.generate(FP::raw(0x2000)).repr > 0);
    assert!(wg.generate(FP::raw(0x6000)).repr > wg.generate(FP::raw(0x2000)).repr);
    assert!(wg.generate(FP::raw(0xA000)).repr < 0);
}
