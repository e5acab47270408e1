//! Operator: one FM building block.
//!
//! An operator fuses a phase generator, a waveform shape and an envelope
//! with self-feedback into a single sample producer.  Each sample, the
//! modulation input plus the stored feedback perturbs the phase, the
//! waveform is read at that phase, and the result is scaled by the envelope
//! level and the configured total level; the scaled output, further scaled
//! by the feedback depth, is stored for the next sample's phase.

use vstd::prelude::*;

use crate::env_generator::{env_advance, EnvGenerator};
use crate::fp::{fp_add, fp_from_u8, fp_mul, fp_shr, FP};
use crate::phase_generator::{pg_output, pg_step, PhaseGenerator};
use crate::wave_generator::{wave_value, WaveForm, WaveGenerator};

verus! {

#[derive(Debug, Clone, Copy, PartialEq, Eq, Structural)]
pub struct Operator {
    pub phase_gen: PhaseGenerator,
    pub wave_gen: WaveGenerator,
    pub env_gen: EnvGenerator,
    pub total_level: u8,
    pub feedback_level: u8,
    pub mod_input: FP,
    pub feedback: FP,
}

/// The sample an operator produces: the waveform at the modulated phase,
/// scaled by the envelope level and by `total_level / 256`.  A zero envelope
/// level or a zero total level forces the output to exactly zero, so a muted
/// operator is truly silent and feeds no energy back.  Kept opaque so that
/// voice-level proofs treat one operator sample as a single step.
#[verifier::opaque]
pub open spec fn op_output(o: Operator) -> FP {
    let ph = pg_output(o.phase_gen, fp_add(o.mod_input, o.feedback));
    let wave = wave_value(o.wave_gen.waveform, ph);
    let lvl = env_advance(o.env_gen).level;
    if lvl.repr == 0 || o.total_level == 0 {
        FP { repr: 0 }
    } else {
        fp_shr(fp_mul(fp_mul(wave, lvl), fp_from_u8(o.total_level)), 8)
    }
}

/// The operator state after one sample: phase and envelope advance, and the
/// feedback register holds the output scaled by `feedback_level / 256`, to
/// serve as phase self-modulation on the next sample.  Kept opaque like
/// `op_output`.
#[verifier::opaque]
pub open spec fn op_step(o: Operator) -> Operator {
    Operator {
        phase_gen: pg_step(o.phase_gen),
        env_gen: env_advance(o.env_gen),
        feedback: fp_shr(fp_mul(op_output(o), fp_from_u8(o.feedback_level)), 8),
        ..o
    }
}

/// The default operator: full level, no feedback, silent idle envelope,
/// full sine at zero pitch.
pub open spec fn op_default() -> Operator {
    Operator {
        phase_gen: PhaseGenerator { phase: FP { repr: 0 }, flog2: FP { repr: 0 }, tune: FP { repr: 0 } },
        wave_gen: WaveGenerator { waveform: WaveForm::FullSine },
        env_gen: crate::env_generator::env_default(),
        total_level: 255,
        feedback_level: 0,
        mod_input: FP { repr: 0 },
        feedback: FP { repr: 0 },
    }
}

impl Operator {
    pub fn new() -> (r: Operator)
        ensures
            r == op_default(),
    {
        Operator {
            phase_gen: PhaseGenerator::new(),
            wave_gen: WaveGenerator::new(),
            env_gen: EnvGenerator::new(),
            total_level: 255,
            feedback_level: 0,
            mod_input: FP::raw(0),
            feedback: FP::raw(0),
        }
    }

    /// Configure the logarithmic pitch of the phase generator.
    pub fn set_freq(&mut self, flog2: FP)
        ensures
            *final(self) == (Operator {
                phase_gen: PhaseGenerator { flog2, ..old(self).phase_gen },
                ..*old(self)
            }),
    {
        self.phase_gen.set_freq(flog2);
    }

    /// Configure the waveform shape.
    pub fn set_wave(&mut self, wave: WaveForm)
        ensures
            *final(self) == (Operator {
                wave_gen: WaveGenerator { waveform: wave },
                ..*old(self)
            }),
    {
        self.wave_gen.set_wave(wave);
    }

    /// Produce one sample and advance every generator by one sample period.
    pub fn get_sample(&mut self) -> (r: FP)
        requires
            old(self).env_gen.clock >= 1,
        ensures
            *final(self) == op_step(*old(self)),
            r == op_output(*old(self)),
            final(self).env_gen.clock >= 1,
    {
        proof {
            reveal(op_output);
            reveal(op_step);
        }
        let phase = self.phase_gen.update(self.mod_input.add(self.feedback));
        let wave_sample = self.wave_gen.generate(phase);
        let env_level = self.env_gen.get_sample();
        let output = if env_level.repr == 0 || self.total_level == 0 {
            FP::raw(0)
        } else {
            wave_sample.mul(env_level).mul(FP::from(self.total_level)).shr(8)
        };
        self.feedback = output.mul(FP::from(self.feedback_level)).shr(8);
        output
    }
}

/// Silence guarantee: an operator whose total level is configured to zero
/// produces exactly zero, whatever its waveform, envelope state or inputs,
/// and stores zero feedback, so no energy leaks while it is muted.
pub proof fn lemma_total_level_zero_silences(o: Operator)
    requires
        o.total_level == 0,
    ensures
        op_output(o) == (FP { repr: 0 }),
        op_step(o).feedback == (FP { repr: 0 }),
{
    reveal(op_output);
    reveal(op_step);
    assert(op_step(o).feedback.repr == 0) by {
        let fb = fp_shr(fp_mul(FP { repr: 0 }, fp_from_u8(o.feedback_level)), 8);
        assert(0 * fp_from_u8(o.feedback_level).repr == 0) by (nonlinear_arith);
        assert(fp_mul(FP { repr: 0 }, fp_from_u8(o.feedback_level)).repr == 0);
        vstd::arithmetic::power2::lemma2_to64();
        assert(fb.repr == 0);
    };
}

} // verus!
