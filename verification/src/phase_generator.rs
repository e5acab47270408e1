//! Phase accumulator driven by a logarithmic pitch.
//!
//! The pitch is `log2` of the frequency in Q16.16: the integer part is the
//! octave and the fractional part the note within the octave (a
//! one-volt-per-octave convention).  Each update advances the stored phase by
//! `exp2(pitch + tuning - log2(sample rate))` and keeps only the fractional
//! bits, modelling a free-running oscillator; the modulation input perturbs
//! only the returned phase, never the stored accumulator.

use vstd::prelude::*;

use crate::exp::fp_exp;
use crate::fp::{fp_add, fp_frac, fp_sub, FP};

verus! {

use vstd::arithmetic::div_mod::{
    lemma_add_mod_noop,
    lemma_mod_multiples_vanish,
    lemma_mod_twice,
};

pub const SAMPLE_FREQ: u32 = 48000;

/// log2(48000) = 15.55075, rounded to Q16.16.
pub const LOG2_SF_REPR: i32 = 0xF_8CFE;

#[derive(Debug, Clone, Copy, PartialEq, Eq, Structural)]
pub struct PhaseGenerator {
    pub phase: FP,
    pub flog2: FP,
    pub tune: FP,
}

/// The per-sample phase increment: exp2 of the configured pitch plus tuning,
/// less log2 of the sample rate, so that the oscillator runs at
/// `exp2(pitch + tuning) / sample_rate` cycles per sample.
pub open spec fn pg_increment(pg: PhaseGenerator) -> FP {
    fp_exp(fp_sub(fp_add(pg.flog2, pg.tune), FP { repr: LOG2_SF_REPR }))
}

/// State after one update: the accumulator advances by the increment and
/// wraps into [0, 1) by keeping the fractional bits.
pub open spec fn pg_step(pg: PhaseGenerator) -> PhaseGenerator {
    PhaseGenerator { phase: fp_frac(fp_add(pg.phase, pg_increment(pg))), ..pg }
}

/// Value returned by one update: the advanced accumulator perturbed by the
/// modulation input, again wrapped into [0, 1).
pub open spec fn pg_output(pg: PhaseGenerator, m: FP) -> FP {
    fp_frac(fp_add(pg_step(pg).phase, m))
}

impl PhaseGenerator {
    pub fn new() -> (r: PhaseGenerator)
        ensures
            r == (PhaseGenerator {
                phase: FP { repr: 0 },
                flog2: FP { repr: 0 },
                tune: FP { repr: 0 },
            }),
    {
        PhaseGenerator { phase: FP::raw(0), flog2: FP::raw(0), tune: FP::raw(0) }
    }

    pub fn set_freq(&mut self, freq_log2: FP)
        ensures
            *final(self) == (PhaseGenerator { flog2: freq_log2, ..*old(self) }),
    {
        self.flog2 = freq_log2;
    }

    /// Advance the accumulator one sample and return the phase to read,
    /// shifted by the modulation input `m`.
    pub fn update(&mut self, m: FP) -> (r: FP)
        ensures
            *final(self) == pg_step(*old(self)),
            r == pg_output(*old(self), m),
    {
        let phase_inc = self.flog2.add(self.tune).sub(FP::raw(LOG2_SF_REPR)).exp();
        self.phase = self.phase.add(phase_inc).frac();
        self.phase.add(m).frac()
    }
}

/// The stored phase after `k` updates of a generator whose pitch and tuning
/// are left alone.
pub open spec fn pg_phase_after(pg: PhaseGenerator, k: nat) -> PhaseGenerator
    decreases k,
{
    if k == 0 {
        pg
    } else {
        pg_step(pg_phase_after(pg, (k - 1) as nat))
    }
}

/// Phase advances by a constant step.  For a constant pitch, tuning and
/// sample rate the increment never changes, and after `k` updates the stored
/// accumulator is congruent to the initial phase plus `k` times the increment,
/// modulo one full cycle (2^16 raw units) - so the phase walks in equal steps
/// and wraps modulo 1, with period 2^16 / gcd(step, 2^16) updates.
pub proof fn lemma_pg_constant_step(pg: PhaseGenerator, k: nat)
    ensures
        pg_phase_after(pg, k).flog2 == pg.flog2,
        pg_phase_after(pg, k).tune == pg.tune,
        pg_phase_after(pg, k).phase.repr as int % 0x1_0000 == (pg.phase.repr + k * pg_increment(
            pg,
        ).repr) % 0x1_0000,
        k > 0 ==> 0 <= pg_phase_after(pg, k).phase.repr < 0x1_0000,
    decreases k,
{
    let inc = pg_increment(pg).repr as int;
    if k == 0 {
        lemma_mod_twice(pg.phase.repr as int, 0x1_0000);
        assert(k * inc == 0) by (nonlinear_arith)
            requires
                k == 0,
        ;
    } else {
        let prev = pg_phase_after(pg, (k - 1) as nat);
        lemma_pg_constant_step(pg, (k - 1) as nat);
        assert(pg_increment(prev) == pg_increment(pg));
        let s = prev.phase.repr as int;
        let w = vstd::wrapping::i32_specs::wrapping_add(prev.phase.repr, pg_increment(pg).repr)
            as int;
        // wrapping addition differs from the exact sum by a multiple of 2^32,
        // which mod 2^16 vanishes
        if s + inc > i32::MAX {
            lemma_mod_multiples_vanish(-0x1_0000, s + inc, 0x1_0000);
            assert((s + inc - 0x1_0000_0000) % 0x1_0000 == (s + inc) % 0x1_0000) by {
                assert(s + inc - 0x1_0000_0000 == (-0x1_0000) * 0x1_0000 + (s + inc));
            };
        } else if s + inc < i32::MIN {
            lemma_mod_multiples_vanish(0x1_0000, s + inc, 0x1_0000);
            assert((s + inc + 0x1_0000_0000) % 0x1_0000 == (s + inc) % 0x1_0000) by {
                assert(s + inc + 0x1_0000_0000 == 0x1_0000 * 0x1_0000 + (s + inc));
            };
        }
        assert(w % 0x1_0000 == (s + inc) % 0x1_0000);
        // the new phase is (s + inc) mod 2^16; fold the previous congruence in
        lemma_mod_twice(w, 0x1_0000);
        lemma_add_mod_noop(s, inc, 0x1_0000);
        lemma_add_mod_noop(pg.phase.repr + (k - 1) * inc, inc, 0x1_0000);
        lemma_mod_twice(inc, 0x1_0000);
        assert(pg.phase.repr + (k - 1) * inc + inc == pg.phase.repr + k * inc) by (nonlinear_arith);
    }
}

} // verus!
