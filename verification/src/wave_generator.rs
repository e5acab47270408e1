//! Waveform generator: eight sine-derived timbres.
//!
//! A phase value's fractional bits split into a 2-bit quadrant code and a
//! 14-bit quarter-period sub-phase.  Each shape is a fixed combination of
//! quarter-sine lookups, mirrorings, sign flips and silences per quadrant,
//! all derived from the one quarter-period sine table.

use vstd::prelude::*;

use crate::fp::{fp_add, fp_muli, fp_neg, fp_shr, fp_sub, FP, FP_ONE_REPR};
use crate::sin::fp_sinw;

verus! {

use vstd::arithmetic::div_mod::lemma_small_mod;

pub const FP_MINUSONE_REPR: i32 = -0x1_0000;

pub const FP_QUART_REPR: i32 = 0x3FFF;

pub const FP_EIGHTH_REPR: i32 = 0x1FFF;

#[derive(Debug, Clone, Copy, PartialEq, Eq, Structural)]
pub enum WaveForm {
    FullSine,
    HalfSine,
    DblHalfSine,
    DblQuartSine,
    FastSine,
    FastHalfSine,
    Sawish,
    Square,
}

#[derive(Debug, Clone, Copy, PartialEq, Eq, Structural)]
pub struct WaveGenerator {
    pub waveform: WaveForm,
}

/// Standard sine: quadrants 0..3 give +sin(w), +sin(quarter - w), -sin(w),
/// -sin(quarter - w).
pub open spec fn fullsine_value(q: int, w: FP) -> FP {
    if q == 0 {
        fp_sinw(w)
    } else if q == 1 {
        fp_sinw(fp_sub(FP { repr: FP_QUART_REPR }, w))
    } else if q == 2 {
        fp_neg(fp_sinw(w))
    } else if q == 3 {
        fp_neg(fp_sinw(fp_sub(FP { repr: FP_QUART_REPR }, w)))
    } else {
        FP { repr: 0 }
    }
}

/// Positive half-cycle only: quadrants 2 and 3 are silent.
pub open spec fn halfsine_value(q: int, w: FP) -> FP {
    if q == 0 {
        fp_sinw(w)
    } else if q == 1 {
        fp_sinw(fp_sub(FP { repr: FP_QUART_REPR }, w))
    } else {
        FP { repr: 0 }
    }
}

/// Full-wave rectified sine at doubled apparent frequency: quadrants 0 and 2
/// share one formula, 1 and 3 the other.
pub open spec fn dblhalfsine_value(q: int, w: FP) -> FP {
    if q == 0 || q == 2 {
        fp_sinw(w)
    } else if q == 1 || q == 3 {
        fp_sinw(fp_sub(FP { repr: FP_QUART_REPR }, w))
    } else {
        FP { repr: 0 }
    }
}

/// Nonzero only in quadrants 0 and 2, with opposite signs.
pub open spec fn dblquartsine_value(q: int, w: FP) -> FP {
    if q == 0 {
        fp_sinw(w)
    } else if q == 2 {
        fp_neg(fp_sinw(w))
    } else {
        FP { repr: 0 }
    }
}

/// Eighth-cycle folding: the rising half of a sine cycle compressed into
/// half a quadrant, mirrored for the second half.
pub open spec fn fold_value(w: FP) -> FP {
    if w.repr < FP_EIGHTH_REPR {
        fp_sinw(fp_muli(w, 2))
    } else {
        fp_sinw(fp_muli(fp_sub(FP { repr: FP_QUART_REPR }, w), 2))
    }
}

/// Two folded cycles per half period, positive in quadrant 0 and negative in
/// quadrant 1; silent in quadrants 2 and 3.
pub open spec fn fastsine_value(q: int, w: FP) -> FP {
    if q == 0 {
        fold_value(w)
    } else if q == 1 {
        fp_neg(fold_value(w))
    } else {
        FP { repr: 0 }
    }
}

/// The same folding, always positive, over quadrants 0 and 1; silent in 2
/// and 3.
pub open spec fn fasthalfsine_value(q: int, w: FP) -> FP {
    if q == 0 || q == 1 {
        fold_value(w)
    } else {
        FP { repr: 0 }
    }
}

/// A sawtooth approximation from sine primitives: half-rate sub-phase with
/// per-quadrant offsets and sign flips.
pub open spec fn sawish_value(q: int, w: FP) -> FP {
    let w2 = fp_shr(w, 1);
    if q == 0 {
        fp_sinw(w2)
    } else if q == 1 {
        fp_sinw(fp_add(w2, FP { repr: FP_EIGHTH_REPR }))
    } else if q == 2 {
        fp_neg(fp_sinw(fp_sub(FP { repr: FP_QUART_REPR }, w2)))
    } else if q == 3 {
        fp_neg(fp_sinw(fp_sub(FP { repr: FP_EIGHTH_REPR }, w2)))
    } else {
        FP { repr: 0 }
    }
}

/// Constant +1 over quadrants 0 and 1, constant -1 over 2 and 3.
pub open spec fn square_value(q: int) -> FP {
    if q == 0 || q == 1 {
        FP { repr: FP_ONE_REPR }
    } else if q == 2 || q == 3 {
        FP { repr: FP_MINUSONE_REPR }
    } else {
        FP { repr: 0 }
    }
}

/// The sample for a waveform at a phase: quadrant code and quarter-period
/// sub-phase are cut from the phase's fractional bits, then dispatched to
/// the shape.
pub open spec fn wave_value(wf: WaveForm, phase: FP) -> FP {
    let ph = phase.repr as int % 0x1_0000;
    let q = ph / 0x4000;
    let w = FP { repr: (ph % 0x4000) as i32 };
    match wf {
        WaveForm::FullSine => fullsine_value(q, w),
        WaveForm::HalfSine => halfsine_value(q, w),
        WaveForm::DblHalfSine => dblhalfsine_value(q, w),
        WaveForm::DblQuartSine => dblquartsine_value(q, w),
        WaveForm::FastSine => fastsine_value(q, w),
        WaveForm::FastHalfSine => fasthalfsine_value(q, w),
        WaveForm::Sawish => sawish_value(q, w),
        WaveForm::Square => square_value(q),
    }
}

impl WaveGenerator {
    pub fn new() -> (r: WaveGenerator)
        ensures
            r == (WaveGenerator { waveform: WaveForm::FullSine }),
    {
        WaveGenerator { waveform: WaveForm::FullSine }
    }

    pub fn set_wave(&mut self, wave: WaveForm)
        ensures
            *final(self) == (WaveGenerator { waveform: wave }),
    {
        self.waveform = wave;
    }

    /// The sample for the selected waveform at the given phase.
    pub fn generate(&self, phase: FP) -> (r: FP)
        ensures
            r == wave_value(self.waveform, phase),
    {
        let ph: u16 = phase.fraq();
        let q: u16 = ph / 0x4000;
        let w: FP = FP::raw((ph % 0x4000) as i32);
        match self.waveform {
            WaveForm::FullSine => Self::fullsine(q, w),
            WaveForm::HalfSine => Self::halfsine(q, w),
            WaveForm::DblHalfSine => Self::dblhalfsine(q, w),
            WaveForm::DblQuartSine => Self::dblquartsine(q, w),
            WaveForm::FastSine => Self::fastsine(q, w),
            WaveForm::FastHalfSine => Self::fasthalfsine(q, w),
            WaveForm::Sawish => Self::sawish(q, w),
            WaveForm::Square => Self::square(q, w),
        }
    }

    fn fullsine(q: u16, w: FP) -> (r: FP)
        requires
            q < 4,
            0 <= w.repr <= FP_QUART_REPR,
        ensures
            r == fullsine_value(q as int, w),
    {
        match q {
            0 => w.sinw(),
            1 => FP::raw(FP_QUART_REPR).sub(w).sinw(),
            2 => w.sinw().neg(),
            3 => FP::raw(FP_QUART_REPR).sub(w).sinw().neg(),
            _ => FP::raw(0),
        }
    }

    fn halfsine(q: u16, w: FP) -> (r: FP)
        requires
            q < 4,
            0 <= w.repr <= FP_QUART_REPR,
        ensures
            r == halfsine_value(q as int, w),
    {
        match q {
            0 => w.sinw(),
            1 => FP::raw(FP_QUART_REPR).sub(w).sinw(),
            _ => FP::raw(0),
        }
    }

    fn dblhalfsine(q: u16, w: FP) -> (r: FP)
        requires
            q < 4,
            0 <= w.repr <= FP_QUART_REPR,
        ensures
            r == dblhalfsine_value(q as int, w),
    {
        match q {
            0 | 2 => w.sinw(),
            1 | 3 => FP::raw(FP_QUART_REPR).sub(w).sinw(),
            _ => FP::raw(0),
        }
    }

    fn dblquartsine(q: u16, w: FP) -> (r: FP)
        requires
            q < 4,
            0 <= w.repr <= FP_QUART_REPR,
        ensures
            r == dblquartsine_value(q as int, w),
    {
        match q {
            0 => w.sinw(),
            2 => w.sinw().neg(),
            _ => FP::raw(0),
        }
    }

    /// The folded eighth-cycle lookup shared by the fast shapes.
    fn fold(w: FP) -> (r: FP)
        requires
            0 <= w.repr <= FP_QUART_REPR,
        ensures
            r == fold_value(w),
    {
        proof {
            lemma_small_mod((2 * w.repr) as nat, 0x1_0000_0000nat);
            lemma_small_mod((2 * (FP_QUART_REPR - w.repr)) as nat, 0x1_0000_0000nat);
        }
        if w.repr < FP_EIGHTH_REPR {
            w.muli(2).sinw()
        } else {
            FP::raw(FP_QUART_REPR).sub(w).muli(2).sinw()
        }
    }

    fn fastsine(q: u16, w: FP) -> (r: FP)
        requires
            q < 4,
            0 <= w.repr <= FP_QUART_REPR,
        ensures
            r == fastsine_value(q as int, w),
    {
        match q {
            0 => Self::fold(w),
            1 => Self::fold(w).neg(),
            _ => FP::raw(0),
        }
    }

    fn fasthalfsine(q: u16, w: FP) -> (r: FP)
        requires
            q < 4,
            0 <= w.repr <= FP_QUART_REPR,
        ensures
            r == fasthalfsine_value(q as int, w),
    {
        match q {
            0 | 1 => Self::fold(w),
            _ => FP::raw(0),
        }
    }

    fn sawish(q: u16, w: FP) -> (r: FP)
        requires
            q < 4,
            0 <= w.repr <= FP_QUART_REPR,
        ensures
            r == sawish_value(q as int, w),
    {
        let w2 = w.shr(1);
        proof {
            vstd::arithmetic::power2::lemma2_to64();
            assert(0 <= w.repr as int / 2 <= FP_EIGHTH_REPR);
        }
        match q {
            0 => w2.sinw(),
            1 => w2.add(FP::raw(FP_EIGHTH_REPR)).sinw(),
            2 => FP::raw(FP_QUART_REPR).sub(w2).sinw().neg(),
            3 => FP::raw(FP_EIGHTH_REPR).sub(w2).sinw().neg(),
            _ => FP::raw(0),
        }
    }

    fn square(q: u16, _w: FP) -> (r: FP)
        requires
            q < 4,
        ensures
            r == square_value(q as int),
    {
        match q {
            0 | 1 => FP::raw(FP_ONE_REPR),
            2 | 3 => FP::raw(FP_MINUSONE_REPR),
            _ => FP::raw(0),
        }
    }
}

} // verus!
