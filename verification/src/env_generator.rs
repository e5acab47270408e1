//! Envelope generator: an amplitude-over-time state machine.
//!
//! The lifecycle is Idle -> Attack -> Decay -> (Sustain <-> Release) -> Idle,
//! with Release reachable directly from Attack or Decay.  A curve index
//! counts down from a fixed starting offset toward a floor; the output level
//! follows exponential curves of that index, `8/7 - exp2(index)` while
//! attacking and `exp2(index) - 1/7` while decaying or releasing.  Updates
//! are gated by a clock divider so the envelope can run at a sub-multiple of
//! the sample rate.

use vstd::prelude::*;

use crate::exp::fp_exp;
use crate::fp::{fp_add, fp_shr, fp_sub, FP, FP_ONE_REPR};

verus! {

use vstd::string::StringExecFns;

pub const CLOCK_DIVIDER: u8 = 1;

/// log2(8/7) plus a small delta, in Q16.16: the starting curve index.
pub const INDEX_OFFSET_REPR: i32 = 12625;

/// 8/7 in Q16.16: upper offset of the attack curve.
pub const OFFSET_UP_REPR: i32 = 74898;

/// 1/7 in Q16.16: lower offset of the decay and release curves.
pub const OFFSET_DN_REPR: i32 = 9362;

/// -3.0 in Q16.16: the floor of the curve index.
pub const MIN_INDEX_REPR: i32 = -196608;

#[derive(Debug, Clone, Copy, PartialEq, Eq, Structural)]
pub enum EnvState {
    Idle,
    Attack,
    Decay,
    Sustain,
    Release,
}

#[derive(Debug, Clone, Copy, PartialEq, Eq, Structural)]
pub struct EnvGenerator {
    pub attack_rate: FP,
    pub decay_rate: FP,
    pub sustain_level: FP,
    pub release_rate: FP,
    pub is_sustained: bool,
    pub clock: u8,
    pub index: FP,
    pub level: FP,
    pub state: EnvState,
}

/// One attack update: the index falls by the attack rate and the level rises
/// along `8/7 - exp2(index)`; once the level reaches one or the index the
/// floor, the level clamps to one and the generator enters Decay with the
/// index reset to the starting offset.
pub open spec fn attack_step(e: EnvGenerator) -> EnvGenerator {
    let index2 = fp_sub(e.index, e.attack_rate);
    let level2 = fp_sub(FP { repr: OFFSET_UP_REPR }, fp_exp(index2));
    if level2.repr >= FP_ONE_REPR || index2.repr <= MIN_INDEX_REPR {
        EnvGenerator {
            index: FP { repr: INDEX_OFFSET_REPR },
            level: FP { repr: FP_ONE_REPR },
            state: EnvState::Decay,
            ..e
        }
    } else {
        EnvGenerator { index: index2, level: level2, ..e }
    }
}

/// One decay update: the index falls by the decay rate and the level follows
/// `exp2(index) - 1/7`; once the level reaches the sustain level or the index
/// the floor, the generator holds in Sustain if sustain is enabled and
/// otherwise falls directly through to Release, leaving index and level as
/// they are.
pub open spec fn decay_step(e: EnvGenerator) -> EnvGenerator {
    let index2 = fp_sub(e.index, e.decay_rate);
    let level2 = fp_sub(fp_exp(index2), FP { repr: OFFSET_DN_REPR });
    if level2.repr <= e.sustain_level.repr || index2.repr <= MIN_INDEX_REPR {
        EnvGenerator {
            index: index2,
            level: level2,
            state: if e.is_sustained {
                EnvState::Sustain
            } else {
                EnvState::Release
            },
            ..e
        }
    } else {
        EnvGenerator { index: index2, level: level2, ..e }
    }
}

/// One release update: like decay, but the exit clamps the level to zero and
/// returns to Idle with the index reset to the starting offset.
pub open spec fn release_step(e: EnvGenerator) -> EnvGenerator {
    let index2 = fp_sub(e.index, e.release_rate);
    let level2 = fp_sub(fp_exp(index2), FP { repr: OFFSET_DN_REPR });
    if level2.repr <= 0 || index2.repr <= MIN_INDEX_REPR {
        EnvGenerator {
            index: FP { repr: INDEX_OFFSET_REPR },
            level: FP { repr: 0 },
            state: EnvState::Idle,
            ..e
        }
    } else {
        EnvGenerator { index: index2, level: level2, ..e }
    }
}

/// One ungated envelope update; Idle and Sustain change nothing.
pub open spec fn env_tick(e: EnvGenerator) -> EnvGenerator {
    match e.state {
        EnvState::Attack => attack_step(e),
        EnvState::Decay => decay_step(e),
        EnvState::Release => release_step(e),
        _ => e,
    }
}

/// One sample of the envelope: the clock divider counts down, and on
/// reaching zero it is reloaded and the envelope ticks once.
pub open spec fn env_advance(e: EnvGenerator) -> EnvGenerator {
    if e.clock == 1 {
        EnvGenerator { clock: CLOCK_DIVIDER, ..env_tick(e) }
    } else {
        EnvGenerator { clock: (e.clock - 1) as u8, ..e }
    }
}

/// The release curve value at a curve index.
pub open spec fn release_curve(idx: FP) -> FP {
    fp_sub(fp_exp(idx), FP { repr: OFFSET_DN_REPR })
}

/// One probe of the binary search: move the index down if the release curve
/// overshoots the target level, up if it undershoots.
pub open spec fn search_step(level: FP, idx: FP, adjust: FP) -> FP {
    let guess = release_curve(idx);
    if guess.repr > level.repr {
        fp_sub(idx, adjust)
    } else if guess.repr < level.repr {
        fp_add(idx, adjust)
    } else {
        idx
    }
}

/// `n` probes of the binary search, halving the adjustment each time.
pub open spec fn release_search(level: FP, idx: FP, adjust: FP, n: nat) -> FP
    decreases n,
{
    if n == 0 {
        idx
    } else {
        release_search(level, search_step(level, idx, adjust), fp_shr(adjust, 1), (n - 1) as nat)
    }
}

/// The curve index whose release-curve value best matches the current level:
/// eight binary-search probes over the index range.
pub open spec fn env_release_index(e: EnvGenerator) -> FP {
    let idx0 = fp_shr(fp_add(FP { repr: MIN_INDEX_REPR }, FP { repr: INDEX_OFFSET_REPR }), 1);
    let adj0 = fp_shr(fp_sub(idx0, FP { repr: MIN_INDEX_REPR }), 1);
    release_search(e.level, idx0, adj0, 8)
}

/// Closing the envelope mid-attack first re-aims the curve index at the
/// current level, so the release continues without an audible jump; from any
/// state the generator then enters Release.
pub open spec fn env_close(e: EnvGenerator) -> EnvGenerator {
    if e.state == EnvState::Attack {
        EnvGenerator { index: env_release_index(e), state: EnvState::Release, ..e }
    } else {
        EnvGenerator { state: EnvState::Release, ..e }
    }
}

/// The silent default envelope: idle, level zero, sustain enabled at full
/// level, all rates zero.
pub open spec fn env_default() -> EnvGenerator {
    EnvGenerator {
        attack_rate: FP { repr: 0 },
        decay_rate: FP { repr: 0 },
        sustain_level: FP { repr: FP_ONE_REPR },
        release_rate: FP { repr: 0 },
        is_sustained: true,
        clock: CLOCK_DIVIDER,
        index: FP { repr: INDEX_OFFSET_REPR },
        level: FP { repr: 0 },
        state: EnvState::Idle,
    }
}

impl EnvGenerator {
    pub fn new() -> (r: EnvGenerator)
        ensures
            r == env_default(),
    {
        EnvGenerator {
            attack_rate: FP::raw(0),
            decay_rate: FP::raw(0),
            sustain_level: FP::raw(FP_ONE_REPR),
            release_rate: FP::raw(0),
            is_sustained: true,
            clock: CLOCK_DIVIDER,
            index: FP::raw(INDEX_OFFSET_REPR),
            level: FP::raw(0),
            state: EnvState::Idle,
        }
    }

    /// Start the attack phase, whatever the prior state.
    pub fn open(&mut self)
        ensures
            *final(self) == (EnvGenerator {
                state: EnvState::Attack,
                index: FP { repr: INDEX_OFFSET_REPR },
                ..*old(self)
            }),
    {
        self.state = EnvState::Attack;
        self.index = FP::raw(INDEX_OFFSET_REPR);
    }

    /// Begin the release phase; mid-attack, first match the release curve to
    /// the current level.
    pub fn close(&mut self)
        ensures
            *final(self) == env_close(*old(self)),
    {
        if self.state == EnvState::Attack {
            self.find_release_index();
        }
        self.state = EnvState::Release;
    }

    /// Advance one sample (gated by the clock divider) and return the
    /// current level.
    pub fn get_sample(&mut self) -> (r: FP)
        requires
            old(self).clock >= 1,
        ensures
            *final(self) == env_advance(*old(self)),
            r == env_advance(*old(self)).level,
            final(self).clock >= 1,
    {
        self.clock = self.clock - 1;
        if self.clock == 0 {
            self.clock = CLOCK_DIVIDER;
            match self.state {
                EnvState::Attack => self.attack(),
                EnvState::Decay => self.decay(),
                EnvState::Release => self.release(),
                _ => {},
            }
        }
        self.level
    }

    fn attack(&mut self)
        ensures
            *final(self) == attack_step(*old(self)),
    {
        self.index = self.index.sub(self.attack_rate);
        self.level = FP::raw(OFFSET_UP_REPR).sub(self.index.exp());
        if self.level.repr >= FP_ONE_REPR || self.index.repr <= MIN_INDEX_REPR {
            self.level = FP::raw(FP_ONE_REPR);
            self.state = EnvState::Decay;
            self.index = FP::raw(INDEX_OFFSET_REPR);
        }
    }

    fn decay(&mut self)
        ensures
            *final(self) == decay_step(*old(self)),
    {
        self.index = self.index.sub(self.decay_rate);
        self.level = self.index.exp().sub(FP::raw(OFFSET_DN_REPR));
        if self.level.repr <= self.sustain_level.repr || self.index.repr <= MIN_INDEX_REPR {
            if self.is_sustained {
                self.state = EnvState::Sustain;
            } else {
                self.state = EnvState::Release;
            }
        }
    }

    fn release(&mut self)
        ensures
            *final(self) == release_step(*old(self)),
    {
        self.index = self.index.sub(self.release_rate);
        self.level = self.index.exp().sub(FP::raw(OFFSET_DN_REPR));
        if self.level.repr <= 0 || self.index.repr <= MIN_INDEX_REPR {
            self.level = FP::raw(0);
            self.state = EnvState::Idle;
            self.index = FP::raw(INDEX_OFFSET_REPR);
        }
    }

    /// Eight binary-search probes for the curve index whose release-curve
    /// value best matches the current level.
    fn find_release_index(&mut self)
        ensures
            *final(self) == (EnvGenerator { index: env_release_index(*old(self)), ..*old(self) }),
    {
        let mut idx = FP::raw(MIN_INDEX_REPR).add(FP::raw(INDEX_OFFSET_REPR)).shr(1);
        let mut adjust = idx.sub(FP::raw(MIN_INDEX_REPR)).shr(1);
        let mut k: usize = 0;
        while k < 8
            invariant
                k <= 8,
                *self == *old(self),
                release_search(self.level, idx, adjust, (8 - k) as nat) == env_release_index(
                    *old(self),
                ),
            decreases 8 - k,
        {
            let guess = idx.exp().sub(FP::raw(OFFSET_DN_REPR));
            if guess.repr > self.level.repr {
                idx = idx.sub(adjust);
            } else if guess.repr < self.level.repr {
                idx = idx.add(adjust);
            }
            adjust = adjust.shr(1);
            k = k + 1;
        }
        self.index = idx;
    }

    /// A short name for the current state.
    pub fn state_to_str(self) -> (r: String)
        ensures
            r@ == env_state_name(self.state),
    {
        match self.state {
            EnvState::Attack => String::from_str("Att"),
            EnvState::Decay => String::from_str("Dec"),
            EnvState::Idle => String::from_str("Idl"),
            EnvState::Release => String::from_str("Rel"),
            EnvState::Sustain => String::from_str("Sus"),
        }
    }
}

pub open spec fn env_state_name(s: EnvState) -> Seq<char> {
    match s {
        EnvState::Attack => "Att"@,
        EnvState::Decay => "Dec"@,
        EnvState::Idle => "Idl"@,
        EnvState::Release => "Rel"@,
        EnvState::Sustain => "Sus"@,
    }
}

/// The envelope after `k` ungated ticks.
pub open spec fn env_ticks_after(e: EnvGenerator, k: nat) -> EnvGenerator
    decreases k,
{
    if k == 0 {
        e
    } else {
        env_tick(env_ticks_after(e, (k - 1) as nat))
    }
}

proof fn lemma_env_ticks_shift(e: EnvGenerator, k: nat)
    ensures
        env_ticks_after(e, (k + 1) as nat) == env_ticks_after(env_tick(e), k),
    decreases k,
{
    if k == 0 {
        assert(env_ticks_after(e, 1nat) == env_tick(env_ticks_after(e, 0nat)));
        assert(env_ticks_after(env_tick(e), 0nat) == env_tick(e));
    } else {
        lemma_env_ticks_shift(e, (k - 1) as nat);
        assert(env_ticks_after(e, (k + 1) as nat) == env_tick(env_ticks_after(e, k)));
        assert(env_ticks_after(env_tick(e), k) == env_tick(
            env_ticks_after(env_tick(e), (k - 1) as nat),
        ));
    }
}

/// The measure of an attack in progress: how far the curve index stands
/// above its floor.
pub open spec fn attack_gap(e: EnvGenerator) -> nat {
    if e.index.repr > MIN_INDEX_REPR {
        (e.index.repr - MIN_INDEX_REPR) as nat
    } else {
        0
    }
}

/// From Attack - in particular right after `open` - the envelope reaches
/// Decay within a bounded number of ticks for any strictly positive attack
/// rate: each tick moves the index down by the attack rate, and the attack
/// exits at the latest when the index reaches its floor.  The bound is the
/// distance to the floor divided by the rate, plus one tick for the exit.
pub proof fn lemma_attack_reaches_decay(e: EnvGenerator) -> (k: nat)
    requires
        e.state == EnvState::Attack,
        1 <= e.attack_rate.repr <= 0x1000_0000,
        MIN_INDEX_REPR <= e.index.repr <= INDEX_OFFSET_REPR,
    ensures
        k <= attack_gap(e) / (e.attack_rate.repr as nat) + 1,
        env_ticks_after(e, k).state == EnvState::Decay,
    decreases attack_gap(e),
{
    let rate = e.attack_rate.repr as int;
    let e1 = attack_step(e);
    let index2 = fp_sub(e.index, e.attack_rate);
    assert(index2.repr == e.index.repr - rate);
    if e1.state == EnvState::Decay {
        lemma_env_ticks_shift(e, 0);
        1nat
    } else {
        assert(index2.repr > MIN_INDEX_REPR);
        assert(attack_gap(e1) < attack_gap(e));
        let k2 = lemma_attack_reaches_decay(e1);
        lemma_env_ticks_shift(e, k2);
        assert(env_ticks_after(e, (k2 + 1) as nat).state == EnvState::Decay);
        assert(attack_gap(e1) == attack_gap(e) - rate);
        assert(attack_gap(e1) as int / rate == attack_gap(e) as int / rate - 1) by {
            vstd::arithmetic::div_mod::lemma_div_minus_one(attack_gap(e) as int, rate);
        };
        (k2 + 1) as nat
    }
}

/// With sustain disabled, a decay tick never enters Sustain: when the decay
/// curve reaches the sustain level or the index its floor, the envelope
/// falls directly through to Release.
pub proof fn lemma_decay_skips_sustain(e: EnvGenerator)
    requires
        e.state == EnvState::Decay,
        !e.is_sustained,
    ensures
        env_tick(e).state == EnvState::Decay || env_tick(e).state == EnvState::Release,
        env_tick(e).state != EnvState::Sustain,
{
}

} // verus!
