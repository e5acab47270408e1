//! Voice: four operators wired by a routing algorithm.
//!
//! Each sample, two scratch registers (Output and Adder) start at zero and
//! the four operators run in strict index order.  The active algorithm
//! names, per operator, the register feeding its modulation input and the
//! register receiving its sample: Output is overwritten, Adder accumulates,
//! None discards.  Because the registers are written in index order, an
//! operator can consume a value produced earlier in the same sample, which
//! is how serial chains and feed-forward sums arise.  The voice's sample is
//! the register written by the last operator.

use vstd::prelude::*;

use crate::env_generator::{env_close, EnvState, INDEX_OFFSET_REPR};
use crate::fp::{fp_add, FP};
use crate::operator::{op_output, op_step, Operator};
use crate::phase_generator::PhaseGenerator;

verus! {

use vstd::array::spec_array_update;

pub const NUM_ALGORITHMS: usize = 8;

#[derive(Debug, Clone, Copy, PartialEq, Eq, Structural)]
pub enum Register {
    Null,
    Output,
    Adder,
}

#[derive(Debug, Clone, Copy, PartialEq, Eq, Structural)]
pub struct Route {
    pub mod_source: Register,
    pub out_sink: Register,
}

#[derive(Debug, Clone, Copy)]
pub struct Voice {
    pub operators: [Operator; 4],
    pub algorithm: usize,
    pub output: FP,
    pub adder: FP,
}

/// The routing rule for operator `i` under algorithm `alg`:
/// 0 a four-stage serial chain; 1 two parallel modulators summed into a
/// two-stage carrier chain; 2 and 3 a three-stage chain joined by a parallel
/// operator; 4 two serial pairs summed; 5 one modulator driving three summed
/// carriers; 6 a two-stage chain summed with two parallel carriers; 7 all
/// four operators unmodulated and summed.
pub open spec fn algo_route(alg: int, i: int) -> Route {
    if alg == 0 {
        if i == 0 {
            Route { mod_source: Register::Null, out_sink: Register::Output }
        } else {
            Route { mod_source: Register::Output, out_sink: Register::Output }
        }
    } else if alg == 1 {
        if i == 0 || i == 1 {
            Route { mod_source: Register::Null, out_sink: Register::Adder }
        } else if i == 2 {
            Route { mod_source: Register::Adder, out_sink: Register::Output }
        } else {
            Route { mod_source: Register::Output, out_sink: Register::Output }
        }
    } else if alg == 2 {
        if i == 0 {
            Route { mod_source: Register::Null, out_sink: Register::Adder }
        } else if i == 1 {
            Route { mod_source: Register::Null, out_sink: Register::Output }
        } else if i == 2 {
            Route { mod_source: Register::Output, out_sink: Register::Adder }
        } else {
            Route { mod_source: Register::Adder, out_sink: Register::Output }
        }
    } else if alg == 3 {
        if i == 0 {
            Route { mod_source: Register::Null, out_sink: Register::Adder }
        } else if i == 1 {
            Route { mod_source: Register::Null, out_sink: Register::Output }
        } else if i == 2 {
            Route { mod_source: Register::Output, out_sink: Register::Output }
        } else {
            Route { mod_source: Register::Output, out_sink: Register::Adder }
        }
    } else if alg == 4 {
        if i == 0 || i == 2 {
            Route { mod_source: Register::Null, out_sink: Register::Output }
        } else {
            Route { mod_source: Register::Output, out_sink: Register::Adder }
        }
    } else if alg == 5 {
        if i == 0 {
            Route { mod_source: Register::Null, out_sink: Register::Output }
        } else {
            Route { mod_source: Register::Output, out_sink: Register::Adder }
        }
    } else if alg == 6 {
        if i == 0 {
            Route { mod_source: Register::Null, out_sink: Register::Adder }
        } else if i == 1 {
            Route { mod_source: Register::Null, out_sink: Register::Output }
        } else if i == 2 {
            Route { mod_source: Register::Output, out_sink: Register::Adder }
        } else {
            Route { mod_source: Register::Null, out_sink: Register::Adder }
        }
    } else {
        Route { mod_source: Register::Null, out_sink: Register::Adder }
    }
}

fn route_of(alg: usize, i: usize) -> (r: Route)
    requires
        alg < 8,
        i < 4,
    ensures
        r == algo_route(alg as int, i as int),
{
    if alg == 0 {
        if i == 0 {
            Route { mod_source: Register::Null, out_sink: Register::Output }
        } else {
            Route { mod_source: Register::Output, out_sink: Register::Output }
        }
    } else if alg == 1 {
        if i == 0 || i == 1 {
            Route { mod_source: Register::Null, out_sink: Register::Adder }
        } else if i == 2 {
            Route { mod_source: Register::Adder, out_sink: Register::Output }
        } else {
            Route { mod_source: Register::Output, out_sink: Register::Output }
        }
    } else if alg == 2 {
        if i == 0 {
            Route { mod_source: Register::Null, out_sink: Register::Adder }
        } else if i == 1 {
            Route { mod_source: Register::Null, out_sink: Register::Output }
        } else if i == 2 {
            Route { mod_source: Register::Output, out_sink: Register::Adder }
        } else {
            Route { mod_source: Register::Adder, out_sink: Register::Output }
        }
    } else if alg == 3 {
        if i == 0 {
            Route { mod_source: Register::Null, out_sink: Register::Adder }
        } else if i == 1 {
            Route { mod_source: Register::Null, out_sink: Register::Output }
        } else if i == 2 {
            Route { mod_source: Register::Output, out_sink: Register::Output }
        } else {
            Route { mod_source: Register::Output, out_sink: Register::Adder }
        }
    } else if alg == 4 {
        if i == 0 || i == 2 {
            Route { mod_source: Register::Null, out_sink: Register::Output }
        } else {
            Route { mod_source: Register::Output, out_sink: Register::Adder }
        }
    } else if alg == 5 {
        if i == 0 {
            Route { mod_source: Register::Null, out_sink: Register::Output }
        } else {
            Route { mod_source: Register::Output, out_sink: Register::Adder }
        }
    } else if alg == 6 {
        if i == 0 {
            Route { mod_source: Register::Null, out_sink: Register::Adder }
        } else if i == 1 {
            Route { mod_source: Register::Null, out_sink: Register::Output }
        } else if i == 2 {
            Route { mod_source: Register::Output, out_sink: Register::Adder }
        } else {
            Route { mod_source: Register::Null, out_sink: Register::Adder }
        }
    } else {
        Route { mod_source: Register::Null, out_sink: Register::Adder }
    }
}

/// The value a register name yields, given the current register contents.
pub open spec fn reg_read(r: Register, out: FP, add: FP) -> FP {
    match r {
        Register::Null => FP { repr: 0 },
        Register::Output => out,
        Register::Adder => add,
    }
}

/// Operator `i` as it runs within a sample: its modulation input loaded from
/// the register its routing rule names, given register contents.
pub open spec fn op_with_mod(v: Voice, i: int, out: FP, add: FP) -> Operator {
    Operator {
        mod_input: reg_read(algo_route(v.algorithm as int, i).mod_source, out, add),
        ..v.operators[i]
    }
}

/// The (Output, Adder) register pair after the first `k` operators of a
/// sample have run, starting from zero.
pub open spec fn voice_regs(v: Voice, k: int) -> (FP, FP)
    decreases k,
{
    if k <= 0 {
        (FP { repr: 0 }, FP { repr: 0 })
    } else {
        let prev = voice_regs(v, k - 1);
        let s = op_output(op_with_mod(v, k - 1, prev.0, prev.1));
        match algo_route(v.algorithm as int, k - 1).out_sink {
            Register::Output => (s, prev.1),
            Register::Adder => (prev.0, fp_add(prev.1, s)),
            Register::Null => prev,
        }
    }
}

/// Operator `i` at the moment it runs within a sample.
pub open spec fn voice_op_before(v: Voice, i: int) -> Operator {
    op_with_mod(v, i, voice_regs(v, i).0, voice_regs(v, i).1)
}

/// The state of operator `i` after the sample.
pub open spec fn voice_op_after(v: Voice, i: int) -> Operator {
    op_step(voice_op_before(v, i))
}

/// The sample operator `i` contributes.
pub open spec fn voice_op_sample(v: Voice, i: int) -> FP {
    op_output(voice_op_before(v, i))
}

/// The voice's sample: whatever register the last operator's routing rule
/// writes, zero if it writes none.
pub open spec fn voice_sample(v: Voice) -> FP {
    match algo_route(v.algorithm as int, 3).out_sink {
        Register::Null => FP { repr: 0 },
        Register::Output => voice_regs(v, 4).0,
        Register::Adder => voice_regs(v, 4).1,
    }
}

/// The whole voice after one sample.
pub open spec fn voice_step(v: Voice) -> Voice {
    Voice {
        operators: spec_array_update(
            spec_array_update(
                spec_array_update(
                    spec_array_update(v.operators, 0, voice_op_after(v, 0)),
                    1,
                    voice_op_after(v, 1),
                ),
                2,
                voice_op_after(v, 2),
            ),
            3,
            voice_op_after(v, 3),
        ),
        output: voice_regs(v, 4).0,
        adder: voice_regs(v, 4).1,
        ..v
    }
}

/// What the per-sample path relies on: a valid algorithm selection and live
/// envelope clocks.
pub open spec fn voice_wf(v: Voice) -> bool {
    &&& v.algorithm < 8
    &&& forall|i: int| 0 <= i < 4 ==> #[trigger] v.operators[i].env_gen.clock >= 1
}

impl Voice {
    pub fn new() -> (r: Voice)
        ensures
            forall|i: int| 0 <= i < 4 ==> #[trigger] r.operators[i] == crate::operator::op_default(),
            r.algorithm == 0,
            r.output == (FP { repr: 0 }),
            r.adder == (FP { repr: 0 }),
            voice_wf(r),
    {
        Voice {
            operators: [Operator::new(), Operator::new(), Operator::new(), Operator::new()],
            algorithm: 0,
            output: FP::raw(0),
            adder: FP::raw(0),
        }
    }

    /// Produce one sample: reset the registers, run the four operators in
    /// index order under the active algorithm, and return the register the
    /// last operator wrote.
    #[verifier::rlimit(100)]
    pub fn get_sample(&mut self) -> (r: FP)
        requires
            voice_wf(*old(self)),
        ensures
            *final(self) == voice_step(*old(self)),
            r == voice_sample(*old(self)),
            voice_wf(*final(self)),
    {
        self.output = FP::raw(0);
        self.adder = FP::raw(0);

        let ghost v0 = *old(self);

        let r0 = route_of(self.algorithm, 0);
        let mut op0 = self.operators[0];
        op0.mod_input = match r0.mod_source {
            Register::Null => FP::raw(0),
            Register::Output => self.output,
            Register::Adder => self.adder,
        };
        let s0 = op0.get_sample();
        self.operators[0] = op0;
        match r0.out_sink {
            Register::Output => { self.output = s0 },
            Register::Adder => { self.adder = self.adder.add(s0) },
            Register::Null => {},
        }
        proof {
            assert(voice_regs(v0, 0) == (FP { repr: 0 }, FP { repr: 0 }));
            assert(op0 == voice_op_after(v0, 0) && s0 == voice_op_sample(v0, 0));
            assert(self.output == voice_regs(v0, 1).0 && self.adder == voice_regs(v0, 1).1);
        }

        let r1 = route_of(self.algorithm, 1);
        let mut op1 = self.operators[1];
        op1.mod_input = match r1.mod_source {
            Register::Null => FP::raw(0),
            Register::Output => self.output,
            Register::Adder => self.adder,
        };
        let s1 = op1.get_sample();
        self.operators[1] = op1;
        match r1.out_sink {
            Register::Output => { self.output = s1 },
            Register::Adder => { self.adder = self.adder.add(s1) },
            Register::Null => {},
        }
        proof {
            assert(self.output == voice_regs(v0, 2).0 && self.adder == voice_regs(v0, 2).1);
        }

        let r2 = route_of(self.algorithm, 2);
        let mut op2 = self.operators[2];
        op2.mod_input = match r2.mod_source {
            Register::Null => FP::raw(0),
            Register::Output => self.output,
            Register::Adder => self.adder,
        };
        let s2 = op2.get_sample();
        self.operators[2] = op2;
        match r2.out_sink {
            Register::Output => { self.output = s2 },
            Register::Adder => { self.adder = self.adder.add(s2) },
            Register::Null => {},
        }
        proof {
            assert(self.output == voice_regs(v0, 3).0 && self.adder == voice_regs(v0, 3).1);
        }

        let r3 = route_of(self.algorithm, 3);
        let mut op3 = self.operators[3];
        op3.mod_input = match r3.mod_source {
            Register::Null => FP::raw(0),
            Register::Output => self.output,
            Register::Adder => self.adder,
        };
        let s3 = op3.get_sample();
        self.operators[3] = op3;
        match r3.out_sink {
            Register::Output => { self.output = s3 },
            Register::Adder => { self.adder = self.adder.add(s3) },
            Register::Null => {},
        }
        proof {
            assert(self.output == voice_regs(v0, 4).0 && self.adder == voice_regs(v0, 4).1);
            assert(self.operators =~= voice_step(v0).operators);
        }

        match r3.out_sink {
            Register::Null => FP::raw(0),
            Register::Output => self.output,
            Register::Adder => self.adder,
        }
    }

    /// Broadcast a logarithmic pitch to all four phase generators, leaving
    /// the envelopes alone - for sustained or drone tones.
    pub fn set_freq(&mut self, flog2: FP)
        ensures
            final(self).algorithm == old(self).algorithm,
            final(self).output == old(self).output,
            final(self).adder == old(self).adder,
            forall|i: int|
                0 <= i < 4 ==> #[trigger] final(self).operators[i] == (Operator {
                    phase_gen: PhaseGenerator { flog2, ..old(self).operators[i].phase_gen },
                    ..old(self).operators[i]
                }),
    {
        self.operators[0].phase_gen.flog2 = flog2;
        self.operators[1].phase_gen.flog2 = flog2;
        self.operators[2].phase_gen.flog2 = flog2;
        self.operators[3].phase_gen.flog2 = flog2;
    }

    /// Broadcast a pitch and open every envelope: start a note.
    pub fn note_on(&mut self, flog2: FP)
        ensures
            final(self).algorithm == old(self).algorithm,
            final(self).output == old(self).output,
            final(self).adder == old(self).adder,
            forall|i: int|
                0 <= i < 4 ==> #[trigger] final(self).operators[i] == (Operator {
                    phase_gen: PhaseGenerator { flog2, ..old(self).operators[i].phase_gen },
                    env_gen: crate::env_generator::EnvGenerator {
                        state: EnvState::Attack,
                        index: FP { repr: INDEX_OFFSET_REPR },
                        ..old(self).operators[i].env_gen
                    },
                    ..old(self).operators[i]
                }),
    {
        let mut op0 = self.operators[0];
        op0.phase_gen.flog2 = flog2;
        op0.env_gen.open();
        self.operators[0] = op0;
        let mut op1 = self.operators[1];
        op1.phase_gen.flog2 = flog2;
        op1.env_gen.open();
        self.operators[1] = op1;
        let mut op2 = self.operators[2];
        op2.phase_gen.flog2 = flog2;
        op2.env_gen.open();
        self.operators[2] = op2;
        let mut op3 = self.operators[3];
        op3.phase_gen.flog2 = flog2;
        op3.env_gen.open();
        self.operators[3] = op3;
    }

    /// Close every envelope: release the note gracefully.
    pub fn note_off(&mut self)
        ensures
            final(self).algorithm == old(self).algorithm,
            final(self).output == old(self).output,
            final(self).adder == old(self).adder,
            forall|i: int|
                0 <= i < 4 ==> #[trigger] final(self).operators[i] == (Operator {
                    env_gen: env_close(old(self).operators[i].env_gen),
                    ..old(self).operators[i]
                }),
    {
        let mut op0 = self.operators[0];
        op0.env_gen.close();
        self.operators[0] = op0;
        let mut op1 = self.operators[1];
        op1.env_gen.close();
        self.operators[1] = op1;
        let mut op2 = self.operators[2];
        op2.env_gen.close();
        self.operators[2] = op2;
        let mut op3 = self.operators[3];
        op3.env_gen.close();
        self.operators[3] = op3;
    }

    /// A mutable view of one operator, for configuration between notes.
    pub fn op(&mut self, idx: usize) -> (ret: &mut Operator)
        requires
            idx < 4,
        ensures
            *ret == old(self).operators[idx as int],
            final(self).operators[idx as int] == *final(ret),
            forall|j: int|
                0 <= j < 4 && j != idx ==> #[trigger] final(self).operators[j] == old(
                    self,
                ).operators[j],
            final(self).algorithm == old(self).algorithm,
            final(self).output == old(self).output,
            final(self).adder == old(self).adder,
    {
        &mut self.operators[idx]
    }

    /// Apply an algorithm selection.  A selection outside the routing table
    /// is rejected, so the per-sample path never sees an invalid index.
    pub fn set_algorithm(&mut self, alg: usize) -> (ok: bool)
        ensures
            ok == (alg < 8),
            alg < 8 ==> *final(self) == (Voice { algorithm: alg, ..*old(self) }),
            alg >= 8 ==> *final(self) == *old(self),
    {
        if alg < NUM_ALGORITHMS {
            self.algorithm = alg;
            true
        } else {
            false
        }
    }
}

/// Serial-chain routing: under algorithm 0, operator 0 is unmodulated, every
/// later operator is modulated by exactly the sample its predecessor
/// produced in the same period, and the voice's sample is operator 3's.
pub proof fn lemma_algorithm0_serial_chain(v: Voice)
    requires
        v.algorithm == 0,
    ensures
        voice_op_before(v, 0).mod_input == (FP { repr: 0 }),
        forall|i: int|
            1 <= i < 4 ==> #[trigger] voice_op_before(v, i).mod_input == voice_op_sample(v, i - 1),
        voice_sample(v) == voice_op_sample(v, 3),
{
    assert(voice_regs(v, 1).0 == voice_op_sample(v, 0));
    assert(voice_regs(v, 2).0 == voice_op_sample(v, 1));
    assert(voice_regs(v, 3).0 == voice_op_sample(v, 2));
    assert(voice_regs(v, 4).0 == voice_op_sample(v, 3));
    assert(voice_op_before(v, 1).mod_input == voice_op_sample(v, 0));
    assert(voice_op_before(v, 2).mod_input == voice_op_sample(v, 1));
    assert(voice_op_before(v, 3).mod_input == voice_op_sample(v, 2));
}

/// Parallel routing: under algorithm 7, every operator is unmodulated and
/// the voice's sample is the running (wrapping) sum of all four operator
/// samples.
pub proof fn lemma_algorithm7_parallel_sum(v: Voice)
    requires
        v.algorithm == 7,
    ensures
        forall|i: int|
            0 <= i < 4 ==> #[trigger] voice_op_before(v, i).mod_input == (FP { repr: 0 }),
        voice_sample(v) == fp_add(
            fp_add(
                fp_add(
                    fp_add(FP { repr: 0 }, voice_op_sample(v, 0)),
                    voice_op_sample(v, 1),
                ),
                voice_op_sample(v, 2),
            ),
            voice_op_sample(v, 3),
        ),
{
    assert(voice_regs(v, 1).1 == fp_add(FP { repr: 0 }, voice_op_sample(v, 0)));
    assert(voice_regs(v, 2).1 == fp_add(voice_regs(v, 1).1, voice_op_sample(v, 1)));
    assert(voice_regs(v, 3).1 == fp_add(voice_regs(v, 2).1, voice_op_sample(v, 2)));
    assert(voice_regs(v, 4).1 == fp_add(voice_regs(v, 3).1, voice_op_sample(v, 3)));
    assert(forall|i: int|
        0 <= i < 4 ==> #[trigger] voice_op_before(v, i).mod_input == (FP { repr: 0 }));
}

/// The voice after `n` samples.
pub open spec fn voice_after(v: Voice, n: nat) -> Voice
    decreases n,
{
    if n == 0 {
        v
    } else {
        voice_step(voice_after(v, (n - 1) as nat))
    }
}

/// The first `n` samples the voice produces.
pub open spec fn voice_sample_seq(v: Voice, n: nat) -> Seq<FP> {
    Seq::new(n, |i: int| voice_sample(voice_after(v, i as nat)))
}

/// End-to-end determinism: the sample stream is a mathematical function of
/// the starting state alone.  Two voices configured bit-identically - same
/// rates, levels, waveform selectors, algorithm and pitch - produce
/// bit-identical samples for every length, since `Voice::get_sample` pins
/// its result and successor state to `voice_sample` and `voice_step` of the
/// state before the call.
pub proof fn lemma_voice_deterministic(a: Voice, b: Voice, n: nat)
    requires
        a == b,
    ensures
        voice_sample_seq(a, n) == voice_sample_seq(b, n),
{
}

} // verus!
