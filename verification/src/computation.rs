//! The capability set shared by the two constraint-system variants: a
//! computation declares its trace width, its cycle length, its transition
//! rule on rows of register values, and how the public inputs are read off
//! the first and final rows. The five-register hash pipeline and the
//! one-register arithmetic chain both implement it.

use vstd::prelude::*;
use crate::field::Felt;
use crate::rescue::{State4, CYCLE_LENGTH};
use crate::trace::{Row, TraceError, transition, spec_transition, row_view, row_wf, TRACE_WIDTH};
use crate::chain::{chain_step, spec_chain_step};

verus! {

/// The values of a sequence of registers.
pub open spec fn regs_view(v: Seq<Felt>) -> Seq<int> {
    v.map(|i: int, f: Felt| f@)
}

/// All registers canonical.
pub open spec fn regs_wf(v: Seq<Felt>) -> bool {
    forall|i: int| 0 <= i < v.len() ==> (#[trigger] v[i]).wf()
}

/// One constraint-system variant: a fixed trace width and cycle length, a
/// transition rule from row to row, and the registers whose first-row and
/// final-row values are the public inputs.
pub trait Computation {
    /// The number of registers in one trace row.
    spec fn width_spec(&self) -> nat;

    /// The number of rows in one cycle of the schedule.
    spec fn cycle_spec(&self) -> nat;

    /// The transition relation on row values, or the construction error it
    /// reports.
    spec fn step_spec(&self, row: Seq<int>, step: int) -> Result<Seq<int>, TraceError>;

    /// The registers bound to public values at the first and final row.
    spec fn public_registers_spec(&self) -> Seq<int>;

    fn trace_width(&self) -> (w: usize)
        ensures
            w as nat == self.width_spec(),
            w >= 1,
    ;

    fn cycle_length(&self) -> (c: usize)
        ensures
            c as nat == self.cycle_spec(),
            c >= 1,
    ;

    fn step(&self, row: &Vec<Felt>, step: usize) -> (out: Result<Vec<Felt>, TraceError>)
        requires
            row@.len() == self.width_spec(),
            regs_wf(row@),
        ensures
            match out {
                Ok(next) => next@.len() == self.width_spec() && regs_wf(next@)
                    && self.step_spec(regs_view(row@), step as int) == Ok::<Seq<int>, TraceError>(
                    regs_view(next@),
                ),
                Err(e) => self.step_spec(regs_view(row@), step as int) == Err::<
                    Seq<int>,
                    TraceError,
                >(e),
            },
    ;

    fn public_registers(&self) -> (out: Vec<usize>)
        ensures
            out@.map(|i: int, r: usize| r as int) == self.public_registers_spec(),
            forall|i: int| 0 <= i < out@.len() ==> ((#[trigger] out@[i]) as nat) < self.width_spec(),
    ;
}

/// The five-register hash pipeline: hash, double, hash again.
pub struct HashPipeline;

impl Computation for HashPipeline {
    open spec fn width_spec(&self) -> nat {
        TRACE_WIDTH as nat
    }

    open spec fn cycle_spec(&self) -> nat {
        CYCLE_LENGTH as nat
    }

    open spec fn step_spec(&self, row: Seq<int>, step: int) -> Result<Seq<int>, TraceError> {
        if row.len() == TRACE_WIDTH as nat {
            match spec_transition(((row[0], row[1], row[2], row[3]), row[4]), step) {
                Ok(r) => Ok(seq![r.0.0, r.0.1, r.0.2, r.0.3, r.1]),
                Err(e) => Err(e),
            }
        } else {
            Err(TraceError::InvalidLength)
        }
    }

    open spec fn public_registers_spec(&self) -> Seq<int> {
        seq![0, 1]
    }

    fn trace_width(&self) -> usize {
        TRACE_WIDTH
    }

    fn cycle_length(&self) -> usize {
        CYCLE_LENGTH
    }

    fn step(&self, row: &Vec<Felt>, step: usize) -> (out: Result<Vec<Felt>, TraceError>) {
        let r = Row {
            regs: State4 { s0: row[0], s1: row[1], s2: row[2], s3: row[3] },
            phase: row[4],
        };
        proof {
            assert(row_wf(r));
            assert(row_view(r) == ((regs_view(row@)[0], regs_view(row@)[1], regs_view(row@)[2],
                regs_view(row@)[3]), regs_view(row@)[4]));
        }
        match transition(&r, step) {
            Ok(next) => {
                let mut out: Vec<Felt> = Vec::new();
                out.push(next.regs.s0);
                out.push(next.regs.s1);
                out.push(next.regs.s2);
                out.push(next.regs.s3);
                out.push(next.phase);
                proof {
                    assert(regs_view(out@) =~= seq![
                        next.regs.s0@,
                        next.regs.s1@,
                        next.regs.s2@,
                        next.regs.s3@,
                        next.phase@,
                    ]);
                }
                Ok(out)
            },
            Err(e) => Err(e),
        }
    }

    fn public_registers(&self) -> (out: Vec<usize>) {
        let mut out: Vec<usize> = Vec::new();
        out.push(0);
        out.push(1);
        proof {
            assert(out@.map(|i: int, r: usize| r as int) =~= seq![0int, 1int]);
        }
        out
    }
}

/// The one-register arithmetic chain: cube and add the increment each row.
pub struct ArithChain;

impl Computation for ArithChain {
    open spec fn width_spec(&self) -> nat {
        1
    }

    open spec fn cycle_spec(&self) -> nat {
        1
    }

    open spec fn step_spec(&self, row: Seq<int>, step: int) -> Result<Seq<int>, TraceError> {
        if row.len() == 1 {
            Ok(seq![spec_chain_step(row[0])])
        } else {
            Err(TraceError::InvalidLength)
        }
    }

    open spec fn public_registers_spec(&self) -> Seq<int> {
        seq![0]
    }

    fn trace_width(&self) -> usize {
        1
    }

    fn cycle_length(&self) -> usize {
        1
    }

    fn step(&self, row: &Vec<Felt>, step: usize) -> (out: Result<Vec<Felt>, TraceError>) {
        let next = chain_step(row[0]);
        let mut out: Vec<Felt> = Vec::new();
        out.push(next);
        proof {
            assert(regs_view(out@) =~= seq![next@]);
        }
        Ok(out)
    }

    fn public_registers(&self) -> (out: Vec<usize>) {
        let mut out: Vec<usize> = Vec::new();
        out.push(0);
        proof {
            assert(out@.map(|i: int, r: usize| r as int) =~= seq![0int]);
        }
        out
    }
}

} // verus!
