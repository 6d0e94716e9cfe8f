//! Execution traces of the hash pipeline: a matrix of five registers (two
//! rate, two capacity, one phase discriminant) evolving row by row. The
//! transition function is keyed by an explicit phase and by the position of
//! the step within the hash cycle; an impossible phase value or a failed
//! odd-round inversion check is reported as an explicit construction error,
//! never recovered from silently.

use vstd::prelude::*;
use crate::field::{Felt, f_mul, MODULUS};
use crate::rescue::{State4, st_wf, st_view, spec_round, apply_round, CYCLE_LENGTH, NUM_ROUNDS};

verus! {

/// Number of registers in a pipeline trace.
pub const TRACE_WIDTH: usize = 5;

/// The model of a row: the four permutation registers and the phase value.
pub type RowM = ((int, int, int, int), int);

/// One trace row.
#[derive(Clone, Copy, Debug, PartialEq, Eq, Structural)]
pub struct Row {
    pub regs: State4,
    pub phase: Felt,
}

/// All five registers canonical.
pub open spec fn row_wf(r: Row) -> bool {
    st_wf(r.regs) && r.phase.wf()
}

/// The mathematical value of a row.
pub open spec fn row_view(r: Row) -> RowM {
    (st_view(r.regs), r.phase@)
}

/// A canonical row model: every register value a residue of the field.
pub open spec fn row_model_wf(r: RowM) -> bool {
    &&& 0 <= r.0.0 < MODULUS as int
    &&& 0 <= r.0.1 < MODULUS as int
    &&& 0 <= r.0.2 < MODULUS as int
    &&& 0 <= r.0.3 < MODULUS as int
    &&& 0 <= r.1 < MODULUS as int
}

/// How trace construction can fail.
#[derive(Clone, Copy, Debug, PartialEq, Eq, Structural)]
pub enum TraceError {
    /// The requested length is zero or not a multiple of the cycle length:
    /// a configuration error.
    InvalidLength,
    /// A row carries a phase value outside the three defined phases: a
    /// construction invariant violation.
    UnreachablePhase,
    /// An odd-round S-box candidate did not cube back to its input: a
    /// construction invariant violation.
    RoundInversionFailed,
    /// A built trace left a constraint of the algebraic system non-zero on
    /// some adjacent row pair: a construction invariant violation.
    ConstraintResidue,
}

/// The first three phases of the pipeline, by their discriminant value:
/// hashing the seed, doubling the digest, hashing again.
#[derive(Clone, Copy, Debug, PartialEq, Eq, Structural)]
pub enum Phase {
    Hash1,
    Double,
    Hash2,
}

/// The phase encoded by a register value, if it is one of the three.
pub open spec fn spec_phase_of(ph: int) -> Option<Phase> {
    if ph == 0 {
        Some(Phase::Hash1)
    } else if ph == 1 {
        Some(Phase::Double)
    } else if ph == 2 {
        Some(Phase::Hash2)
    } else {
        None
    }
}

/// Decodes the phase register.
pub fn phase_of(ph: Felt) -> (out: Option<Phase>)
    ensures
        out == spec_phase_of(ph@),
{
    if ph.felt_eq(Felt::zero()) {
        Some(Phase::Hash1)
    } else if ph.felt_eq(Felt::one()) {
        Some(Phase::Double)
    } else if ph.felt_eq(Felt::from_u64(2)) {
        Some(Phase::Hash2)
    } else {
        None
    }
}

/// The transition rule: row `step + 1` as a function of row `step`.
///
/// In the hash phases, the first NUM_ROUNDS steps of each cycle apply one
/// permutation round and the remaining steps carry the rate registers and
/// zero the capacity registers; the first hash phase hands over to the
/// doubling phase at the end of its cycle. The doubling phase multiplies
/// both rate registers by two in a single row and hands over to the second
/// hash phase, which is terminal.
#[verifier::opaque]
pub open spec fn spec_transition(r: RowM, step: int) -> Result<RowM, TraceError> {
    let q = r.0;
    let ph = r.1;
    let pos = step % (CYCLE_LENGTH as int);
    match spec_phase_of(ph) {
        Some(Phase::Hash1) => {
            if pos < NUM_ROUNDS as int {
                match spec_round(q, pos) {
                    Some(t) => Ok((t, 0)),
                    None => Err(TraceError::RoundInversionFailed),
                }
            } else if pos == NUM_ROUNDS as int {
                Ok(((q.0, q.1, 0, 0), 1))
            } else {
                Ok(((q.0, q.1, 0, 0), 0))
            }
        },
        Some(Phase::Double) => Ok(((f_mul(2, q.0), f_mul(2, q.1), q.2, q.3), 2)),
        Some(Phase::Hash2) => {
            if pos < NUM_ROUNDS as int {
                match spec_round(q, pos) {
                    Some(t) => Ok((t, 2)),
                    None => Err(TraceError::RoundInversionFailed),
                }
            } else {
                Ok(((q.0, q.1, 0, 0), 2))
            }
        },
        None => Err(TraceError::UnreachablePhase),
    }
}

/// Applies the transition rule to a row.
pub fn transition(r: &Row, step: usize) -> (out: Result<Row, TraceError>)
    requires
        row_wf(*r),
    ensures
        match out {
            Ok(next) => row_wf(next) && spec_transition(row_view(*r), step as int) == Ok::<
                RowM,
                TraceError,
            >(row_view(next)),
            Err(e) => spec_transition(row_view(*r), step as int) == Err::<RowM, TraceError>(e),
        },
{
    proof {
        reveal(spec_transition);
    }
    let pos = step % CYCLE_LENGTH;
    match phase_of(r.phase) {
        Some(Phase::Hash1) => {
            if pos < NUM_ROUNDS {
                match apply_round(r.regs, pos) {
                    Some(t) => Ok(Row { regs: t, phase: Felt::zero() }),
                    None => Err(TraceError::RoundInversionFailed),
                }
            } else if pos == NUM_ROUNDS {
                Ok(
                    Row {
                        regs: State4 {
                            s0: r.regs.s0,
                            s1: r.regs.s1,
                            s2: Felt::zero(),
                            s3: Felt::zero(),
                        },
                        phase: Felt::one(),
                    },
                )
            } else {
                Ok(
                    Row {
                        regs: State4 {
                            s0: r.regs.s0,
                            s1: r.regs.s1,
                            s2: Felt::zero(),
                            s3: Felt::zero(),
                        },
                        phase: Felt::zero(),
                    },
                )
            }
        },
        Some(Phase::Double) => {
            let two = Felt::from_u64(2);
            Ok(
                Row {
                    regs: State4 {
                        s0: two.mul(r.regs.s0),
                        s1: two.mul(r.regs.s1),
                        s2: r.regs.s2,
                        s3: r.regs.s3,
                    },
                    phase: Felt::from_u64(2),
                },
            )
        },
        Some(Phase::Hash2) => {
            if pos < NUM_ROUNDS {
                match apply_round(r.regs, pos) {
                    Some(t) => Ok(Row { regs: t, phase: Felt::from_u64(2) }),
                    None => Err(TraceError::RoundInversionFailed),
                }
            } else {
                Ok(
                    Row {
                        regs: State4 {
                            s0: r.regs.s0,
                            s1: r.regs.s1,
                            s2: Felt::zero(),
                            s3: Felt::zero(),
                        },
                        phase: Felt::from_u64(2),
                    },
                )
            }
        },
        None => Err(TraceError::UnreachablePhase),
    }
}

/// The first row of a trace: the seed in the rate registers, zero elsewhere.
pub open spec fn spec_init(seed: (int, int)) -> RowM {
    ((seed.0, seed.1, 0, 0), 0)
}

/// The model of row `i` of the trace built from `seed`, or the first
/// construction error on the way there.
pub open spec fn spec_row(seed: (int, int), i: nat) -> Result<RowM, TraceError>
    decreases i,
{
    if i == 0 {
        Ok(spec_init(seed))
    } else {
        match spec_row(seed, (i - 1) as nat) {
            Ok(r) => spec_transition(r, i - 1),
            Err(e) => Err(e),
        }
    }
}

/// A construction error at row `i` persists at every later row.
pub proof fn lemma_spec_row_err_persists(seed: (int, int), i: nat, j: nat)
    requires
        i <= j,
        spec_row(seed, i) is Err,
    ensures
        spec_row(seed, j) == spec_row(seed, i),
    decreases j,
{
    if j > i {
        lemma_spec_row_err_persists(seed, i, (j - 1) as nat);
    }
}

/// An execution trace of the pipeline.
#[derive(Clone, Debug, PartialEq, Eq)]
pub struct Trace {
    pub rows: Vec<Row>,
}

/// All rows canonical.
pub open spec fn trace_wf(t: Trace) -> bool {
    forall|i: int| 0 <= i < t.rows@.len() ==> row_wf(#[trigger] t.rows@[i])
}

/// The mathematical value of a trace: the sequence of its row models.
pub open spec fn trace_view(t: Trace) -> Seq<RowM> {
    t.rows@.map(|i: int, r: Row| row_view(r))
}

/// The value of one register at one step.
pub open spec fn spec_cell(r: RowM, register: int) -> int {
    if register == 0 {
        r.0.0
    } else if register == 1 {
        r.0.1
    } else if register == 2 {
        r.0.2
    } else if register == 3 {
        r.0.3
    } else {
        r.1
    }
}

impl Trace {
    /// Number of rows.
    pub fn length(&self) -> (n: usize)
        ensures
            n == self.rows@.len(),
    {
        self.rows.len()
    }

    /// Reads one cell, by register index and step.
    pub fn get(&self, register: usize, step: usize) -> (v: Felt)
        requires
            register < TRACE_WIDTH,
            step < self.rows@.len(),
        ensures
            v@ == spec_cell(trace_view(*self)[step as int], register as int),
    {
        let row = &self.rows[step];
        if register == 0 {
            row.regs.s0
        } else if register == 1 {
            row.regs.s1
        } else if register == 2 {
            row.regs.s2
        } else if register == 3 {
            row.regs.s3
        } else {
            row.phase
        }
    }
}

} // verus!
