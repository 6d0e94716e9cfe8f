//! The algebraic constraint system: for every adjacent row pair of a trace,
//! twelve polynomial expressions of degree at most three in the trace cells,
//! selected by the position of the step within the cycle (public data) and
//! by degree-two indicator polynomials of the phase register. All of them
//! vanish on every adjacent pair of an honestly built trace. Boundary
//! assertions pin the first row to the public seed and the rate registers of
//! the final row to the public result.

use vstd::prelude::*;
use vstd::arithmetic::div_mod::{lemma_add_mod_noop, lemma_mod_twice, lemma_sub_mod_noop};
use crate::field::{Felt, f_add, f_sub, f_mul, lemma_f_sub_zero, MODULUS};
use crate::rescue::{
    spec_add_ark, spec_sub_ark, spec_mds, spec_inv_mds, spec_cube_state, add_ark, sub_ark,
    apply_mds, apply_inv_mds, apply_cube, CYCLE_LENGTH, NUM_ROUNDS,
};
use crate::trace::{Row, RowM, Trace, row_wf, row_view, row_model_wf, trace_wf, trace_view,
    spec_init, spec_cell};

verus! {

/// The number of transition constraints.
pub const NUM_CONSTRAINTS: usize = 12;

/// The inverse of two modulo MODULUS, used by the phase-evolution constraint.
pub const INV2: u128 = 170141183460469231731687278976872480769;

/// The four permutation-round constraints for an active step. On an even
/// round the next row is recomputed forward from the current one; on an odd
/// round the linear half of the round is run backwards from the next row and
/// the candidate is cubed, so that the expression never needs a cube root.
pub open spec fn spec_hash_constraints(q: (int, int, int, int), nq: (int, int, int, int), step: int) -> (
    int,
    int,
    int,
    int,
) {
    let pos = step % (CYCLE_LENGTH as int);
    if pos % 2 == 0 {
        let e = spec_add_ark(spec_mds(spec_cube_state(spec_add_ark(q, pos))), pos);
        (f_sub(nq.0, e.0), f_sub(nq.1, e.1), f_sub(nq.2, e.2), f_sub(nq.3, e.3))
    } else {
        let t = spec_cube_state(spec_inv_mds(spec_sub_ark(nq, pos)));
        let y = spec_add_ark(q, pos);
        (f_sub(t.0, y.0), f_sub(t.1, y.1), f_sub(t.2, y.2), f_sub(t.3, y.3))
    }
}

/// The twelve constraint values for one adjacent row pair:
/// four permutation constraints (active steps), two rate-carry and two
/// capacity-zero constraints (padding steps), two doubling constraints
/// (selected by the phase-one indicator), the phase-range constraint and the
/// phase-evolution constraint.
#[verifier::opaque]
pub open spec fn spec_eval_transition(cur: RowM, next: RowM, step: int) -> Seq<int> {
    let q = cur.0;
    let ph = cur.1;
    let nq = next.0;
    let nph = next.1;
    let pos = step % (CYCLE_LENGTH as int);
    let active = pos < NUM_ROUNDS as int;
    let h = if active {
        spec_hash_constraints(q, nq, step)
    } else {
        (0int, 0int, 0int, 0int)
    };
    let sq1 = f_mul(f_sub(ph, 1), f_sub(ph, 1));
    let p4 = if !active {
        f_mul(sq1, f_sub(nq.0, q.0))
    } else {
        0int
    };
    let p5 = if !active {
        f_mul(sq1, f_sub(nq.1, q.1))
    } else {
        0int
    };
    let p6 = if !active {
        nq.2
    } else {
        0int
    };
    let p7 = if !active {
        nq.3
    } else {
        0int
    };
    let ind1 = f_mul(ph, f_sub(ph, 2));
    let d8 = f_mul(ind1, f_sub(nq.0, f_mul(2, q.0)));
    let d9 = f_mul(ind1, f_sub(nq.1, f_mul(2, q.1)));
    let c10 = f_mul(f_mul(ph, f_sub(ph, 1)), f_sub(ph, 2));
    let ind0 = f_mul(f_sub(ph, 1), f_sub(ph, 2));
    let inc = if pos == NUM_ROUNDS as int {
        f_mul(INV2 as int, ind0)
    } else {
        0int
    };
    let c11 = f_add(f_sub(f_sub(nph, ph), inc), ind1);
    seq![h.0, h.1, h.2, h.3, p4, p5, p6, p7, d8, d9, c10, c11]
}

/// Evaluates the twelve constraints on one adjacent row pair.
#[verifier::rlimit(60)]
pub fn eval_transition(cur: &Row, next: &Row, step: usize) -> (out: Vec<Felt>)
    requires
        row_wf(*cur),
        row_wf(*next),
    ensures
        out@.len() == NUM_CONSTRAINTS as int,
        forall|j: int| 0 <= j < NUM_CONSTRAINTS as int ==> (#[trigger] out@[j]).wf(),
        forall|j: int|
            0 <= j < NUM_CONSTRAINTS as int ==> (#[trigger] out@[j])@ == spec_eval_transition(
                row_view(*cur),
                row_view(*next),
                step as int,
            )[j],
{
    proof {
        reveal(spec_eval_transition);
    }
    let pos = step % CYCLE_LENGTH;
    let active = pos < NUM_ROUNDS;
    let zero = Felt::zero();
    let one = Felt::one();
    let two = Felt::from_u64(2);
    let hs: (Felt, Felt, Felt, Felt) = if active {
        if pos % 2 == 0 {
            let e = add_ark(apply_mds(apply_cube(add_ark(cur.regs, pos))), pos);
            (
                next.regs.s0.sub(e.s0),
                next.regs.s1.sub(e.s1),
                next.regs.s2.sub(e.s2),
                next.regs.s3.sub(e.s3),
            )
        } else {
            let t = apply_cube(apply_inv_mds(sub_ark(next.regs, pos)));
            let y = add_ark(cur.regs, pos);
            (t.s0.sub(y.s0), t.s1.sub(y.s1), t.s2.sub(y.s2), t.s3.sub(y.s3))
        }
    } else {
        (zero, zero, zero, zero)
    };
    let sq1 = cur.phase.sub(one).mul(cur.phase.sub(one));
    let p4 = if !active {
        sq1.mul(next.regs.s0.sub(cur.regs.s0))
    } else {
        zero
    };
    let p5 = if !active {
        sq1.mul(next.regs.s1.sub(cur.regs.s1))
    } else {
        zero
    };
    let p6 = if !active {
        next.regs.s2
    } else {
        zero
    };
    let p7 = if !active {
        next.regs.s3
    } else {
        zero
    };
    let ind1 = cur.phase.mul(cur.phase.sub(two));
    let d8 = ind1.mul(next.regs.s0.sub(two.mul(cur.regs.s0)));
    let d9 = ind1.mul(next.regs.s1.sub(two.mul(cur.regs.s1)));
    let c10 = cur.phase.mul(cur.phase.sub(one)).mul(cur.phase.sub(two));
    let ind0 = cur.phase.sub(one).mul(cur.phase.sub(two));
    let inc = if pos == NUM_ROUNDS {
        Felt::from_u128(INV2).mul(ind0)
    } else {
        zero
    };
    let c11 = next.phase.sub(cur.phase).sub(inc).add(ind1);
    let mut out: Vec<Felt> = Vec::new();
    out.push(hs.0);
    out.push(hs.1);
    out.push(hs.2);
    out.push(hs.3);
    out.push(p4);
    out.push(p5);
    out.push(p6);
    out.push(p7);
    out.push(d8);
    out.push(d9);
    out.push(c10);
    out.push(c11);
    out
}

/// All twelve constraints vanish on every adjacent row pair of the sequence.
pub open spec fn spec_all_vanish(rows: Seq<RowM>) -> bool {
    forall|i: int, j: int|
        0 <= i < rows.len() - 1 && 0 <= j < NUM_CONSTRAINTS as int ==> #[trigger] spec_eval_transition(
            rows[i],
            rows[i + 1],
            i,
        )[j] == 0
}

/// Checks that every constraint vanishes on every adjacent row pair.
#[verifier::rlimit(100)]
pub fn transitions_vanish(t: &Trace) -> (b: bool)
    requires
        trace_wf(*t),
        t.rows@.len() >= 1,
    ensures
        b == spec_all_vanish(trace_view(*t)),
{
    let n = t.rows.len();
    let zero = Felt::zero();
    let mut step: usize = 0;
    while step + 1 < n
        invariant
            trace_wf(*t),
            n == t.rows@.len(),
            1 <= n,
            step <= n - 1,
            zero@ == 0,
            forall|i: int, j: int|
                0 <= i < step as int && 0 <= j < NUM_CONSTRAINTS as int
                    ==> #[trigger] spec_eval_transition(
                    trace_view(*t)[i],
                    trace_view(*t)[i + 1],
                    i,
                )[j] == 0,
        decreases n - step,
    {
        let cur = t.rows[step];
        let next = t.rows[step + 1];
        let cs = eval_transition(&cur, &next, step);
        let ok = cs[0].felt_eq(zero) && cs[1].felt_eq(zero) && cs[2].felt_eq(zero)
            && cs[3].felt_eq(zero) && cs[4].felt_eq(zero) && cs[5].felt_eq(zero) && cs[6].felt_eq(
            zero,
        ) && cs[7].felt_eq(zero) && cs[8].felt_eq(zero) && cs[9].felt_eq(zero) && cs[10].felt_eq(
            zero,
        ) && cs[11].felt_eq(zero);
        proof {
            let tv = trace_view(*t);
            let i = step as int;
            assert(row_view(cur) == tv[i]);
            assert(row_view(next) == tv[i + 1]);
        }
        if !ok {
            proof {
                let tv = trace_view(*t);
                let i = step as int;
                if spec_all_vanish(tv) {
                    assert(spec_eval_transition(tv[i], tv[i + 1], i)[0] == 0);
                    assert(spec_eval_transition(tv[i], tv[i + 1], i)[1] == 0);
                    assert(spec_eval_transition(tv[i], tv[i + 1], i)[2] == 0);
                    assert(spec_eval_transition(tv[i], tv[i + 1], i)[3] == 0);
                    assert(spec_eval_transition(tv[i], tv[i + 1], i)[4] == 0);
                    assert(spec_eval_transition(tv[i], tv[i + 1], i)[5] == 0);
                    assert(spec_eval_transition(tv[i], tv[i + 1], i)[6] == 0);
                    assert(spec_eval_transition(tv[i], tv[i + 1], i)[7] == 0);
                    assert(spec_eval_transition(tv[i], tv[i + 1], i)[8] == 0);
                    assert(spec_eval_transition(tv[i], tv[i + 1], i)[9] == 0);
                    assert(spec_eval_transition(tv[i], tv[i + 1], i)[10] == 0);
                    assert(spec_eval_transition(tv[i], tv[i + 1], i)[11] == 0);
                    assert(false);
                }
            }
            return false;
        }
        proof {
            let tv = trace_view(*t);
            let i = step as int;
            assert(spec_eval_transition(tv[i], tv[i + 1], i)[0] == 0);
            assert(spec_eval_transition(tv[i], tv[i + 1], i)[1] == 0);
            assert(spec_eval_transition(tv[i], tv[i + 1], i)[2] == 0);
            assert(spec_eval_transition(tv[i], tv[i + 1], i)[3] == 0);
            assert(spec_eval_transition(tv[i], tv[i + 1], i)[4] == 0);
            assert(spec_eval_transition(tv[i], tv[i + 1], i)[5] == 0);
            assert(spec_eval_transition(tv[i], tv[i + 1], i)[6] == 0);
            assert(spec_eval_transition(tv[i], tv[i + 1], i)[7] == 0);
            assert(spec_eval_transition(tv[i], tv[i + 1], i)[8] == 0);
            assert(spec_eval_transition(tv[i], tv[i + 1], i)[9] == 0);
            assert(spec_eval_transition(tv[i], tv[i + 1], i)[10] == 0);
            assert(spec_eval_transition(tv[i], tv[i + 1], i)[11] == 0);
        }
        step = step + 1;
    }
    true
}

/// The public inputs of one proof: the seed placed in the rate registers of
/// the first row, and the claimed result read from the rate registers of the
/// final row.
#[derive(Clone, Copy, Debug, PartialEq, Eq)]
pub struct PublicInputs {
    pub input_hash: [Felt; 2],
    pub output_hash: [Felt; 2],
}

/// All four public elements canonical.
pub open spec fn pi_wf(pi: PublicInputs) -> bool {
    pi.input_hash@[0].wf() && pi.input_hash@[1].wf() && pi.output_hash@[0].wf()
        && pi.output_hash@[1].wf()
}

impl PublicInputs {
    /// The public inputs flattened to a list of field elements, seed first.
    pub fn to_elements(&self) -> (out: Vec<Felt>)
        ensures
            out@.len() == 4,
            out@[0] == self.input_hash@[0],
            out@[1] == self.input_hash@[1],
            out@[2] == self.output_hash@[0],
            out@[3] == self.output_hash@[1],
    {
        let mut out: Vec<Felt> = Vec::new();
        out.push(self.input_hash[0]);
        out.push(self.input_hash[1]);
        out.push(self.output_hash[0]);
        out.push(self.output_hash[1]);
        out
    }
}

/// Reads the public inputs off a trace: the rate registers of the first and
/// of the final row.
pub fn get_pub_inputs(t: &Trace) -> (pi: PublicInputs)
    requires
        trace_wf(*t),
        t.rows@.len() >= 1,
    ensures
        pi_wf(pi),
        pi.input_hash@[0]@ == spec_cell(trace_view(*t)[0], 0),
        pi.input_hash@[1]@ == spec_cell(trace_view(*t)[0], 1),
        pi.output_hash@[0]@ == spec_cell(trace_view(*t)[trace_view(*t).len() - 1], 0),
        pi.output_hash@[1]@ == spec_cell(trace_view(*t)[trace_view(*t).len() - 1], 1),
{
    let last = t.length() - 1;
    PublicInputs {
        input_hash: [t.get(0, 0), t.get(1, 0)],
        output_hash: [t.get(0, last), t.get(1, last)],
    }
}

/// The boundary conditions: the first row is the seed row (seed in the rate
/// registers, zero capacity, phase zero) and the rate registers of the final
/// row equal the claimed result.
pub open spec fn spec_boundary_ok(rows: Seq<RowM>, seed: (int, int), result: (int, int)) -> bool {
    &&& rows.len() >= 1
    &&& rows[0] == spec_init(seed)
    &&& rows[rows.len() - 1].0.0 == result.0
    &&& rows[rows.len() - 1].0.1 == result.1
}

/// Checks the boundary conditions of a trace against public inputs.
pub fn boundary_holds(t: &Trace, pi: &PublicInputs) -> (b: bool)
    requires
        trace_wf(*t),
        t.rows@.len() >= 1,
    ensures
        b == spec_boundary_ok(
            trace_view(*t),
            (pi.input_hash@[0]@, pi.input_hash@[1]@),
            (pi.output_hash@[0]@, pi.output_hash@[1]@),
        ),
{
    let zero = Felt::zero();
    let last = t.length() - 1;
    t.get(0, 0).felt_eq(pi.input_hash[0]) && t.get(1, 0).felt_eq(pi.input_hash[1]) && t.get(
        2,
        0,
    ).felt_eq(zero) && t.get(3, 0).felt_eq(zero) && t.get(4, 0).felt_eq(zero) && t.get(
        0,
        last,
    ).felt_eq(pi.output_hash[0]) && t.get(1, last).felt_eq(pi.output_hash[1])
}

/// Whether the whole constraint system accepts the trace under the given
/// public inputs: a well-shaped trace whose boundary conditions hold and on
/// which every transition constraint vanishes.
pub open spec fn spec_air_accepts(rows: Seq<RowM>, seed: (int, int), result: (int, int)) -> bool {
    &&& rows.len() >= 1
    &&& rows.len() as int % (CYCLE_LENGTH as int) == 0
    &&& spec_boundary_ok(rows, seed, result)
    &&& spec_all_vanish(rows)
}

/// Checks a trace against the full constraint system: shape, boundary and
/// transition constraints. A width or length mismatch is a configuration
/// error and rejects the trace before any proving attempt.
pub fn air_accepts(t: &Trace, pi: &PublicInputs) -> (b: bool)
    requires
        trace_wf(*t),
    ensures
        b == (t.rows@.len() >= 1 && t.rows@.len() as int % (CYCLE_LENGTH as int) == 0
            && spec_air_accepts(
            trace_view(*t),
            (pi.input_hash@[0]@, pi.input_hash@[1]@),
            (pi.output_hash@[0]@, pi.output_hash@[1]@),
        )),
{
    let n = t.length();
    if n == 0 || n % CYCLE_LENGTH != 0 {
        return false;
    }
    boundary_holds(t, pi) && transitions_vanish(t)
}

/// A piece of negative soundness: at an even-round step the constraints pin
/// every register of the next row, so two next rows on which the constraints
/// all vanish against the same current row are equal. Changing any single
/// cell of such a row therefore leaves some constraint non-zero.
pub proof fn lemma_even_round_pins_next_row(cur: RowM, n1: RowM, n2: RowM, step: int)
    requires
        step % (CYCLE_LENGTH as int) < NUM_ROUNDS as int,
        (step % (CYCLE_LENGTH as int)) % 2 == 0,
        row_model_wf(n1),
        row_model_wf(n2),
        forall|j: int|
            0 <= j < NUM_CONSTRAINTS as int ==> #[trigger] spec_eval_transition(cur, n1, step)[j]
                == 0,
        forall|j: int|
            0 <= j < NUM_CONSTRAINTS as int ==> #[trigger] spec_eval_transition(cur, n2, step)[j]
                == 0,
    ensures
        n1 == n2,
{
    reveal(spec_eval_transition);
    let m: int = MODULUS as int;
    let pos = step % (CYCLE_LENGTH as int);
    let e = spec_add_ark(spec_mds(spec_cube_state(spec_add_ark(cur.0, pos))), pos);
    assert(spec_eval_transition(cur, n1, step)[0] == 0);
    assert(spec_eval_transition(cur, n1, step)[1] == 0);
    assert(spec_eval_transition(cur, n1, step)[2] == 0);
    assert(spec_eval_transition(cur, n1, step)[3] == 0);
    assert(spec_eval_transition(cur, n2, step)[0] == 0);
    assert(spec_eval_transition(cur, n2, step)[1] == 0);
    assert(spec_eval_transition(cur, n2, step)[2] == 0);
    assert(spec_eval_transition(cur, n2, step)[3] == 0);
    lemma_f_sub_zero(n1.0.0, e.0);
    lemma_f_sub_zero(n1.0.1, e.1);
    lemma_f_sub_zero(n1.0.2, e.2);
    lemma_f_sub_zero(n1.0.3, e.3);
    lemma_f_sub_zero(n2.0.0, e.0);
    lemma_f_sub_zero(n2.0.1, e.1);
    lemma_f_sub_zero(n2.0.2, e.2);
    lemma_f_sub_zero(n2.0.3, e.3);
    // the phase-evolution constraint pins the next phase value
    let ph = cur.1;
    let ind1 = f_mul(ph, f_sub(ph, 2));
    assert(spec_eval_transition(cur, n1, step)[11] == 0);
    assert(spec_eval_transition(cur, n2, step)[11] == 0);
    assert(f_add(f_sub(f_sub(n1.1, ph), 0), ind1) == 0);
    assert(f_add(f_sub(f_sub(n2.1, ph), 0), ind1) == 0);
    lemma_phase_evolution_injective(n1.1, n2.1, ph, ind1);
}

/// The phase-evolution expression without its periodic term is injective in
/// the next phase value over canonical residues.
proof fn lemma_phase_evolution_injective(x1: int, x2: int, ph: int, ind1: int)
    requires
        0 <= x1 < MODULUS as int,
        0 <= x2 < MODULUS as int,
        0 <= ind1 < MODULUS as int,
        f_add(f_sub(f_sub(x1, ph), 0), ind1) == 0,
        f_add(f_sub(f_sub(x2, ph), 0), ind1) == 0,
    ensures
        x1 == x2,
{
    let m: int = MODULUS as int;
    lemma_mod_twice(x1 - ph, m);
    lemma_mod_twice(x2 - ph, m);
    lemma_mod_twice(ind1, m);
    lemma_add_mod_noop(x1 - ph, ind1, m);
    lemma_add_mod_noop(x2 - ph, ind1, m);
    assert((x1 - ph + ind1) % m == 0);
    assert((x2 - ph + ind1) % m == 0);
    lemma_sub_mod_noop(x1 - ph + ind1, x2 - ph + ind1, m);
    assert((x1 - x2) % m == 0);
    lemma_f_sub_zero(x1, x2);
}

/// A boundary assertion: one trace cell pinned to one public value.
#[derive(Clone, Copy, Debug, PartialEq, Eq)]
pub struct TraceAssertion {
    pub register: usize,
    pub step: usize,
    pub value: Felt,
}

/// The boundary assertions binding a trace of the given length to the public
/// inputs: the full first row and the rate registers of the final row.
pub fn boundary_assertions(pi: &PublicInputs, length: usize) -> (out: Vec<TraceAssertion>)
    requires
        length >= 1,
    ensures
        out@.len() == 7,
        out@[0] == (TraceAssertion { register: 0, step: 0, value: pi.input_hash@[0] }),
        out@[1] == (TraceAssertion { register: 1, step: 0, value: pi.input_hash@[1] }),
        out@[2].register == 2 && out@[2].step == 0 && out@[2].value@ == 0,
        out@[3].register == 3 && out@[3].step == 0 && out@[3].value@ == 0,
        out@[4].register == 4 && out@[4].step == 0 && out@[4].value@ == 0,
        out@[5] == (TraceAssertion {
            register: 0,
            step: (length - 1) as usize,
            value: pi.output_hash@[0],
        }),
        out@[6] == (TraceAssertion {
            register: 1,
            step: (length - 1) as usize,
            value: pi.output_hash@[1],
        }),
{
    let zero = Felt::zero();
    let last = length - 1;
    let mut out: Vec<TraceAssertion> = Vec::new();
    out.push(TraceAssertion { register: 0, step: 0, value: pi.input_hash[0] });
    out.push(TraceAssertion { register: 1, step: 0, value: pi.input_hash[1] });
    out.push(TraceAssertion { register: 2, step: 0, value: zero });
    out.push(TraceAssertion { register: 3, step: 0, value: zero });
    out.push(TraceAssertion { register: 4, step: 0, value: zero });
    out.push(TraceAssertion { register: 0, step: last, value: pi.output_hash[0] });
    out.push(TraceAssertion { register: 1, step: last, value: pi.output_hash[1] });
    out
}

/// The degree of each transition constraint in the trace cells, in the order
/// the evaluator emits them. Every degree is at most three.
pub fn constraint_degrees() -> (out: Vec<usize>)
    ensures
        out@.len() == NUM_CONSTRAINTS as int,
        forall|j: int| 0 <= j < NUM_CONSTRAINTS as int ==> 1 <= #[trigger] out@[j] <= 3,
        out@[0] == 3 && out@[1] == 3 && out@[2] == 3 && out@[3] == 3,
        out@[4] == 3 && out@[5] == 3 && out@[6] == 1 && out@[7] == 1,
        out@[8] == 3 && out@[9] == 3 && out@[10] == 3 && out@[11] == 2,
{
    let mut out: Vec<usize> = Vec::new();
    out.push(3);
    out.push(3);
    out.push(3);
    out.push(3);
    out.push(3);
    out.push(3);
    out.push(1);
    out.push(1);
    out.push(3);
    out.push(3);
    out.push(3);
    out.push(2);
    out
}

} // verus!
