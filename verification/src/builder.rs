//! The trace builder: places the seed in the rate registers of the first
//! row and derives every following row with the transition rule, then holds
//! the finished trace to the constraint system before handing it out. The
//! result is pinned to the mathematical row sequence, so building twice from
//! one seed gives identical traces, and the final row is tied to an oracle
//! that composes the hash, the doubling and the second hash directly.

use vstd::prelude::*;
use vstd::arithmetic::div_mod::{lemma_small_mod, lemma_mod_multiples_vanish,
    lemma_fundamental_div_mod};
use crate::field::{Felt, f_mul};
use crate::rescue::{State4, spec_run_rounds, CYCLE_LENGTH, NUM_ROUNDS};
use crate::trace::{Row, RowM, Trace, TraceError, row_wf, row_view, trace_wf, trace_view,
    spec_init, spec_row, spec_transition, transition, lemma_spec_row_err_persists};
use crate::air::{spec_all_vanish, transitions_vanish};

verus! {

/// The number of rows of the full pipeline trace: one hash cycle, within
/// whose padding the hand-over to the doubling row falls, and a second hash
/// cycle ending in the output row.
pub const PIPELINE_LENGTH: usize = 32;

/// The seed as a pair of canonical values.
pub open spec fn spec_seed_view(seed: [Felt; 2]) -> (int, int) {
    (seed@[0]@, seed@[1]@)
}

/// Every row up to `n` can be built from `seed`.
pub open spec fn spec_rows_ok(seed: (int, int), n: nat) -> bool {
    forall|i: int| 0 <= i < n ==> (#[trigger] spec_row(seed, i as nat)) is Ok
}

/// The mathematical row sequence of the trace built from `seed`.
pub open spec fn spec_built_rows(seed: (int, int), n: nat) -> Seq<RowM> {
    Seq::new(n, |i: int| spec_row(seed, i as nat)->Ok_0)
}

/// Builds the execution trace of the pipeline from a seed.
///
/// The requested length must be a positive multiple of the cycle length;
/// any other length is a configuration error. A construction error of the
/// transition rule or a non-vanishing constraint on the finished trace is
/// reported as the corresponding error, never recovered from silently.
/// One build step: if row `i` is as given and the transition rule maps it
/// to `next`, then row `i + 1` is `next`.
proof fn lemma_row_extend(seed: (int, int), i: nat, cur: RowM, next: RowM)
    requires
        spec_row(seed, i) == Ok::<RowM, TraceError>(cur),
        spec_transition(cur, i as int) == Ok::<RowM, TraceError>(next),
    ensures
        spec_row(seed, i + 1) == Ok::<RowM, TraceError>(next),
{
}

/// One failing build step: if row `i` is as given and the transition rule
/// rejects it, row `i + 1` carries that error.
proof fn lemma_row_extend_err(seed: (int, int), i: nat, cur: RowM, e: TraceError)
    requires
        spec_row(seed, i) == Ok::<RowM, TraceError>(cur),
        spec_transition(cur, i as int) == Err::<RowM, TraceError>(e),
    ensures
        spec_row(seed, i + 1) == Err::<RowM, TraceError>(e),
{
}

/// Builds the rows of the pipeline trace from a seed, or reports the first
/// construction error of the transition rule.
#[verifier::rlimit(50)]
fn build_rows(seed: [Felt; 2], length: usize) -> (out: Result<Vec<Row>, TraceError>)
    requires
        seed@[0].wf(),
        seed@[1].wf(),
        length >= 1,
    ensures
        match out {
            Ok(rows) => {
                &&& rows@.len() == length
                &&& forall|i: int| 0 <= i < length ==> row_wf(#[trigger] rows@[i])
                &&& forall|i: int|
                    0 <= i < length ==> #[trigger] spec_row(spec_seed_view(seed), i as nat)
                        == Ok::<RowM, TraceError>(row_view(rows@[i]))
            },
            Err(e) => spec_row(spec_seed_view(seed), (length - 1) as nat) == Err::<
                RowM,
                TraceError,
            >(e),
        },
{
    let ghost sv = spec_seed_view(seed);
    let mut rows: Vec<Row> = Vec::new();
    rows.push(
        Row {
            regs: State4 { s0: seed[0], s1: seed[1], s2: Felt::zero(), s3: Felt::zero() },
            phase: Felt::zero(),
        },
    );
    while rows.len() < length
        invariant
            length >= 1,
            1 <= rows@.len() <= length,
            sv == spec_seed_view(seed),
            forall|i: int| 0 <= i < rows@.len() ==> row_wf(#[trigger] rows@[i]),
            forall|i: int|
                0 <= i < rows@.len() ==> spec_row(sv, i as nat) == Ok::<RowM, TraceError>(
                    row_view(#[trigger] rows@[i]),
                ),
        decreases length - rows@.len(),
    {
        let idx = rows.len() - 1;
        let cur = rows[idx];
        match transition(&cur, idx) {
            Ok(next) => {
                proof {
                    lemma_row_extend(sv, idx as nat, row_view(cur), row_view(next));
                }
                rows.push(next);
            },
            Err(e) => {
                proof {
                    lemma_row_extend_err(sv, idx as nat, row_view(cur), e);
                    lemma_spec_row_err_persists(sv, (idx + 1) as nat, (length - 1) as nat);
                }
                return Err(e);
            },
        }
    }
    Ok(rows)
}

/// Builds the execution trace of the pipeline from a seed.
///
/// The requested length must be a positive multiple of the cycle length;
/// any other length is a configuration error. A construction error of the
/// transition rule or a non-vanishing constraint on the finished trace is
/// reported as the corresponding error, never recovered from silently.
pub fn build_trace(seed: [Felt; 2], length: usize) -> (out: Result<Trace, TraceError>)
    requires
        seed@[0].wf(),
        seed@[1].wf(),
    ensures
        out is Ok <==> (length >= 1 && length as int % (CYCLE_LENGTH as int) == 0
            && spec_rows_ok(spec_seed_view(seed), length as nat) && spec_all_vanish(
            spec_built_rows(spec_seed_view(seed), length as nat),
        )),
        out is Ok ==> {
            let t = out->Ok_0;
            &&& trace_wf(t)
            &&& t.rows@.len() == length
            &&& trace_view(t) == spec_built_rows(spec_seed_view(seed), length as nat)
            &&& trace_view(t)[0] == spec_init(spec_seed_view(seed))
        },
        (length == 0 || length as int % (CYCLE_LENGTH as int) != 0) ==> out == Err::<
            Trace,
            TraceError,
        >(TraceError::InvalidLength),
        (length >= 1 && length as int % (CYCLE_LENGTH as int) == 0 && spec_row(
            spec_seed_view(seed),
            (length - 1) as nat,
        ) is Err) ==> out == Err::<Trace, TraceError>(
            spec_row(spec_seed_view(seed), (length - 1) as nat)->Err_0,
        ),
        (length >= 1 && length as int % (CYCLE_LENGTH as int) == 0 && spec_rows_ok(
            spec_seed_view(seed),
            length as nat,
        ) && !spec_all_vanish(spec_built_rows(spec_seed_view(seed), length as nat))) ==> out
            == Err::<Trace, TraceError>(TraceError::ConstraintResidue),
{
    let ghost sv = spec_seed_view(seed);
    if length == 0 || length % CYCLE_LENGTH != 0 {
        return Err(TraceError::InvalidLength);
    }
    match build_rows(seed, length) {
        Ok(rows) => {
            let t = Trace { rows };
            proof {
                assert(trace_view(t) =~= spec_built_rows(sv, length as nat));
            }
            if transitions_vanish(&t) {
                Ok(t)
            } else {
                Err(TraceError::ConstraintResidue)
            }
        },
        Err(e) => {
            proof {
                assert(!spec_rows_ok(sv, length as nat));
            }
            Err(e)
        },
    }
}

/// Determinism: the mathematical row sequence is a function of the seed and
/// the length alone, so any two traces whose rows satisfy the builder's row
/// equations agree row for row.
pub proof fn lemma_build_deterministic(seed: (int, int), n: nat, t1: Seq<RowM>, t2: Seq<RowM>)
    requires
        t1.len() == n,
        t2.len() == n,
        forall|i: int| 0 <= i < n ==> spec_row(seed, i as nat) == Ok::<RowM, TraceError>(t1[i]),
        forall|i: int| 0 <= i < n ==> spec_row(seed, i as nat) == Ok::<RowM, TraceError>(t2[i]),
    ensures
        t1 == t2,
{
    assert(t1 =~= t2);
}

/// The rate registers after one full hash cycle applied to a rate pair with
/// zeroed capacity, if every odd round succeeds.
pub open spec fn spec_hash_digest(x: (int, int)) -> Option<(int, int)> {
    match spec_run_rounds((x.0, x.1, 0, 0), NUM_ROUNDS as nat) {
        Some(q) => Some((q.0, q.1)),
        None => None,
    }
}

/// The oracle for the whole pipeline: hash the seed, double the digest,
/// hash the doubled pair again.
pub open spec fn spec_pipeline_result(seed: (int, int)) -> Option<(int, int)> {
    match spec_hash_digest(seed) {
        Some(h) => spec_hash_digest((f_mul(2, h.0), f_mul(2, h.1))),
        None => None,
    }
}

/// Within a hash phase whose cycle starts at row `base`, row `base + k`
/// carries exactly the first `k` permutation rounds applied to the state at
/// the start of the cycle.
proof fn lemma_cycle_progress(seed: (int, int), base: nat, q0: (int, int, int, int), ph: int, k: nat)
    requires
        base as int % (CYCLE_LENGTH as int) == 0,
        k <= NUM_ROUNDS as nat,
        ph == 0 || ph == 2,
        spec_row(seed, base) == Ok::<RowM, TraceError>((q0, ph)),
        spec_row(seed, base + k) is Ok,
    ensures
        spec_run_rounds(q0, k) is Some,
        spec_row(seed, base + k) == Ok::<RowM, TraceError>((spec_run_rounds(q0, k)->Some_0, ph)),
    decreases k,
{
    reveal(spec_transition);
    if k > 0 {
        if spec_row(seed, (base + k - 1) as nat) is Err {
            lemma_spec_row_err_persists(seed, (base + k - 1) as nat, base + k);
            assert(false);
        }
        lemma_cycle_progress(seed, base, q0, ph, (k - 1) as nat);
        let step = base + k - 1;
        lemma_fundamental_div_mod(base as int, CYCLE_LENGTH as int);
        lemma_mod_multiples_vanish(
            base as int / (CYCLE_LENGTH as int),
            k - 1,
            CYCLE_LENGTH as int,
        );
        lemma_small_mod((k - 1) as nat, CYCLE_LENGTH as nat);
        assert(step % (CYCLE_LENGTH as int) == k - 1);
    }
}

/// Boundary correctness of the full pipeline trace: the first row is the
/// seed row, and the rate registers of the final row equal the oracle's
/// hash-double-hash result.
pub proof fn lemma_pipeline_boundary(seed: (int, int), n: nat)
    requires
        n == 2 * CYCLE_LENGTH as nat,
        spec_rows_ok(seed, n),
    ensures
        spec_row(seed, 0) == Ok::<RowM, TraceError>(spec_init(seed)),
        spec_pipeline_result(seed) is Some,
        spec_row(seed, (n - 1) as nat) is Ok,
        spec_row(seed, (n - 1) as nat)->Ok_0.0.0 == spec_pipeline_result(seed)->Some_0.0,
        spec_row(seed, (n - 1) as nat)->Ok_0.0.1 == spec_pipeline_result(seed)->Some_0.1,
{
    reveal(spec_transition);
    let q0 = (seed.0, seed.1, 0int, 0int);
    assert(spec_row(seed, 14) is Ok);
    lemma_cycle_progress(seed, 0, q0, 0, NUM_ROUNDS as nat);
    let h = spec_run_rounds(q0, NUM_ROUNDS as nat)->Some_0;
    assert(spec_row(seed, 15) == spec_transition((h, 0), 14));
    assert(spec_row(seed, 15) == Ok::<RowM, TraceError>(((h.0, h.1, 0, 0), 1)));
    let d = (f_mul(2, h.0), f_mul(2, h.1));
    assert(spec_row(seed, 16) == spec_transition(((h.0, h.1, 0, 0), 1), 15));
    assert(spec_row(seed, 16) == Ok::<RowM, TraceError>(((d.0, d.1, 0, 0), 2)));
    assert(spec_row(seed, 30) is Ok);
    lemma_cycle_progress(seed, 16, (d.0, d.1, 0int, 0int), 2, NUM_ROUNDS as nat);
    let g = spec_run_rounds((d.0, d.1, 0int, 0int), NUM_ROUNDS as nat)->Some_0;
    assert(spec_row(seed, 31) == spec_transition((g, 2), 30));
    assert(30int % (CYCLE_LENGTH as int) == 14);
    assert(spec_row(seed, 31) == Ok::<RowM, TraceError>(((g.0, g.1, 0, 0), 2)));
}

} // verus!
