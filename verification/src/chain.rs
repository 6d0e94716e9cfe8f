//! The second constraint-system variant: a one-register arithmetic chain.
//! Each step cubes the state and adds a small constant; its algebraic
//! system is a single degree-three expression per adjacent row pair, with
//! boundary assertions pinning the first cell to the start value and the
//! final cell to the claimed result.

use vstd::prelude::*;
use crate::field::{Felt, f_add, f_sub, f_cube};
use crate::trace::TraceError;

verus! {

/// The additive constant of the chain step.
pub const CHAIN_INCREMENT: u64 = 42;

/// One step of the arithmetic chain: cube the state and add the increment.
pub open spec fn spec_chain_step(x: int) -> int {
    f_add(f_cube(x), CHAIN_INCREMENT as int)
}

/// The chain value after `i` steps from `start`.
pub open spec fn spec_chain_value(start: int, i: nat) -> int
    decreases i,
{
    if i == 0 {
        start
    } else {
        spec_chain_step(spec_chain_value(start, (i - 1) as nat))
    }
}

/// One step of the arithmetic chain.
pub fn chain_step(x: Felt) -> (r: Felt)
    requires
        x.wf(),
    ensures
        r.wf(),
        r@ == spec_chain_step(x@),
{
    x.cube().add(Felt::from_u64(CHAIN_INCREMENT))
}

/// A one-register execution trace of the arithmetic chain.
#[derive(Clone, Debug, PartialEq, Eq)]
pub struct ChainTrace {
    pub cells: Vec<Felt>,
}

/// All cells canonical.
pub open spec fn chain_wf(t: ChainTrace) -> bool {
    forall|i: int| 0 <= i < t.cells@.len() ==> (#[trigger] t.cells@[i]).wf()
}

/// The mathematical value of the chain trace.
pub open spec fn chain_view(t: ChainTrace) -> Seq<int> {
    t.cells@.map(|i: int, f: Felt| f@)
}

/// Builds the arithmetic-chain trace: the start value followed by `n - 1`
/// chain steps. A requested length of zero is a configuration error.
pub fn build_do_work_trace(start: Felt, n: usize) -> (out: Result<ChainTrace, TraceError>)
    requires
        start.wf(),
    ensures
        out is Ok <==> n >= 1,
        n == 0 ==> out == Err::<ChainTrace, TraceError>(TraceError::InvalidLength),
        out is Ok ==> {
            let t = out->Ok_0;
            &&& chain_wf(t)
            &&& t.cells@.len() == n
            &&& forall|i: int|
                0 <= i < n ==> chain_view(t)[i] == spec_chain_value(start@, i as nat)
        },
{
    if n == 0 {
        return Err(TraceError::InvalidLength);
    }
    let mut cells: Vec<Felt> = Vec::new();
    cells.push(start);
    while cells.len() < n
        invariant
            1 <= cells@.len() <= n,
            start.wf(),
            forall|i: int| 0 <= i < cells@.len() ==> (#[trigger] cells@[i]).wf(),
            forall|i: int|
                0 <= i < cells@.len() ==> (#[trigger] cells@[i])@ == spec_chain_value(
                    start@,
                    i as nat,
                ),
        decreases n - cells@.len(),
    {
        let last = cells[cells.len() - 1];
        cells.push(chain_step(last));
    }
    let t = ChainTrace { cells };
    proof {
        assert(forall|i: int|
            0 <= i < n ==> chain_view(t)[i] == (#[trigger] t.cells@[i])@);
    }
    Ok(t)
}

/// The single transition constraint of the chain: the next cell minus the
/// chain step of the current cell.
pub open spec fn spec_chain_constraint(cur: int, next: int) -> int {
    f_sub(next, spec_chain_step(cur))
}

/// Evaluates the chain constraint on one adjacent cell pair.
pub fn chain_constraint(cur: Felt, next: Felt) -> (r: Felt)
    requires
        cur.wf(),
        next.wf(),
    ensures
        r.wf(),
        r@ == spec_chain_constraint(cur@, next@),
{
    next.sub(chain_step(cur))
}

/// The chain constraint vanishes on every adjacent cell pair.
pub open spec fn spec_chain_vanish(cells: Seq<int>) -> bool {
    forall|i: int|
        0 <= i < cells.len() - 1 ==> #[trigger] spec_chain_constraint(cells[i], cells[i + 1]) == 0
}

/// Transition soundness of the chain builder: on a built chain trace the
/// constraint vanishes on every adjacent cell pair.
pub proof fn lemma_chain_vanishes(start: int, cells: Seq<int>)
    requires
        forall|i: int| 0 <= i < cells.len() ==> #[trigger] cells[i] == spec_chain_value(
            start,
            i as nat,
        ),
    ensures
        spec_chain_vanish(cells),
{
    assert forall|i: int| 0 <= i < cells.len() - 1 implies #[trigger] spec_chain_constraint(
        cells[i],
        cells[i + 1],
    ) == 0 by {
        assert(cells[i + 1] == spec_chain_step(cells[i]));
    }
}

/// The final cell of a chain trace, the claimed result of the computation.
pub fn chain_result(t: &ChainTrace) -> (r: Felt)
    requires
        chain_wf(*t),
        t.cells@.len() >= 1,
    ensures
        r.wf(),
        r@ == chain_view(*t)[chain_view(*t).len() - 1],
{
    t.cells[t.cells.len() - 1]
}

/// The chain boundary conditions: the first cell is the start value and the
/// final cell is the claimed result.
pub open spec fn spec_chain_boundary_ok(cells: Seq<int>, start: int, result: int) -> bool {
    &&& cells.len() >= 1
    &&& cells[0] == start
    &&& cells[cells.len() - 1] == result
}

/// Checks the chain boundary conditions.
pub fn chain_boundary_holds(t: &ChainTrace, start: Felt, result: Felt) -> (b: bool)
    requires
        chain_wf(*t),
        t.cells@.len() >= 1,
    ensures
        b == spec_chain_boundary_ok(chain_view(*t), start@, result@),
{
    t.cells[0].felt_eq(start) && t.cells[t.cells.len() - 1].felt_eq(result)
}

} // verus!
