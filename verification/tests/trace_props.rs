// Properties of the trace builder and the constraint system, checked against
// field arithmetic computed independently through the proving engine's field
// type.

use stark_test::field::{Felt, MODULUS};
use stark_test::rescue::{ark_at, CYCLE_LENGTH, INV_ALPHA, NUM_ROUNDS};
use stark_test::trace::{Trace, TraceError};
use stark_test::air::{air_accepts, eval_transition, get_pub_inputs, transitions_vanish,
    boundary_holds, boundary_assertions, constraint_degrees, PublicInputs, NUM_CONSTRAINTS};
use stark_test::builder::{build_trace, PIPELINE_LENGTH};
use stark_test::chain::{build_do_work_trace, chain_boundary_holds, chain_constraint,
    chain_result, chain_step};
use stark_test::computation::{ArithChain, Computation, HashPipeline};
use stark_test::rescue::State4;
use stark_test::trace::{transition, Row};

use winterfell::math::fields::f128::BaseElement;
use winterfell::math::{FieldElement, StarkField};

fn felt(v: u128) -> Felt {
    Felt::from_u128(v)
}

fn to_base(f: Felt) -> BaseElement {
    BaseElement::new(f.as_u128())
}

// One permutation round computed directly over the engine's field type.
fn oracle_round(state: [BaseElement; 4], r: usize) -> [BaseElement; 4] {
    let (a0, a1, a2, a3) = ark_at(r);
    let ark = [to_base(a0), to_base(a1), to_base(a2), to_base(a3)];
    let mut y = [BaseElement::ZERO; 4];
    for j in 0..4 {
        y[j] = state[j] + ark[j];
    }
    let mut s = [BaseElement::ZERO; 4];
    if r % 2 == 0 {
        for j in 0..4 {
            s[j] = y[j].exp(3);
        }
    } else {
        for j in 0..4 {
            s[j] = y[j].exp(INV_ALPHA);
            assert_eq!(s[j].exp(3), y[j]);
        }
    }
    let mds: [[u64; 4]; 4] = [[2, 3, 1, 1], [1, 2, 3, 1], [1, 1, 2, 3], [3, 1, 1, 2]];
    let mut m = [BaseElement::ZERO; 4];
    for i in 0..4 {
        for j in 0..4 {
            m[i] += BaseElement::new(mds[i][j] as u128) * s[j];
        }
    }
    let mut out = [BaseElement::ZERO; 4];
    for j in 0..4 {
        out[j] = m[j] + ark[j];
    }
    out
}

fn oracle_hash(rate: [BaseElement; 2]) -> [BaseElement; 2] {
    let mut state = [rate[0], rate[1], BaseElement::ZERO, BaseElement::ZERO];
    for r in 0..NUM_ROUNDS {
        state = oracle_round(state, r);
    }
    [state[0], state[1]]
}

// The full pipeline computed independently: hash, double, hash again.
fn oracle_pipeline(seed: [BaseElement; 2]) -> [BaseElement; 2] {
    let h = oracle_hash(seed);
    let two = BaseElement::new(2);
    oracle_hash([h[0] * two, h[1] * two])
}

fn build(seed0: u128, seed1: u128) -> Trace {
    build_trace([felt(seed0), felt(seed1)], PIPELINE_LENGTH).expect("the pipeline trace builds")
}

#[test]
fn builder_is_deterministic() {
    let t1 = build(42, 43);
    let t2 = build(42, 43);
    assert_eq!(t1, t2);
    let t3 = build(7, 9);
    let t4 = build(7, 9);
    assert_eq!(t3, t4);
    assert_ne!(t1, t3);
}

#[test]
fn first_row_carries_seed() {
    let t = build(42, 43);
    assert_eq!(t.get(0, 0).as_u128(), 42);
    assert_eq!(t.get(1, 0).as_u128(), 43);
    assert_eq!(t.get(2, 0).as_u128(), 0);
    assert_eq!(t.get(3, 0).as_u128(), 0);
    assert_eq!(t.get(4, 0).as_u128(), 0);
}

#[test]
fn final_row_matches_oracle() {
    let t = build(42, 43);
    let last = t.length() - 1;
    let expected = oracle_pipeline([BaseElement::new(42), BaseElement::new(43)]);
    assert_eq!(t.get(0, last).as_u128(), expected[0].as_int());
    assert_eq!(t.get(1, last).as_u128(), expected[1].as_int());
}

#[test]
fn final_row_matches_oracle_more_seeds() {
    for (s0, s1) in [(0u128, 0u128), (1, 2), (123456789, 987654321), (u128::MAX - 5, 3)] {
        let seed = [felt(s0), felt(s1)];
        let t = build_trace(seed, PIPELINE_LENGTH).expect("builds");
        let last = t.length() - 1;
        let expected =
            oracle_pipeline([to_base(seed[0]), to_base(seed[1])]);
        assert_eq!(t.get(0, last).as_u128(), expected[0].as_int());
        assert_eq!(t.get(1, last).as_u128(), expected[1].as_int());
    }
}

#[test]
fn phase_register_follows_schedule() {
    let t = build(42, 43);
    for step in 0..t.length() {
        let expected: u128 = if step <= 14 {
            0
        } else if step == 15 {
            1
        } else {
            2
        };
        assert_eq!(t.get(4, step).as_u128(), expected, "phase at step {step}");
    }
}

#[test]
fn all_constraints_vanish_on_built_trace() {
    let t = build(42, 43);
    assert!(transitions_vanish(&t));
    for step in 0..t.length() - 1 {
        let cs = eval_transition(&t.rows[step], &t.rows[step + 1], step);
        assert_eq!(cs.len(), NUM_CONSTRAINTS);
        for (j, c) in cs.iter().enumerate() {
            assert_eq!(c.as_u128(), 0, "constraint {j} at step {step}");
        }
    }
}

#[test]
fn mutating_any_cell_breaks_a_constraint() {
    let base = build(42, 43);
    for step in 0..base.length() {
        for reg in 0..5 {
            let mut t = base.clone();
            let old = t.get(reg, step).as_u128();
            let new_value = felt((old + 1) % MODULUS);
            match reg {
                0 => t.rows[step].regs.s0 = new_value,
                1 => t.rows[step].regs.s1 = new_value,
                2 => t.rows[step].regs.s2 = new_value,
                3 => t.rows[step].regs.s3 = new_value,
                _ => t.rows[step].phase = new_value,
            }
            assert!(!transitions_vanish(&t), "mutation at register {reg}, step {step}");
        }
    }
}

#[test]
fn rejects_length_not_multiple_of_cycle() {
    let seed = [felt(42), felt(43)];
    assert_eq!(build_trace(seed, 17), Err(TraceError::InvalidLength));
    assert_eq!(build_trace(seed, 0), Err(TraceError::InvalidLength));
    assert_eq!(build_trace(seed, CYCLE_LENGTH + 1), Err(TraceError::InvalidLength));
    assert!(build_trace(seed, CYCLE_LENGTH).is_ok());
    assert!(build_trace(seed, 3 * CYCLE_LENGTH).is_ok());
}

#[test]
fn air_accepts_honest_trace_and_rejects_wrong_result() {
    let t = build(42, 43);
    let pi = get_pub_inputs(&t);
    assert!(air_accepts(&t, &pi));
    assert!(boundary_holds(&t, &pi));
    let bad = PublicInputs {
        input_hash: pi.input_hash,
        output_hash: [pi.output_hash[0].add(Felt::one()), pi.output_hash[1]],
    };
    assert!(!air_accepts(&t, &bad));
    assert!(!boundary_holds(&t, &bad));
}

#[test]
fn public_inputs_flatten_in_order() {
    let t = build(42, 43);
    let pi = get_pub_inputs(&t);
    let elems = pi.to_elements();
    assert_eq!(elems.len(), 4);
    assert_eq!(elems[0].as_u128(), 42);
    assert_eq!(elems[1].as_u128(), 43);
    assert_eq!(elems[2].as_u128(), pi.output_hash[0].as_u128());
    assert_eq!(elems[3].as_u128(), pi.output_hash[1].as_u128());
}

#[test]
fn boundary_assertion_list_pins_first_and_last_row() {
    let t = build(42, 43);
    let pi = get_pub_inputs(&t);
    let asserts = boundary_assertions(&pi, t.length());
    assert_eq!(asserts.len(), 7);
    assert_eq!((asserts[0].register, asserts[0].step, asserts[0].value.as_u128()), (0, 0, 42));
    assert_eq!((asserts[1].register, asserts[1].step, asserts[1].value.as_u128()), (1, 0, 43));
    assert_eq!((asserts[2].register, asserts[2].step, asserts[2].value.as_u128()), (2, 0, 0));
    assert_eq!((asserts[3].register, asserts[3].step, asserts[3].value.as_u128()), (3, 0, 0));
    assert_eq!((asserts[4].register, asserts[4].step, asserts[4].value.as_u128()), (4, 0, 0));
    assert_eq!(asserts[5].register, 0);
    assert_eq!(asserts[5].step, t.length() - 1);
    assert_eq!(asserts[5].value.as_u128(), pi.output_hash[0].as_u128());
    assert_eq!(asserts[6].register, 1);
    assert_eq!(asserts[6].step, t.length() - 1);
    assert_eq!(asserts[6].value.as_u128(), pi.output_hash[1].as_u128());
}

#[test]
fn declared_degrees_stay_within_bound() {
    let degrees = constraint_degrees();
    assert_eq!(degrees.len(), NUM_CONSTRAINTS);
    for d in degrees {
        assert!(d >= 1 && d <= 3);
    }
}

#[test]
fn chain_trace_follows_recurrence() {
    let start = felt(3);
    let t = build_do_work_trace(start, 8).expect("chain builds");
    assert_eq!(t.cells.len(), 8);
    assert_eq!(t.cells[0].as_u128(), 3);
    let mut expected = BaseElement::new(3);
    for i in 1..8 {
        expected = expected.exp(3) + BaseElement::new(42);
        assert_eq!(t.cells[i].as_u128(), expected.as_int(), "cell {i}");
    }
    assert_eq!(chain_result(&t).as_u128(), expected.as_int());
    assert!(chain_boundary_holds(&t, start, chain_result(&t)));
    assert!(!chain_boundary_holds(&t, start, felt(0)));
}

#[test]
fn chain_constraint_vanishes_exactly_on_chain_pairs() {
    let t = build_do_work_trace(felt(7), 16).expect("chain builds");
    for i in 0..t.cells.len() - 1 {
        assert_eq!(chain_constraint(t.cells[i], t.cells[i + 1]).as_u128(), 0);
    }
    // a mutated pair leaves a residue
    let wrong = t.cells[1].add(Felt::one());
    assert_ne!(chain_constraint(t.cells[0], wrong).as_u128(), 0);
}

#[test]
fn chain_rejects_empty_request_and_is_deterministic() {
    assert_eq!(build_do_work_trace(felt(3), 0), Err(TraceError::InvalidLength));
    let a = build_do_work_trace(felt(5), 32).expect("builds");
    let b = build_do_work_trace(felt(5), 32).expect("builds");
    assert_eq!(a, b);
}

#[test]
fn chain_step_matches_engine_arithmetic() {
    for v in [0u128, 1, 42, 123456789123456789] {
        let ours = chain_step(felt(v));
        let theirs = BaseElement::new(v).exp(3) + BaseElement::new(42);
        assert_eq!(ours.as_u128(), theirs.as_int());
    }
}

#[test]
fn computation_capabilities_agree_with_variants() {
    let pipeline = HashPipeline;
    assert_eq!(pipeline.trace_width(), 5);
    assert_eq!(pipeline.cycle_length(), CYCLE_LENGTH);
    assert_eq!(pipeline.public_registers(), vec![0, 1]);
    let t = build(42, 43);
    for step in 0..t.length() - 1 {
        let row = vec![
            t.get(0, step),
            t.get(1, step),
            t.get(2, step),
            t.get(3, step),
            t.get(4, step),
        ];
        let next = pipeline.step(&row, step).expect("the built row steps forward");
        for reg in 0..5 {
            assert_eq!(next[reg], t.get(reg, step + 1), "register {reg} at step {step}");
        }
    }
    let chain = ArithChain;
    assert_eq!(chain.trace_width(), 1);
    assert_eq!(chain.cycle_length(), 1);
    assert_eq!(chain.public_registers(), vec![0]);
    let stepped = chain.step(&vec![felt(3)], 0).expect("the chain steps forward");
    assert_eq!(stepped[0], chain_step(felt(3)));
}

#[test]
fn transition_rejects_unreachable_phase() {
    let t = build(42, 43);
    let row = Row { regs: t.rows[0].regs, phase: felt(5) };
    assert_eq!(transition(&row, 0), Err(TraceError::UnreachablePhase));
    let row2 = Row {
        regs: State4 { s0: felt(1), s1: felt(2), s2: felt(3), s3: felt(4) },
        phase: felt(3),
    };
    assert_eq!(transition(&row2, 7), Err(TraceError::UnreachablePhase));
}
