use ark_bls12_381::Fr;
use ark_ff::{BigInteger256, PrimeField};
use ark_relations::r1cs::{
    ConstraintSystem, ConstraintSystemRef, LinearCombination, SynthesisMode, Variable,
};
use ark_std::test_rng;
use circuit_bench::addition_circuit::AdditionCircuit;
use circuit_bench::circuit::BenchCircuit;
use circuit_bench::diagnostics::density_report;
use circuit_bench::fibonacci_circuit::FibonacciCircuit;
use circuit_bench::field::Scalar;
use circuit_bench::hadamard_circuit::HadamardCircuit;
use circuit_bench::multiple_addition_circuit::MultipleAdditionCircuit;
use circuit_bench::r1cs::{ConstraintLayout, VarKind};

fn to_fr(s: Scalar) -> Fr {
    Fr::from_repr(BigInteger256([s.l0, s.l1, s.l2, s.l3])).unwrap()
}

fn replay(layout: &ConstraintLayout, setup: bool) -> ConstraintSystemRef<Fr> {
    let cs = ConstraintSystem::<Fr>::new_ref();
    if setup {
        cs.set_mode(SynthesisMode::Setup);
    }
    let mut vars: Vec<Variable> = Vec::new();
    for alloc in &layout.vars {
        let value = alloc.value;
        let v = match alloc.kind {
            VarKind::Witness => cs.new_witness_variable(|| {
                value.map(to_fr).ok_or(ark_relations::r1cs::SynthesisError::AssignmentMissing)
            }),
            VarKind::Input => cs.new_input_variable(|| {
                value.map(to_fr).ok_or(ark_relations::r1cs::SynthesisError::AssignmentMissing)
            }),
        };
        vars.push(v.unwrap());
    }
    let sum = |t: &Vec<usize>| t.iter().fold(LinearCombination::<Fr>::zero(), |acc, &i| acc + vars[i]);
    for row in &layout.rows {
        cs.enforce_constraint(sum(&row.a), sum(&row.b), sum(&row.c)).unwrap();
    }
    cs
}

fn check_satisfied<C: BenchCircuit>(c: C) {
    let result = to_fr(c.get_result());
    let layout = c.generate_constraints();
    let cs = replay(&layout, false);
    assert!(cs.is_satisfied().unwrap());
    let input = layout.vars.iter().find(|v| v.kind == VarKind::Input).unwrap();
    assert_eq!(input.value.map(to_fr), Some(result));
}

#[test]
fn random_instances_satisfy_their_constraints() {
    let rng = &mut test_rng();
    for n in [1usize, 4, 7, 12] {
        check_satisfied(HadamardCircuit::new_random(rng, n, false));
        check_satisfied(AdditionCircuit::new_random(rng, n, false));
        check_satisfied(MultipleAdditionCircuit::new_random(rng, n, false));
        check_satisfied(FibonacciCircuit::new_random(rng, n, false));
    }
}

#[test]
fn system_counts_match_requested_size() {
    let rng = &mut test_rng();
    for n in [3usize, 5, 10] {
        let layouts = [
            HadamardCircuit::new_random(rng, n, false).generate_constraints(),
            AdditionCircuit::new_random(rng, n, false).generate_constraints(),
            MultipleAdditionCircuit::new_random(rng, n, false).generate_constraints(),
        ];
        for layout in &layouts {
            let n = layout.rows.len();
            let cs = replay(layout, false);
            assert_eq!(cs.num_constraints(), n);
            assert_eq!(cs.num_instance_variables() + cs.num_witness_variables(), n + 1);
        }
    }
}

#[test]
fn blind_shape_matches_assigned_shape() {
    let blind = AdditionCircuit::with_secrets(None, None, None, 9, false).generate_constraints();
    let known = AdditionCircuit::new_random(&mut test_rng(), 9, false).generate_constraints();
    let (cb, ck) = (replay(&blind, true), replay(&known, false));
    assert_eq!(cb.num_constraints(), ck.num_constraints());
    assert_eq!(cb.num_witness_variables(), ck.num_witness_variables());
    let (mb, mk) = (cb.to_matrices().unwrap(), ck.to_matrices().unwrap());
    assert_eq!(
        (mb.a_num_non_zero, mb.b_num_non_zero, mb.c_num_non_zero),
        (mk.a_num_non_zero, mk.b_num_non_zero, mk.c_num_non_zero)
    );
}

#[test]
fn matrix_statistics_of_hadamard() {
    let layout = HadamardCircuit::with_secrets(Some(Scalar::from_u64(2)), Some(Scalar::from_u64(3)), 3, true)
        .generate_constraints();
    let cs = replay(&layout, false);
    let m = cs.to_matrices().unwrap();
    let rep = density_report(
        cs.num_constraints(),
        cs.num_instance_variables() + cs.num_witness_variables(),
        cs.num_witness_variables(),
        (m.a_num_non_zero, m.b_num_non_zero, m.c_num_non_zero),
    )
    .unwrap();
    assert_eq!(rep.cells, 9);
    assert_eq!((rep.a.non_zero, rep.a.zero, rep.a.sparsity_percent), (3, 6, 66));
    assert_eq!(rep.a.non_zero + rep.a.zero, rep.cells);
    assert_eq!(rep.variables, 4);
}

#[test]
fn multi_term_statistics() {
    let layout = MultipleAdditionCircuit::new_random(&mut test_rng(), 6, false).generate_constraints();
    let cs = replay(&layout, false);
    let m = cs.to_matrices().unwrap();
    assert_eq!((m.a_num_non_zero, m.b_num_non_zero, m.c_num_non_zero), (18, 18, 18));
    let rep = density_report(6, 7, cs.num_witness_variables(), (18, 18, 18)).unwrap();
    assert_eq!(rep.cells, 36);
    assert_eq!(rep.c.sparsity_percent, 50);
}

#[test]
fn shifted_sum_statistics() {
    let layout = AdditionCircuit::new_random(&mut test_rng(), 5, true).generate_constraints();
    let cs = replay(&layout, false);
    let m = cs.to_matrices().unwrap();
    assert_eq!((m.a_num_non_zero, m.b_num_non_zero, m.c_num_non_zero), (10, 5, 5));
    assert_eq!(cs.num_witness_variables(), 4);
    let rep = density_report(5, 6, cs.num_witness_variables(), (10, 5, 5)).unwrap();
    assert_eq!(rep.cells, 25);
    assert_eq!((rep.a.zero, rep.a.sparsity_percent), (15, 60));
    assert_eq!((rep.b.zero, rep.b.sparsity_percent), (20, 80));
}
