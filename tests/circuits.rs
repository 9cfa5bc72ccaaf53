use ark_std::test_rng;
use circuit_bench::addition_circuit::AdditionCircuit;
use circuit_bench::circuit::BenchCircuit;
use circuit_bench::fibonacci_circuit::{checked_fibonacci, fibonacci_recursive, FibonacciCircuit};
use circuit_bench::field::Scalar;
use circuit_bench::hadamard_circuit::HadamardCircuit;
use circuit_bench::multiple_addition_circuit::MultipleAdditionCircuit;
use circuit_bench::r1cs::{ConstraintLayout, VarKind};

fn s(v: u64) -> Option<Scalar> {
    Some(Scalar::from_u64(v))
}

fn kinds(layout: &ConstraintLayout) -> Vec<VarKind> {
    layout.vars.iter().map(|v| v.kind).collect()
}

/// p - 1, the field's largest element.
fn minus_one() -> Scalar {
    Scalar { l0: 0xffffffff00000000, l1: 0x53bda402fffe5bfe, l2: 0x3339d80809a1d805, l3: 0x73eda753299d7d48 }
}

#[test]
fn hadamard_scenario_two_times_three() {
    let c = HadamardCircuit::with_secrets(s(2), s(3), 3, false);
    assert_eq!(c.get_result(), Scalar::from_u64(6));
    let layout = c.generate_constraints();
    assert_eq!(layout.rows.len(), 3);
    assert_eq!(layout.vars.len(), 3);
    assert_eq!(kinds(&layout), vec![VarKind::Witness, VarKind::Witness, VarKind::Input]);
    assert_eq!(layout.vars[2].value, s(6));
    for row in &layout.rows {
        assert_eq!((row.a.clone(), row.b.clone(), row.c.clone()), (vec![0], vec![1], vec![2]));
    }
}

#[test]
fn multiple_addition_scenario_all_ones() {
    let c = MultipleAdditionCircuit::with_secrets(s(1), s(1), s(1), s(1), s(1), 6, false);
    assert_eq!(c.get_result(), Scalar::from_u64(7));
    let layout = c.generate_constraints();
    assert_eq!(layout.rows.len(), 6);
    assert_eq!(layout.vars.len(), 6);
    assert_eq!(layout.rows[0].a, vec![0, 2, 3]);
    assert_eq!(layout.rows[0].b, vec![1, 4, 3]);
    assert_eq!(layout.rows[0].c, vec![5, 2, 3]);
}

#[test]
fn multiple_addition_wraps_below_zero() {
    let c = MultipleAdditionCircuit::with_secrets(s(0), s(0), s(1), s(0), s(0), 6, false);
    assert_eq!(c.get_result(), minus_one());
}

#[test]
fn addition_result_formula() {
    let c = AdditionCircuit::with_secrets(s(2), s(5), s(3), 4, false);
    assert_eq!(c.get_result(), Scalar::from_u64(25));
    let layout = c.generate_constraints();
    assert_eq!(layout.rows[0].a, vec![0, 2]);
    assert_eq!(layout.rows[0].b, vec![1]);
    assert_eq!(layout.rows[0].c, vec![3]);
}

#[test]
fn addition_product_is_reduced() {
    let c = AdditionCircuit::with_secrets(Some(minus_one()), s(2), s(0), 4, false);
    // (p - 1) * 2 = p - 2
    let mut expected = minus_one();
    expected.l0 -= 1;
    assert_eq!(c.get_result(), expected);
}

#[test]
fn fibonacci_numbers() {
    assert_eq!(fibonacci_recursive(0), 0);
    assert_eq!(fibonacci_recursive(1), 1);
    assert_eq!(fibonacci_recursive(7), 13);
    assert_eq!(fibonacci_recursive(93), 12200160415121876738);
    assert_eq!(checked_fibonacci(93), Some(12200160415121876738));
    assert_eq!(checked_fibonacci(94), None);
}

#[test]
fn fibonacci_exponents_at_ten() {
    let c = FibonacciCircuit::with_secrets(s(2), s(3), 10, false);
    assert_eq!(c.exponents(), (26, 8));
}

#[test]
fn fibonacci_result_formula() {
    // n = 5: x1^(2 Fib(2)) * x2^(Fib(1)) = 2^2 * 3
    let c = FibonacciCircuit::with_secrets(s(2), s(3), 5, false);
    assert_eq!(c.get_result(), Scalar::from_u64(12));
    // n = 4: x1^(2 Fib(1)) * x2^0 = 5^2
    let c = FibonacciCircuit::with_secrets(s(5), s(3), 4, false);
    assert_eq!(c.get_result(), Scalar::from_u64(25));
}

#[test]
fn fibonacci_layout_has_fresh_pairs() {
    let c = FibonacciCircuit::with_secrets(s(2), s(3), 5, false);
    let layout = c.generate_constraints();
    assert_eq!(layout.rows.len(), 5);
    assert_eq!(layout.vars.len(), 14);
    assert_eq!(layout.vars[2].kind, VarKind::Input);
    assert_eq!(layout.vars[2].value, s(12));
    for (i, row) in layout.rows.iter().enumerate() {
        assert_eq!(row.a, vec![4 + 2 * i]);
        assert_eq!(row.b, vec![5 + 2 * i]);
        assert_eq!(row.c, vec![2]);
        assert_eq!(layout.vars[4 + 2 * i].value, s(4));
        assert_eq!(layout.vars[5 + 2 * i].value, s(3));
    }
}

#[test]
fn fibonacci_size_limits() {
    assert!(FibonacciCircuit::supports(1));
    assert!(FibonacciCircuit::supports(95));
    assert!(!FibonacciCircuit::supports(96));
}

#[test]
fn missing_secrets_give_zero_and_same_shape() {
    let blind = HadamardCircuit::with_secrets(None, None, 7, false);
    let known = HadamardCircuit::with_secrets(s(4), s(9), 7, false);
    assert_eq!(blind.get_result(), Scalar::zero());
    let lb = blind.generate_constraints();
    let lk = known.generate_constraints();
    assert_eq!(kinds(&lb), kinds(&lk));
    assert_eq!(lb.rows, lk.rows);
    assert!(lb.vars.iter().all(|v| v.value.is_none()));
    assert!(lk.vars.iter().all(|v| v.value.is_some()));
    assert_eq!(lb.vars.len(), 7);
}

#[test]
fn sizes_are_clamped_to_minimum() {
    let rng = &mut test_rng();
    assert_eq!(HadamardCircuit::new_random(rng, 1, true).num_constraints, 3);
    assert_eq!(AdditionCircuit::new_random(rng, 1, false).num_constraints, 4);
    assert_eq!(MultipleAdditionCircuit::new_random(rng, 0, false).num_variables, 6);
    assert_eq!(FibonacciCircuit::new_random(rng, 2, false).num_constraints, 4);
    assert_eq!(HadamardCircuit::new_random(rng, 12, false).num_constraints, 12);
    assert!(HadamardCircuit::new_random(rng, 1, true).printing());
}

#[test]
fn layout_sizes_follow_constraints() {
    let rng = &mut test_rng();
    for n in [6usize, 9, 20] {
        let h = HadamardCircuit::new_random(rng, n, false).generate_constraints();
        let a = AdditionCircuit::new_random(rng, n, false).generate_constraints();
        let m = MultipleAdditionCircuit::new_random(rng, n, false).generate_constraints();
        let f = FibonacciCircuit::new_random(rng, n, false).generate_constraints();
        assert_eq!((h.rows.len(), h.vars.len()), (n, n));
        assert_eq!((a.rows.len(), a.vars.len()), (n, n));
        assert_eq!((m.rows.len(), m.vars.len()), (n, n));
        assert_eq!((f.rows.len(), f.vars.len()), (n, 3 * n - 1));
    }
}

#[test]
fn random_instances_share_shape() {
    let rng = &mut test_rng();
    let c1 = MultipleAdditionCircuit::new_random(rng, 8, false);
    let c2 = MultipleAdditionCircuit::new_random(rng, 8, false);
    assert_ne!(c1.a, c2.a);
    let (l1, l2) = (c1.generate_constraints(), c2.generate_constraints());
    assert_eq!(kinds(&l1), kinds(&l2));
    assert_eq!(l1.rows, l2.rows);
    let f1 = FibonacciCircuit::new_random(rng, 8, false).generate_constraints();
    let f2 = FibonacciCircuit::new_random(rng, 8, false).generate_constraints();
    assert_eq!(kinds(&f1), kinds(&f2));
    assert_eq!(f1.rows, f2.rows);
}

#[test]
fn random_result_matches_secrets() {
    let rng = &mut test_rng();
    let c = AdditionCircuit::new_random(rng, 5, false);
    let again = AdditionCircuit::with_secrets(c.a, c.b, c.s, 5, false);
    assert_eq!(c.get_result(), again.get_result());
    assert_eq!(c.generate_constraints().vars[3].value, Some(c.get_result()));
}

#[test]
fn variable_count_follows_clamped_size() {
    let rng = &mut test_rng();
    for n in [0usize, 2, 5, 11] {
        let h = HadamardCircuit::new_random(rng, n, false);
        let a = AdditionCircuit::new_random(rng, n, false);
        let m = MultipleAdditionCircuit::new_random(rng, n, false);
        assert_eq!(h.num_variables, n.max(3));
        assert_eq!(a.num_variables, n.max(4));
        assert_eq!(m.num_variables, n.max(6));
        assert_eq!(h.num_variables, h.num_constraints);
    }
}
