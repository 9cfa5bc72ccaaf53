//! Facts about the layouts that hold for every instance, assigned or not.

use crate::addition_circuit::AdditionCircuit;
use crate::circuit::{padded_vars, BenchCircuit};
use crate::fibonacci_circuit::{fresh_vars, opt_pow, FibonacciCircuit};
use crate::hadamard_circuit::HadamardCircuit;
use crate::multiple_addition_circuit::MultipleAdditionCircuit;
use crate::diagnostics::{cell_count, reportable};
use crate::field::modulus;
use crate::r1cs::{
    input, lemma_combination_of_one, lemma_combination_of_three, lemma_combination_of_two, non_zero,
    opt_value, Matrix, RowModel, VarKind, VarModel,
};
use vstd::arithmetic::div_mod::{lemma_add_mod_noop_right, lemma_mod_twice, lemma_mul_mod_noop};
use vstd::arithmetic::power::pow;
use vstd::prelude::*;

verus! {

/// The kinds of the padded variables do not depend on any value.
proof fn lemma_padded_kinds(
    w1: Seq<Option<nat>>,
    w2: Seq<Option<nat>>,
    o1: Option<nat>,
    o2: Option<nat>,
    padding: nat,
    p1: Option<nat>,
    p2: Option<nat>,
)
    requires
        w1.len() == w2.len(),
    ensures
        padded_vars(w1, o1, padding, p1).map_values(|v: VarModel| v.kind) == padded_vars(
            w2,
            o2,
            padding,
            p2,
        ).map_values(|v: VarModel| v.kind),
{
    assert(padded_vars(w1, o1, padding, p1).map_values(|v: VarModel| v.kind) =~= padded_vars(
        w2,
        o2,
        padding,
        p2,
    ).map_values(|v: VarModel| v.kind));
}

/// A pairwise-product layout has one row per constraint and one variable
/// per requested variable (one more with the constant), with or without
/// secrets.
pub proof fn hadamard_layout_size(c: HadamardCircuit)
    requires
        c.wf(),
    ensures
        c.layout_model().rows.len() == c.num_constraints,
        c.layout_model().vars.len() == c.num_variables,
{
}

/// A shifted-sum layout has one row per constraint and one variable per
/// requested variable (one more with the constant), with or without
/// secrets.
pub proof fn addition_layout_size(c: AdditionCircuit)
    requires
        c.wf(),
    ensures
        c.layout_model().rows.len() == c.num_constraints,
        c.layout_model().vars.len() == c.num_variables,
{
}

/// A multi-term affine layout has one row per constraint and one variable
/// per requested variable (one more with the constant), with or without
/// secrets.
pub proof fn multiple_addition_layout_size(c: MultipleAdditionCircuit)
    requires
        c.wf(),
    ensures
        c.layout_model().rows.len() == c.num_constraints,
        c.layout_model().vars.len() == c.num_variables,
{
}

/// A Fibonacci layout has one row per constraint and, besides the
/// `n - 1` base variables, two fresh witnesses per row.
pub proof fn fibonacci_layout_size(c: FibonacciCircuit)
    requires
        c.wf(),
    ensures
        c.layout_model().rows.len() == c.num_constraints,
        c.layout_model().vars.len() == 3 * c.num_constraints - 1,
{
}

/// Two pairwise-product instances of one size have the same layout shape,
/// and so the same number of entries in each matrix, whatever their
/// secrets.
pub proof fn hadamard_shape_determined(c1: HadamardCircuit, c2: HadamardCircuit, m: Matrix)
    requires
        c1.wf(),
        c2.wf(),
        c1.num_constraints == c2.num_constraints,
        c1.num_variables == c2.num_variables,
    ensures
        c1.layout_model().shape() == c2.layout_model().shape(),
        non_zero(c1.layout_model().rows, m) == non_zero(c2.layout_model().rows, m),
{
    lemma_padded_kinds(
        seq![opt_value(c1.a), opt_value(c1.b)],
        seq![opt_value(c2.a), opt_value(c2.b)],
        c1.output(),
        c2.output(),
        (c1.num_variables - 3) as nat,
        opt_value(c1.a),
        opt_value(c2.a),
    );
}

/// Two shifted-sum instances of one size have the same layout shape, and
/// so the same number of entries in each matrix, whatever their secrets.
pub proof fn addition_shape_determined(c1: AdditionCircuit, c2: AdditionCircuit, m: Matrix)
    requires
        c1.wf(),
        c2.wf(),
        c1.num_constraints == c2.num_constraints,
        c1.num_variables == c2.num_variables,
    ensures
        c1.layout_model().shape() == c2.layout_model().shape(),
        non_zero(c1.layout_model().rows, m) == non_zero(c2.layout_model().rows, m),
{
    lemma_padded_kinds(
        seq![opt_value(c1.a), opt_value(c1.b), opt_value(c1.s)],
        seq![opt_value(c2.a), opt_value(c2.b), opt_value(c2.s)],
        c1.output(),
        c2.output(),
        (c1.num_variables - 4) as nat,
        opt_value(c1.a),
        opt_value(c2.a),
    );
}

/// Two multi-term affine instances of one size have the same layout
/// shape, and so the same number of entries in each matrix, whatever their
/// secrets.
pub proof fn multiple_addition_shape_determined(
    c1: MultipleAdditionCircuit,
    c2: MultipleAdditionCircuit,
    m: Matrix,
)
    requires
        c1.wf(),
        c2.wf(),
        c1.num_constraints == c2.num_constraints,
        c1.num_variables == c2.num_variables,
    ensures
        c1.layout_model().shape() == c2.layout_model().shape(),
        non_zero(c1.layout_model().rows, m) == non_zero(c2.layout_model().rows, m),
{
    lemma_padded_kinds(
        seq![
            opt_value(c1.a),
            opt_value(c1.b),
            opt_value(c1.s1),
            opt_value(c1.s2),
            opt_value(c1.s3),
        ],
        seq![
            opt_value(c2.a),
            opt_value(c2.b),
            opt_value(c2.s1),
            opt_value(c2.s2),
            opt_value(c2.s3),
        ],
        c1.output(),
        c2.output(),
        (c1.num_variables - 6) as nat,
        opt_value(c1.a),
        opt_value(c2.a),
    );
}

/// Two Fibonacci instances of one size have the same layout shape, and so
/// the same number of entries in each matrix, whatever their secrets.
pub proof fn fibonacci_shape_determined(c1: FibonacciCircuit, c2: FibonacciCircuit, m: Matrix)
    requires
        c1.wf(),
        c2.wf(),
        c1.num_constraints == c2.num_constraints,
    ensures
        c1.layout_model().shape() == c2.layout_model().shape(),
        non_zero(c1.layout_model().rows, m) == non_zero(c2.layout_model().rows, m),
{
    let n = c1.num_constraints as nat;
    let base1 = padded_vars(
        seq![opt_value(c1.x1), opt_value(c1.x2)],
        c1.output(),
        (n - 4) as nat,
        opt_value(c1.x1),
    );
    let base2 = padded_vars(
        seq![opt_value(c2.x1), opt_value(c2.x2)],
        c2.output(),
        (n - 4) as nat,
        opt_value(c2.x1),
    );
    let fresh1 = fresh_vars(
        opt_pow(c1.x1, c1.first_exponent()),
        opt_pow(c1.x2, c1.second_exponent()),
        n,
    );
    let fresh2 = fresh_vars(
        opt_pow(c2.x1, c2.first_exponent()),
        opt_pow(c2.x2, c2.second_exponent()),
        n,
    );
    lemma_padded_kinds(
        seq![opt_value(c1.x1), opt_value(c1.x2)],
        seq![opt_value(c2.x1), opt_value(c2.x2)],
        c1.output(),
        c2.output(),
        (n - 4) as nat,
        opt_value(c1.x1),
        opt_value(c2.x1),
    );
    assert(fresh1.map_values(|v: VarModel| v.kind) =~= fresh2.map_values(|v: VarModel| v.kind));
    assert((base1 + fresh1).map_values(|v: VarModel| v.kind) =~= base1.map_values(
        |v: VarModel| v.kind,
    ) + fresh1.map_values(|v: VarModel| v.kind));
    assert((base2 + fresh2).map_values(|v: VarModel| v.kind) =~= base2.map_values(
        |v: VarModel| v.kind,
    ) + fresh2.map_values(|v: VarModel| v.kind));
}

/// An assigned pairwise-product instance satisfies every row of its
/// layout, whose public input is the recomputed output.
pub proof fn hadamard_layout_satisfied(c: HadamardCircuit)
    requires
        c.wf(),
        c.assigned(),
    ensures
        c.layout_model().assigned(),
        c.layout_model().satisfied(),
        c.layout_model().vars[2] == input(c.output()),
{
    let lm = c.layout_model();
    lemma_combination_of_one(0, lm.vars);
    lemma_combination_of_one(1, lm.vars);
    lemma_combination_of_one(2, lm.vars);
    lemma_mod_twice((c.a.unwrap().value() * c.b.unwrap().value()) as int, modulus() as int);
    assert(lm.row_holds(lm.rows[0]));
}

/// An assigned shifted-sum instance satisfies every row of its layout,
/// whose public input is the recomputed output.
pub proof fn addition_layout_satisfied(c: AdditionCircuit)
    requires
        c.wf(),
        c.assigned(),
    ensures
        c.layout_model().assigned(),
        c.layout_model().satisfied(),
        c.layout_model().vars[3] == input(c.output()),
{
    let lm = c.layout_model();
    lemma_combination_of_two(0, 2, lm.vars);
    lemma_combination_of_one(1, lm.vars);
    lemma_combination_of_one(3, lm.vars);
    lemma_mod_twice(
        ((c.a.unwrap().value() + c.s.unwrap().value()) * c.b.unwrap().value()) as int,
        modulus() as int,
    );
    assert(lm.row_holds(lm.rows[0]));
}

/// An assigned multi-term affine instance satisfies every row of its
/// layout, whose public input is the recomputed output.
pub proof fn multiple_addition_layout_satisfied(c: MultipleAdditionCircuit)
    requires
        c.wf(),
        c.assigned(),
    ensures
        c.layout_model().assigned(),
        c.layout_model().satisfied(),
        c.layout_model().vars[5] == input(c.output()),
{
    let lm = c.layout_model();
    lemma_combination_of_three(0, 2, 3, lm.vars);
    lemma_combination_of_three(1, 4, 3, lm.vars);
    lemma_combination_of_three(5, 2, 3, lm.vars);
    let (a, b) = (c.a.unwrap().value() as int, c.b.unwrap().value() as int);
    let (s1, s2, s3) = (
        c.s1.unwrap().value() as int,
        c.s2.unwrap().value() as int,
        c.s3.unwrap().value() as int,
    );
    let lr = (a + s1 + s2) * (b + s3 + s2);
    lemma_add_mod_noop_right(s1 + s2, lr - s1 - s2, modulus() as int);
    assert(lm.row_holds(lm.rows[0]));
}

/// An assigned Fibonacci instance satisfies every row of its layout,
/// whose public input is the recomputed output.
pub proof fn fibonacci_layout_satisfied(c: FibonacciCircuit)
    requires
        c.wf(),
        c.assigned(),
    ensures
        c.layout_model().assigned(),
        c.layout_model().satisfied(),
        c.layout_model().vars[2] == input(c.output()),
{
    let lm = c.layout_model();
    let n = c.num_constraints as int;
    let m = modulus() as int;
    let p1 = pow(c.x1.unwrap().value() as int, c.first_exponent());
    let p2 = pow(c.x2.unwrap().value() as int, c.second_exponent());
    lemma_mul_mod_noop(p1, p2, m);
    lemma_mod_twice(p1 * p2, m);
    lemma_combination_of_one(2, lm.vars);
    assert forall|i: int| 0 <= i < lm.rows.len() implies #[trigger] lm.row_holds(lm.rows[i]) by {
        let x = (n - 1 + 2 * i) as usize;
        let y = (n + 2 * i) as usize;
        assert(lm.rows[i].a == seq![x]);
        assert(lm.rows[i].b == seq![y]);
        lemma_combination_of_one(x, lm.vars);
        lemma_combination_of_one(y, lm.vars);
        assert((2 * i) % 2 == 0);
        assert((2 * i + 1) % 2 == 1);
        assert(lm.vars[x as int].value == Some((p1 % m) as nat));
        assert(lm.vars[y as int].value == Some((p2 % m) as nat));
    }
    assert forall|k: int| 0 <= k < lm.vars.len() implies (#[trigger] lm.vars[k].value).is_some() by {
        if k >= n - 1 {
            assert(lm.vars[k] == fresh_vars(
                opt_pow(c.x1, c.first_exponent()),
                opt_pow(c.x2, c.second_exponent()),
                n as nat,
            )[k - (n - 1)]);
        }
    }
}

/// Rows whose side `m` each holds `width` terms fill `width` entries of
/// matrix `m` per row.
proof fn lemma_non_zero_uniform(rows: Seq<RowModel>, m: Matrix, width: nat)
    requires
        forall|i: int| 0 <= i < rows.len() ==> (#[trigger] rows[i]).terms(m).len() == width,
    ensures
        non_zero(rows, m) == rows.len() * width,
    decreases rows.len(),
{
    if rows.len() > 0 {
        let shorter = rows.drop_last();
        assert forall|i: int| 0 <= i < shorter.len() implies (#[trigger] shorter[i]).terms(m).len()
            == width by {
            assert(shorter[i] == rows[i]);
        }
        lemma_non_zero_uniform(shorter, m, width);
        assert(rows.len() * width == (rows.len() - 1) * width + width) by (nonlinear_arith);
    }
}

/// A square system of `n` rows and `n - 1` witnesses whose matrices fill at
/// most `n * n` entries each admits a density report of `n * n` cells per
/// matrix, as long as the machine can count them.
proof fn lemma_square_report(n: nat, filled: (usize, usize, usize))
    requires
        n >= 1,
        n * n * 100 <= usize::MAX,
        filled.0 <= n * n,
        filled.1 <= n * n,
        filled.2 <= n * n,
    ensures
        cell_count(n, (n - 1) as nat) == n * n,
        reportable(n, (n - 1) as nat, filled),
{
    assert(n * n >= 1 && n <= n * n) by (nonlinear_arith)
        requires
            n >= 1,
    ;
    assert(((n - 1) as nat + 1) == n);
    assert(cell_count(n, (n - 1) as nat) == n * n);
}

/// Exactly one variable of `vars` is an input: the one at `at`.
pub open spec fn sole_input_at(vars: Seq<VarModel>, at: int) -> bool {
    &&& 0 <= at < vars.len()
    &&& forall|i: int| 0 <= i < vars.len() ==> (#[trigger] vars[i].kind == VarKind::Input) == (i == at)
}

/// A pairwise-product layout of `n` rows fills `n` entries of each matrix
/// and holds `n - 1` witnesses beside its one input; so its density report
/// counts `n * n` cells per matrix, wherever `n * n * 100` fits in a
/// machine word.
pub proof fn hadamard_density(c: HadamardCircuit)
    requires
        c.wf(),
        c.num_constraints * c.num_constraints * 100 <= usize::MAX,
    ensures
        non_zero(c.layout_model().rows, Matrix::A) == c.num_constraints,
        non_zero(c.layout_model().rows, Matrix::B) == c.num_constraints,
        non_zero(c.layout_model().rows, Matrix::C) == c.num_constraints,
        sole_input_at(c.layout_model().vars, 2),
        cell_count(c.num_constraints as nat, (c.num_constraints - 1) as nat) == c.num_constraints
            * c.num_constraints,
        reportable(
            c.num_constraints as nat,
            (c.num_constraints - 1) as nat,
            (c.num_constraints, c.num_constraints, c.num_constraints),
        ),
{
    let lm = c.layout_model();
    let n = c.num_constraints as nat;
    lemma_non_zero_uniform(lm.rows, Matrix::A, 1);
    lemma_non_zero_uniform(lm.rows, Matrix::B, 1);
    lemma_non_zero_uniform(lm.rows, Matrix::C, 1);
    assert(n <= n * n) by (nonlinear_arith)
        requires
            n >= 1,
    ;
    lemma_square_report(n, (c.num_constraints, c.num_constraints, c.num_constraints));
}

/// A shifted-sum layout of `n` rows fills `2n` entries of `A` and `n` of
/// `B` and `C`, and holds `n - 1` witnesses beside its one input; so its
/// density report counts `n * n` cells per matrix, wherever `n * n * 100`
/// fits in a machine word.
pub proof fn addition_density(c: AdditionCircuit)
    requires
        c.wf(),
        c.num_constraints * c.num_constraints * 100 <= usize::MAX,
    ensures
        non_zero(c.layout_model().rows, Matrix::A) == 2 * c.num_constraints,
        non_zero(c.layout_model().rows, Matrix::B) == c.num_constraints,
        non_zero(c.layout_model().rows, Matrix::C) == c.num_constraints,
        sole_input_at(c.layout_model().vars, 3),
        cell_count(c.num_constraints as nat, (c.num_constraints - 1) as nat) == c.num_constraints
            * c.num_constraints,
        reportable(
            c.num_constraints as nat,
            (c.num_constraints - 1) as nat,
            ((2 * c.num_constraints) as usize, c.num_constraints, c.num_constraints),
        ),
{
    let lm = c.layout_model();
    let n = c.num_constraints as nat;
    lemma_non_zero_uniform(lm.rows, Matrix::A, 2);
    lemma_non_zero_uniform(lm.rows, Matrix::B, 1);
    lemma_non_zero_uniform(lm.rows, Matrix::C, 1);
    assert(2 * n <= n * n) by (nonlinear_arith)
        requires
            n >= 4,
    ;
    lemma_square_report(n, ((2 * n) as usize, c.num_constraints, c.num_constraints));
}

/// A multi-term affine layout of `n` rows fills `3n` entries of each
/// matrix and holds `n - 1` witnesses beside its one input; so its density
/// report counts `n * n` cells per matrix, wherever `n * n * 100` fits in
/// a machine word.
pub proof fn multiple_addition_density(c: MultipleAdditionCircuit)
    requires
        c.wf(),
        c.num_constraints * c.num_constraints * 100 <= usize::MAX,
    ensures
        non_zero(c.layout_model().rows, Matrix::A) == 3 * c.num_constraints,
        non_zero(c.layout_model().rows, Matrix::B) == 3 * c.num_constraints,
        non_zero(c.layout_model().rows, Matrix::C) == 3 * c.num_constraints,
        sole_input_at(c.layout_model().vars, 5),
        cell_count(c.num_constraints as nat, (c.num_constraints - 1) as nat) == c.num_constraints
            * c.num_constraints,
        reportable(
            c.num_constraints as nat,
            (c.num_constraints - 1) as nat,
            (
                (3 * c.num_constraints) as usize,
                (3 * c.num_constraints) as usize,
                (3 * c.num_constraints) as usize,
            ),
        ),
{
    let lm = c.layout_model();
    let n = c.num_constraints as nat;
    lemma_non_zero_uniform(lm.rows, Matrix::A, 3);
    lemma_non_zero_uniform(lm.rows, Matrix::B, 3);
    lemma_non_zero_uniform(lm.rows, Matrix::C, 3);
    assert(3 * n <= n * n) by (nonlinear_arith)
        requires
            n >= 6,
    ;
    lemma_square_report(n, ((3 * n) as usize, (3 * n) as usize, (3 * n) as usize));
}

} // verus!
