//! The multi-term affine relation:
//! `(a + s1 + s2) * (b + s3 + s2) = c + s1 + s2`, with `c` public.

use crate::circuit::{clamp_size, emit_repeated, repeated_layout, BenchCircuit};
use crate::field::{modulus, opt_wf, Scalar};
use crate::r1cs::{opt_value, ConstraintLayout, LayoutModel, RowModel};
use ark_std::rand::rngs::StdRng;
use vstd::arithmetic::div_mod::{
    lemma_add_mod_noop_right, lemma_mul_mod_noop, lemma_small_mod, lemma_sub_mod_noop,
};
use vstd::prelude::*;

verus! {

/// Five witnesses and one input.
pub const MIN_CONSTRAINTS: usize = 6;

#[derive(Clone, Copy, Debug)]
pub struct MultipleAdditionCircuit {
    pub a: Option<Scalar>,
    pub b: Option<Scalar>,
    pub s1: Option<Scalar>,
    pub s2: Option<Scalar>,
    pub s3: Option<Scalar>,
    pub num_constraints: usize,
    pub num_variables: usize,
    pub print: bool,
}

impl MultipleAdditionCircuit {
    /// An instance with the given secrets, its size clamped to the minimum.
    pub fn with_secrets(
        a: Option<Scalar>,
        b: Option<Scalar>,
        s1: Option<Scalar>,
        s2: Option<Scalar>,
        s3: Option<Scalar>,
        constraints: usize,
        printing: bool,
    ) -> (r: Self)
        requires
            opt_wf(a),
            opt_wf(b),
            opt_wf(s1),
            opt_wf(s2),
            opt_wf(s3),
        ensures
            r.wf(),
            r.a == a,
            r.b == b,
            r.s1 == s1,
            r.s2 == s2,
            r.s3 == s3,
            r.num_constraints == clamp_size(constraints as nat, MIN_CONSTRAINTS as nat),
            r.num_variables == r.num_constraints,
            r.print == printing,
    {
        let n = if constraints < MIN_CONSTRAINTS {
            MIN_CONSTRAINTS
        } else {
            constraints
        };
        MultipleAdditionCircuit { a, b, s1, s2, s3, num_constraints: n, num_variables: n, print: printing }
    }

    fn output_value(&self) -> (r: Option<Scalar>)
        requires
            self.wf(),
        ensures
            opt_value(r) == self.output(),
            opt_wf(r),
    {
        match (self.a, self.b, self.s1, self.s2, self.s3) {
            (Some(a), Some(b), Some(s1), Some(s2), Some(s3)) => {
                let left = a.add(&s1).add(&s2);
                let right = b.add(&s3).add(&s2);
                let r = left.mul(&right).sub(&s1).sub(&s2);
                proof {
                    let m = modulus() as int;
                    let (av, bv) = (a.value() as int, b.value() as int);
                    let (v1, v2, v3) = (s1.value() as int, s2.value() as int, s3.value() as int);
                    let lv = av + v1 + v2;
                    let rv = bv + v3 + v2;
                    lemma_add_mod_noop_right(v2, av + v1, m);
                    lemma_add_mod_noop_right(v2, bv + v3, m);
                    lemma_mul_mod_noop(lv, rv, m);
                    lemma_small_mod(v1 as nat, m as nat);
                    lemma_small_mod(v2 as nat, m as nat);
                    lemma_sub_mod_noop(lv * rv, v1, m);
                    lemma_sub_mod_noop(lv * rv - v1, v2, m);
                }
                Some(r)
            },
            _ => None,
        }
    }
}

impl BenchCircuit for MultipleAdditionCircuit {
    open spec fn min_size() -> nat {
        MIN_CONSTRAINTS as nat
    }

    open spec fn size_ok(constraints: nat) -> bool {
        true
    }

    open spec fn wf(&self) -> bool {
        &&& opt_wf(self.a)
        &&& opt_wf(self.b)
        &&& opt_wf(self.s1)
        &&& opt_wf(self.s2)
        &&& opt_wf(self.s3)
        &&& self.num_constraints >= MIN_CONSTRAINTS
        &&& self.num_variables == self.num_constraints
    }

    open spec fn size(&self) -> nat {
        self.num_constraints as nat
    }

    open spec fn diagnostics(&self) -> bool {
        self.print
    }

    open spec fn assigned(&self) -> bool {
        self.a.is_some() && self.b.is_some() && self.s1.is_some() && self.s2.is_some()
            && self.s3.is_some()
    }

    /// `(a + s1 + s2) * (b + s3 + s2) - s1 - s2`.
    open spec fn output(&self) -> Option<nat> {
        match (self.a, self.b, self.s1, self.s2, self.s3) {
            (Some(a), Some(b), Some(s1), Some(s2), Some(s3)) => Some(
                (((a.value() + s1.value() + s2.value()) * (b.value() + s3.value() + s2.value())
                    - s1.value() - s2.value()) % (modulus() as int)) as nat,
            ),
            _ => None,
        }
    }

    /// Witnesses `a, b, s1, s2, s3`, the input `c`, then padding witnesses
    /// holding `a`; every row reads `(a + s1 + s2) * (b + s3 + s2) = c + s1 + s2`.
    open spec fn layout_model(&self) -> LayoutModel {
        repeated_layout(
            seq![
                opt_value(self.a),
                opt_value(self.b),
                opt_value(self.s1),
                opt_value(self.s2),
                opt_value(self.s3),
            ],
            self.output(),
            (self.num_variables - MIN_CONSTRAINTS) as nat,
            opt_value(self.a),
            RowModel { a: seq![0, 2, 3], b: seq![1, 4, 3], c: seq![5, 2, 3] },
            self.num_constraints as nat,
        )
    }

    fn supports(constraints: usize) -> (r: bool) {
        true
    }

    fn new_random(rng: &mut StdRng, constraints: usize, printing: bool) -> (r: Self) {
        let a = Scalar::random(rng);
        let b = Scalar::random(rng);
        let s1 = Scalar::random(rng);
        let s2 = Scalar::random(rng);
        let s3 = Scalar::random(rng);
        Self::with_secrets(Some(a), Some(b), Some(s1), Some(s2), Some(s3), constraints, printing)
    }

    fn get_result(&self) -> (r: Scalar) {
        match self.output_value() {
            Some(c) => c,
            None => Scalar::zero(),
        }
    }

    fn generate_constraints(self) -> (r: ConstraintLayout) {
        let witnesses: Vec<Option<Scalar>> = vec![self.a, self.b, self.s1, self.s2, self.s3];
        let a: Vec<usize> = vec![0, 2, 3];
        let b: Vec<usize> = vec![1, 4, 3];
        let c: Vec<usize> = vec![5, 2, 3];
        let r = emit_repeated(
            &witnesses,
            self.output_value(),
            self.num_variables - MIN_CONSTRAINTS,
            self.a,
            &a,
            &b,
            &c,
            self.num_constraints,
        );
        assert(witnesses@.map_values(|w: Option<Scalar>| opt_value(w)) =~= seq![
            opt_value(self.a),
            opt_value(self.b),
            opt_value(self.s1),
            opt_value(self.s2),
            opt_value(self.s3),
        ]);
        assert(a@ =~= seq![0usize, 2, 3]);
        assert(b@ =~= seq![1usize, 4, 3]);
        assert(c@ =~= seq![5usize, 2, 3]);
        r
    }

    fn printing(&self) -> (r: bool) {
        self.print
    }
}

} // verus!
