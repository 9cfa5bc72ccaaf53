//! The shifted-sum relation: `(a + s) * b = c`, with `c` public.

use crate::circuit::{clamp_size, emit_repeated, repeated_layout, BenchCircuit};
use crate::field::{modulus, opt_wf, Scalar};
use crate::r1cs::{opt_value, ConstraintLayout, LayoutModel, RowModel};
use ark_std::rand::rngs::StdRng;
use vstd::arithmetic::div_mod::lemma_mul_mod_noop_left;
use vstd::prelude::*;

verus! {

/// Three witnesses and one input.
pub const MIN_CONSTRAINTS: usize = 4;

#[derive(Clone, Copy, Debug)]
pub struct AdditionCircuit {
    pub a: Option<Scalar>,
    pub b: Option<Scalar>,
    pub s: Option<Scalar>,
    pub num_constraints: usize,
    pub num_variables: usize,
    pub print: bool,
}

impl AdditionCircuit {
    /// An instance with the given secrets, its size clamped to the minimum.
    pub fn with_secrets(
        a: Option<Scalar>,
        b: Option<Scalar>,
        s: Option<Scalar>,
        constraints: usize,
        printing: bool,
    ) -> (r: Self)
        requires
            opt_wf(a),
            opt_wf(b),
            opt_wf(s),
        ensures
            r.wf(),
            r.a == a,
            r.b == b,
            r.s == s,
            r.num_constraints == clamp_size(constraints as nat, MIN_CONSTRAINTS as nat),
            r.num_variables == r.num_constraints,
            r.print == printing,
    {
        let n = if constraints < MIN_CONSTRAINTS {
            MIN_CONSTRAINTS
        } else {
            constraints
        };
        AdditionCircuit { a, b, s, num_constraints: n, num_variables: n, print: printing }
    }

    fn output_value(&self) -> (r: Option<Scalar>)
        requires
            self.wf(),
        ensures
            opt_value(r) == self.output(),
            opt_wf(r),
    {
        match (self.a, self.b, self.s) {
            (Some(a), Some(b), Some(s)) => {
                let r = a.add(&s).mul(&b);
                proof {
                    lemma_mul_mod_noop_left(
                        (a.value() + s.value()) as int,
                        b.value() as int,
                        modulus() as int,
                    );
                }
                Some(r)
            },
            _ => None,
        }
    }
}

impl BenchCircuit for AdditionCircuit {
    open spec fn min_size() -> nat {
        MIN_CONSTRAINTS as nat
    }

    open spec fn size_ok(constraints: nat) -> bool {
        true
    }

    open spec fn wf(&self) -> bool {
        &&& opt_wf(self.a)
        &&& opt_wf(self.b)
        &&& opt_wf(self.s)
        &&& self.num_constraints >= MIN_CONSTRAINTS
        &&& self.num_variables == self.num_constraints
    }

    open spec fn size(&self) -> nat {
        self.num_constraints as nat
    }

    open spec fn diagnostics(&self) -> bool {
        self.print
    }

    open spec fn assigned(&self) -> bool {
        self.a.is_some() && self.b.is_some() && self.s.is_some()
    }

    /// `(a + s) * b`.
    open spec fn output(&self) -> Option<nat> {
        match (self.a, self.b, self.s) {
            (Some(a), Some(b), Some(s)) => Some(((a.value() + s.value()) * b.value()) % modulus()),
            _ => None,
        }
    }

    /// Witnesses `a, b, s`, the input `c`, then padding witnesses holding
    /// `a`; every row reads `(a + s) * b = c`.
    open spec fn layout_model(&self) -> LayoutModel {
        repeated_layout(
            seq![opt_value(self.a), opt_value(self.b), opt_value(self.s)],
            self.output(),
            (self.num_variables - MIN_CONSTRAINTS) as nat,
            opt_value(self.a),
            RowModel { a: seq![0, 2], b: seq![1], c: seq![3] },
            self.num_constraints as nat,
        )
    }

    fn supports(constraints: usize) -> (r: bool) {
        true
    }

    fn new_random(rng: &mut StdRng, constraints: usize, printing: bool) -> (r: Self) {
        let a = Scalar::random(rng);
        let b = Scalar::random(rng);
        let s = Scalar::random(rng);
        Self::with_secrets(Some(a), Some(b), Some(s), constraints, printing)
    }

    fn get_result(&self) -> (r: Scalar) {
        match self.output_value() {
            Some(c) => c,
            None => Scalar::zero(),
        }
    }

    fn generate_constraints(self) -> (r: ConstraintLayout) {
        let witnesses: Vec<Option<Scalar>> = vec![self.a, self.b, self.s];
        let a: Vec<usize> = vec![0, 2];
        let b: Vec<usize> = vec![1];
        let c: Vec<usize> = vec![3];
        let r = emit_repeated(
            &witnesses,
            self.output_value(),
            self.num_variables - MIN_CONSTRAINTS,
            self.a,
            &a,
            &b,
            &c,
            self.num_constraints,
        );
        assert(witnesses@.map_values(|w: Option<Scalar>| opt_value(w)) =~= seq![
            opt_value(self.a),
            opt_value(self.b),
            opt_value(self.s),
        ]);
        assert(a@ =~= seq![0usize, 2]);
        assert(b@ =~= seq![1usize]);
        assert(c@ =~= seq![3usize]);
        r
    }

    fn printing(&self) -> (r: bool) {
        self.print
    }
}

} // verus!
