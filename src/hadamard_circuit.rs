//! The pairwise-product relation: `a * b = c`, with `c` public.

use crate::circuit::{clamp_size, emit_repeated, repeated_layout, BenchCircuit};
use crate::field::{modulus, opt_wf, Scalar};
use crate::r1cs::{opt_value, ConstraintLayout, LayoutModel, RowModel};
use ark_std::rand::rngs::StdRng;
use vstd::prelude::*;

verus! {

/// Two witnesses and one input.
pub const MIN_CONSTRAINTS: usize = 3;

#[derive(Clone, Copy, Debug)]
pub struct HadamardCircuit {
    pub a: Option<Scalar>,
    pub b: Option<Scalar>,
    pub num_constraints: usize,
    pub num_variables: usize,
    pub print: bool,
}

impl HadamardCircuit {
    /// An instance with the given secrets, its size clamped to the minimum.
    pub fn with_secrets(a: Option<Scalar>, b: Option<Scalar>, constraints: usize, printing: bool) -> (r: Self)
        requires
            opt_wf(a),
            opt_wf(b),
        ensures
            r.wf(),
            r.a == a,
            r.b == b,
            r.num_constraints == clamp_size(constraints as nat, MIN_CONSTRAINTS as nat),
            r.num_variables == r.num_constraints,
            r.print == printing,
    {
        let n = if constraints < MIN_CONSTRAINTS {
            MIN_CONSTRAINTS
        } else {
            constraints
        };
        HadamardCircuit { a, b, num_constraints: n, num_variables: n, print: printing }
    }

    fn output_value(&self) -> (r: Option<Scalar>)
        requires
            self.wf(),
        ensures
            opt_value(r) == self.output(),
            opt_wf(r),
    {
        match (self.a, self.b) {
            (Some(a), Some(b)) => Some(a.mul(&b)),
            _ => None,
        }
    }
}

impl BenchCircuit for HadamardCircuit {
    open spec fn min_size() -> nat {
        MIN_CONSTRAINTS as nat
    }

    open spec fn size_ok(constraints: nat) -> bool {
        true
    }

    open spec fn wf(&self) -> bool {
        &&& opt_wf(self.a)
        &&& opt_wf(self.b)
        &&& self.num_constraints >= MIN_CONSTRAINTS
        &&& self.num_variables == self.num_constraints
    }

    open spec fn size(&self) -> nat {
        self.num_constraints as nat
    }

    open spec fn diagnostics(&self) -> bool {
        self.print
    }

    open spec fn assigned(&self) -> bool {
        self.a.is_some() && self.b.is_some()
    }

    /// `a * b`.
    open spec fn output(&self) -> Option<nat> {
        match (self.a, self.b) {
            (Some(a), Some(b)) => Some((a.value() * b.value()) % modulus()),
            _ => None,
        }
    }

    /// Witnesses `a, b`, the input `c`, then padding witnesses holding `a`;
    /// every row reads `a * b = c`.
    open spec fn layout_model(&self) -> LayoutModel {
        repeated_layout(
            seq![opt_value(self.a), opt_value(self.b)],
            self.output(),
            (self.num_variables - MIN_CONSTRAINTS) as nat,
            opt_value(self.a),
            RowModel { a: seq![0], b: seq![1], c: seq![2] },
            self.num_constraints as nat,
        )
    }

    fn supports(constraints: usize) -> (r: bool) {
        true
    }

    fn new_random(rng: &mut StdRng, constraints: usize, printing: bool) -> (r: Self) {
        let a = Scalar::random(rng);
        let b = Scalar::random(rng);
        Self::with_secrets(Some(a), Some(b), constraints, printing)
    }

    fn get_result(&self) -> (r: Scalar) {
        match self.output_value() {
            Some(c) => c,
            None => Scalar::zero(),
        }
    }

    fn generate_constraints(self) -> (r: ConstraintLayout) {
        let witnesses: Vec<Option<Scalar>> = vec![self.a, self.b];
        let a: Vec<usize> = vec![0];
        let b: Vec<usize> = vec![1];
        let c: Vec<usize> = vec![2];
        let r = emit_repeated(
            &witnesses,
            self.output_value(),
            self.num_variables - MIN_CONSTRAINTS,
            self.a,
            &a,
            &b,
            &c,
            self.num_constraints,
        );
        assert(witnesses@.map_values(|w: Option<Scalar>| opt_value(w)) =~= seq![
            opt_value(self.a),
            opt_value(self.b),
        ]);
        assert(a@ =~= seq![0usize]);
        assert(b@ =~= seq![1usize]);
        assert(c@ =~= seq![2usize]);
        r
    }

    fn printing(&self) -> (r: bool) {
        self.print
    }
}

} // verus!
