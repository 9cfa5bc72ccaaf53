//! The Fibonacci-exponent relation: `x1^(2 Fib(n-3)) * x2^(Fib(n-4)) = c`
//! with `c` public, where every one of the `n` rows recomputes both powers
//! into fresh witnesses.

use crate::circuit::{clamp_size, padded_vars, BenchCircuit};
use crate::field::{modulus, opt_wf, Scalar};
use crate::r1cs::{
    opt_value, push_witnesses, witness, Allocation, ConstraintLayout, LayoutModel, Row,
    RowModel, VarKind, VarModel,
};
use ark_std::rand::rngs::StdRng;
use vstd::arithmetic::div_mod::lemma_mul_mod_noop;
use vstd::arithmetic::power::pow;
use vstd::prelude::*;

verus! {

/// Below four rows the second exponent would need `Fib` of a negative index.
pub const MIN_CONSTRAINTS: usize = 4;

/// The Fibonacci numbers: `fib(0) = 0`, `fib(1) = 1`.
pub open spec fn fib(n: nat) -> nat
    decreases n,
{
    if n == 0 {
        0
    } else if n == 1 {
        1
    } else {
        fib((n - 1) as nat) + fib((n - 2) as nat)
    }
}

pub proof fn lemma_fib_monotonic(i: nat, j: nat)
    requires
        i <= j,
    ensures
        fib(i) <= fib(j),
    decreases j,
{
    if i < j {
        lemma_fib_monotonic(i, (j - 1) as nat);
        assert(fib((j - 1) as nat) <= fib(j)) by {
            if j >= 2 {
                assert(fib(j) == fib((j - 1) as nat) + fib((j - 2) as nat));
            } else {
                assert(j == 1);
                assert(fib(0) == 0);
            }
        }
    }
}

/// The `n`-th Fibonacci number.
pub fn fibonacci_recursive(n: u64) -> (r: u64)
    requires
        fib(n as nat) <= u64::MAX,
    ensures
        r == fib(n as nat),
{
    if n == 0 {
        return 0;
    }
    let mut prev: u64 = 0;
    let mut cur: u64 = 1;
    let mut i: u64 = 1;
    while i < n
        invariant
            1 <= i <= n,
            fib(n as nat) <= u64::MAX,
            prev == fib((i - 1) as nat),
            cur == fib(i as nat),
        decreases n - i,
    {
        proof {
            assert(fib((i + 1) as nat) == fib(i as nat) + fib((i - 1) as nat));
            lemma_fib_monotonic((i + 1) as nat, n as nat);
        }
        let next = prev + cur;
        prev = cur;
        cur = next;
        i = i + 1;
    }
    cur
}

/// The `n`-th Fibonacci number, or `None` where it exceeds 64 bits.
pub fn checked_fibonacci(n: u64) -> (r: Option<u64>)
    ensures
        r == (if fib(n as nat) <= u64::MAX {
            Some(fib(n as nat) as u64)
        } else {
            None::<u64>
        }),
{
    if n == 0 {
        return Some(0);
    }
    let mut prev: u64 = 0;
    let mut cur: u64 = 1;
    let mut i: u64 = 1;
    while i < n
        invariant
            1 <= i <= n,
            prev == fib((i - 1) as nat),
            cur == fib(i as nat),
        decreases n - i,
    {
        proof {
            assert(fib((i + 1) as nat) == fib(i as nat) + fib((i - 1) as nat));
            lemma_fib_monotonic((i + 1) as nat, n as nat);
        }
        let next = match prev.checked_add(cur) {
            Some(v) => v,
            None => return None,
        };
        prev = cur;
        cur = next;
        i = i + 1;
    }
    Some(cur)
}

/// The size `n` admits both exponents in 64 bits and the `3n - 1`
/// variables in the address space.
pub open spec fn size_fits(n: nat) -> bool {
    &&& n >= MIN_CONSTRAINTS
    &&& 2 * fib((n - 3) as nat) <= u64::MAX
    &&& 3 * n <= usize::MAX
}

#[derive(Clone, Copy, Debug)]
pub struct FibonacciCircuit {
    pub x1: Option<Scalar>,
    pub x2: Option<Scalar>,
    pub num_constraints: usize,
    pub num_variables: usize,
    pub print: bool,
}

pub open spec fn opt_pow(x: Option<Scalar>, e: nat) -> Option<nat> {
    match x {
        Some(v) => Some((pow(v.value() as int, e) % (modulus() as int)) as nat),
        None => None,
    }
}

impl FibonacciCircuit {
    /// The exponent of `x1`.
    pub open spec fn first_exponent(&self) -> nat {
        2 * fib((self.num_constraints - 3) as nat)
    }

    /// The exponent of `x2`.
    pub open spec fn second_exponent(&self) -> nat {
        fib((self.num_constraints - 4) as nat)
    }

    /// An instance with the given secrets, its size clamped to the minimum.
    pub fn with_secrets(x1: Option<Scalar>, x2: Option<Scalar>, constraints: usize, printing: bool) -> (r: Self)
        requires
            opt_wf(x1),
            opt_wf(x2),
            size_fits(clamp_size(constraints as nat, MIN_CONSTRAINTS as nat)),
        ensures
            r.wf(),
            r.x1 == x1,
            r.x2 == x2,
            r.num_constraints == clamp_size(constraints as nat, MIN_CONSTRAINTS as nat),
            r.num_variables == r.num_constraints,
            r.print == printing,
    {
        let n = if constraints < MIN_CONSTRAINTS {
            MIN_CONSTRAINTS
        } else {
            constraints
        };
        FibonacciCircuit { x1, x2, num_constraints: n, num_variables: n, print: printing }
    }

    /// The two exponents, `2 Fib(n-3)` and `Fib(n-4)`.
    pub fn exponents(&self) -> (r: (u64, u64))
        requires
            self.wf(),
        ensures
            r.0 == self.first_exponent(),
            r.1 == self.second_exponent(),
    {
        let n = self.num_constraints as u64;
        proof {
            lemma_fib_monotonic((n - 4) as nat, (n - 3) as nat);
        }
        let first = 2 * fibonacci_recursive(n - 3);
        let second = fibonacci_recursive(n - 4);
        (first, second)
    }

    fn powers(&self) -> (r: (Option<Scalar>, Option<Scalar>))
        requires
            self.wf(),
        ensures
            opt_value(r.0) == opt_pow(self.x1, self.first_exponent()),
            opt_value(r.1) == opt_pow(self.x2, self.second_exponent()),
            opt_wf(r.0),
            opt_wf(r.1),
    {
        let (e1, e2) = self.exponents();
        let p1 = match self.x1 {
            Some(x) => Some(x.pow(e1)),
            None => None,
        };
        let p2 = match self.x2 {
            Some(x) => Some(x.pow(e2)),
            None => None,
        };
        (p1, p2)
    }

    fn output_value(&self) -> (r: Option<Scalar>)
        requires
            self.wf(),
        ensures
            opt_value(r) == self.output(),
            opt_wf(r),
    {
        match self.powers() {
            (Some(p1), Some(p2)) => {
                let r = p1.mul(&p2);
                proof {
                    lemma_mul_mod_noop(
                        pow(self.x1.unwrap().value() as int, self.first_exponent()),
                        pow(self.x2.unwrap().value() as int, self.second_exponent()),
                        modulus() as int,
                    );
                }
                Some(r)
            },
            _ => None,
        }
    }
}

/// Witness `k` of the fresh pairs: even ones hold the power of `x1`, odd
/// ones the power of `x2`.
pub open spec fn fresh_vars(first: Option<nat>, second: Option<nat>, rows: nat) -> Seq<VarModel> {
    Seq::new(2 * rows, |k: int| if k % 2 == 0 { witness(first) } else { witness(second) })
}

/// Row `i` multiplies the `i`-th fresh pair, which starts at `base`.
pub open spec fn fresh_rows(base: nat, rows: nat) -> Seq<RowModel> {
    Seq::new(
        rows,
        |i: int|
            RowModel {
                a: seq![(base + 2 * i) as usize],
                b: seq![(base + 2 * i + 1) as usize],
                c: seq![2usize],
            },
    )
}

impl BenchCircuit for FibonacciCircuit {
    open spec fn min_size() -> nat {
        MIN_CONSTRAINTS as nat
    }

    open spec fn size_ok(constraints: nat) -> bool {
        size_fits(clamp_size(constraints, MIN_CONSTRAINTS as nat))
    }

    open spec fn wf(&self) -> bool {
        &&& opt_wf(self.x1)
        &&& opt_wf(self.x2)
        &&& size_fits(self.num_constraints as nat)
        &&& self.num_variables == self.num_constraints
    }

    open spec fn size(&self) -> nat {
        self.num_constraints as nat
    }

    open spec fn diagnostics(&self) -> bool {
        self.print
    }

    open spec fn assigned(&self) -> bool {
        self.x1.is_some() && self.x2.is_some()
    }

    /// `x1^(2 Fib(n-3)) * x2^(Fib(n-4))`.
    open spec fn output(&self) -> Option<nat> {
        match (self.x1, self.x2) {
            (Some(x1), Some(x2)) => Some(
                ((pow(x1.value() as int, self.first_exponent()) * pow(
                    x2.value() as int,
                    self.second_exponent(),
                )) % (modulus() as int)) as nat,
            ),
            _ => None,
        }
    }

    /// Witnesses `x1, x2`, the input, padding witnesses holding `x1`, then
    /// for each row a fresh pair of witnesses holding the two powers; row
    /// `i` reads `first_i * second_i = c`.
    open spec fn layout_model(&self) -> LayoutModel {
        let n = self.num_constraints as nat;
        LayoutModel {
            vars: padded_vars(
                seq![opt_value(self.x1), opt_value(self.x2)],
                self.output(),
                (n - MIN_CONSTRAINTS) as nat,
                opt_value(self.x1),
            ) + fresh_vars(
                opt_pow(self.x1, self.first_exponent()),
                opt_pow(self.x2, self.second_exponent()),
                n,
            ),
            rows: fresh_rows((n - 1) as nat, n),
        }
    }

    fn supports(constraints: usize) -> (r: bool) {
        let n = if constraints < MIN_CONSTRAINTS {
            MIN_CONSTRAINTS
        } else {
            constraints
        };
        if n > usize::MAX / 3 {
            return false;
        }
        match checked_fibonacci((n - 3) as u64) {
            Some(f) => f <= u64::MAX / 2,
            None => false,
        }
    }

    fn new_random(rng: &mut StdRng, constraints: usize, printing: bool) -> (r: Self) {
        let x1 = Scalar::random(rng);
        let x2 = Scalar::random(rng);
        Self::with_secrets(Some(x1), Some(x2), constraints, printing)
    }

    fn get_result(&self) -> (r: Scalar) {
        match self.output_value() {
            Some(c) => c,
            None => Scalar::zero(),
        }
    }

    fn generate_constraints(self) -> (r: ConstraintLayout) {
        let n = self.num_constraints;
        let mut vars: Vec<Allocation> = vec![
            Allocation { kind: VarKind::Witness, value: self.x1 },
            Allocation { kind: VarKind::Witness, value: self.x2 },
            Allocation { kind: VarKind::Input, value: self.output_value() },
        ];
        push_witnesses(&mut vars, n - MIN_CONSTRAINTS, self.x1);
        let ghost base_vars = vars@;
        assert(base_vars.map_values(|v: Allocation| v.model()) =~= padded_vars(
            seq![opt_value(self.x1), opt_value(self.x2)],
            self.output(),
            (n - MIN_CONSTRAINTS) as nat,
            opt_value(self.x1),
        ));
        let ghost first = opt_pow(self.x1, self.first_exponent());
        let ghost second = opt_pow(self.x2, self.second_exponent());
        let mut rows: Vec<Row> = Vec::new();
        let mut i: usize = 0;
        while i < n
            invariant
                self.wf(),
                n == self.num_constraints,
                first == opt_pow(self.x1, self.first_exponent()),
                second == opt_pow(self.x2, self.second_exponent()),
                base_vars.len() == n - 1,
                i <= n,
                vars@.len() == n - 1 + 2 * i,
                vars@.subrange(0, n - 1) == base_vars,
                forall|k: int|
                    n - 1 <= k < n - 1 + 2 * i ==> (#[trigger] vars@[k]).model() == (if (k - (n
                        - 1)) % 2 == 0 {
                        witness(first)
                    } else {
                        witness(second)
                    }),
                rows@.len() == i,
                forall|j: int|
                    0 <= j < i ==> (#[trigger] rows@[j]).model() == fresh_rows(
                        (n - 1) as nat,
                        n as nat,
                    )[j],
            decreases n - i,
        {
            let (p1, p2) = self.powers();
            let at = vars.len();
            let ghost before = vars@;
            vars.push(Allocation { kind: VarKind::Witness, value: p1 });
            vars.push(Allocation { kind: VarKind::Witness, value: p2 });
            let a: Vec<usize> = vec![at];
            let b: Vec<usize> = vec![at + 1];
            let c: Vec<usize> = vec![2];
            proof {
                assert(a@ =~= seq![((n - 1) as nat + 2 * i) as usize]);
                assert(b@ =~= seq![((n - 1) as nat + 2 * i + 1) as usize]);
                assert(c@ =~= seq![2usize]);
                assert((2 * i as int) % 2 == 0);
                assert((2 * i as int + 1) % 2 == 1);
                assert forall|k: int|
                    n - 1 <= k < n - 1 + 2 * (i + 1) implies (#[trigger] vars@[k]).model() == (
                    if (k - (n - 1)) % 2 == 0 {
                        witness(first)
                    } else {
                        witness(second)
                    }) by {
                    if k < at {
                        assert(vars@[k] == before[k]);
                    } else if k == at {
                        assert(k - (n - 1) == 2 * i);
                        assert(vars@[k].model() == witness(first));
                    } else {
                        assert(k - (n - 1) == 2 * i + 1);
                        assert(vars@[k].model() == witness(second));
                    }
                }
            }
            rows.push(Row { a, b, c });
            assert(vars@.subrange(0, n - 1) =~= base_vars);
            i = i + 1;
        }
        let r = ConstraintLayout { vars, rows };
        let ghost spec_r = self.layout_model();
        assert(r.model().vars =~= spec_r.vars);
        assert(r.model().rows =~= spec_r.rows);
        r
    }

    fn printing(&self) -> (r: bool) {
        self.print
    }
}

} // verus!
