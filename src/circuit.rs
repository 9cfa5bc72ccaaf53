//! What every relation offers: a random instance of a given size, its public
//! output recomputed outside any constraint system, and its constraint
//! layout.

use crate::field::Scalar;
use crate::r1cs::{
    input, opt_value, push_witnesses, repeat_row, witness, Allocation, ConstraintLayout,
    LayoutModel, RowModel, VarKind, VarModel,
};
use ark_std::rand::rngs::StdRng;
use vstd::prelude::*;

verus! {

/// A requested size raised to the relation's minimum.
pub open spec fn clamp_size(requested: nat, min: nat) -> nat {
    if requested < min {
        min
    } else {
        requested
    }
}

/// The public output, or zero when the instance holds no secrets.
pub open spec fn value_or_zero(v: Option<nat>) -> nat {
    match v {
        Some(x) => x,
        None => 0,
    }
}

pub trait BenchCircuit: Sized {
    /// The smallest size for which the relation's wiring is well formed.
    spec fn min_size() -> nat;

    /// Whether a requested size can be laid out on this machine.
    spec fn size_ok(constraints: nat) -> bool;

    spec fn wf(&self) -> bool;

    /// The number of constraint rows.
    spec fn size(&self) -> nat;

    /// Whether shape statistics are reported after emission.
    spec fn diagnostics(&self) -> bool;

    /// Whether the instance holds every secret.
    spec fn assigned(&self) -> bool;

    /// The public output, present exactly when every secret is.
    spec fn output(&self) -> Option<nat>;

    spec fn layout_model(&self) -> LayoutModel;

    /// Whether `constraints` can be laid out on this machine.
    fn supports(constraints: usize) -> (r: bool)
        ensures
            r == Self::size_ok(constraints as nat),
    ;

    /// Draws every secret from `rng` and clamps `constraints` to the minimum.
    fn new_random(rng: &mut StdRng, constraints: usize, printing: bool) -> (r: Self)
        requires
            Self::size_ok(constraints as nat),
        ensures
            r.wf(),
            r.assigned(),
            r.size() == clamp_size(constraints as nat, Self::min_size()),
            r.diagnostics() == printing,
    ;

    /// The public output recomputed from the secrets, or zero without them.
    fn get_result(&self) -> (r: Scalar)
        requires
            self.wf(),
        ensures
            r.wf(),
            r.value() == value_or_zero(self.output()),
    ;

    /// The constraint system this instance stands for.
    fn generate_constraints(self) -> (r: ConstraintLayout)
        requires
            self.wf(),
        ensures
            r.model() == self.layout_model(),
            r.model().wf(),
    ;

    fn printing(&self) -> (r: bool)
        ensures
            r == self.diagnostics(),
    ;
}

/// Witnesses, then the public input, then `padding` witnesses that all
/// carry `pad`.
pub open spec fn padded_vars(
    witnesses: Seq<Option<nat>>,
    output: Option<nat>,
    padding: nat,
    pad: Option<nat>,
) -> Seq<VarModel> {
    witnesses.map_values(|w: Option<nat>| witness(w)) + seq![input(output)] + Seq::new(
        padding,
        |i: int| witness(pad),
    )
}

/// The layout of a relation whose every row is the same constraint.
pub open spec fn repeated_layout(
    witnesses: Seq<Option<nat>>,
    output: Option<nat>,
    padding: nat,
    pad: Option<nat>,
    row: RowModel,
    count: nat,
) -> LayoutModel {
    LayoutModel {
        vars: padded_vars(witnesses, output, padding, pad),
        rows: Seq::new(count, |i: int| row),
    }
}

pub(crate) fn emit_repeated(
    witnesses: &Vec<Option<Scalar>>,
    output: Option<Scalar>,
    padding: usize,
    pad: Option<Scalar>,
    a: &Vec<usize>,
    b: &Vec<usize>,
    c: &Vec<usize>,
    count: usize,
) -> (r: ConstraintLayout)
    ensures
        r.model() == repeated_layout(
            witnesses@.map_values(|w: Option<Scalar>| opt_value(w)),
            opt_value(output),
            padding as nat,
            opt_value(pad),
            RowModel { a: a@, b: b@, c: c@ },
            count as nat,
        ),
{
    let mut vars: Vec<Allocation> = Vec::new();
    let mut k: usize = 0;
    while k < witnesses.len()
        invariant
            k <= witnesses.len(),
            vars@.len() == k,
            forall|i: int|
                0 <= i < k ==> (#[trigger] vars@[i]) == (Allocation {
                    kind: VarKind::Witness,
                    value: witnesses@[i],
                }),
        decreases witnesses.len() - k,
    {
        vars.push(Allocation { kind: VarKind::Witness, value: witnesses[k] });
        k = k + 1;
    }
    vars.push(Allocation { kind: VarKind::Input, value: output });
    push_witnesses(&mut vars, padding, pad);
    let rows = repeat_row(a, b, c, count);
    let r = ConstraintLayout { vars, rows };
    let ghost spec_r = repeated_layout(
        witnesses@.map_values(|w: Option<Scalar>| opt_value(w)),
        opt_value(output),
        padding as nat,
        opt_value(pad),
        RowModel { a: a@, b: b@, c: c@ },
        count as nat,
    );
    assert(r.model().vars =~= spec_r.vars);
    assert(r.model().rows =~= spec_r.rows);
    r
}

} // verus!
