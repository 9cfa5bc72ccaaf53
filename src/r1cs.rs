//! A plain description of a rank-1 constraint system: the variables in the
//! order they are allocated, and rows `(sum a) * (sum b) = (sum c)` whose
//! terms are allocation indices, each with coefficient one.

use crate::field::{modulus, Scalar};
use vstd::prelude::*;

verus! {

#[derive(Clone, Copy, Debug, PartialEq, Eq, Structural)]
pub enum VarKind {
    /// Known to the prover only.
    Witness,
    /// Part of the public statement.
    Input,
}

/// One allocated variable and, when the instance carries secrets, its value.
#[derive(Clone, Copy, Debug, PartialEq, Eq)]
pub struct Allocation {
    pub kind: VarKind,
    pub value: Option<Scalar>,
}

pub struct VarModel {
    pub kind: VarKind,
    pub value: Option<nat>,
}

pub open spec fn opt_value(v: Option<Scalar>) -> Option<nat> {
    match v {
        Some(s) => Some(s.value()),
        None => None,
    }
}

pub open spec fn witness(v: Option<nat>) -> VarModel {
    VarModel { kind: VarKind::Witness, value: v }
}

pub open spec fn input(v: Option<nat>) -> VarModel {
    VarModel { kind: VarKind::Input, value: v }
}

impl Allocation {
    pub open spec fn model(&self) -> VarModel {
        VarModel { kind: self.kind, value: opt_value(self.value) }
    }
}

/// The three sides of a constraint row.
#[derive(Clone, Copy, Debug, PartialEq, Eq, Structural)]
pub enum Matrix {
    A,
    B,
    C,
}

/// A constraint row: the indices of the variables summed on each side.
#[derive(Clone, Debug, PartialEq, Eq)]
pub struct Row {
    pub a: Vec<usize>,
    pub b: Vec<usize>,
    pub c: Vec<usize>,
}

pub struct RowModel {
    pub a: Seq<usize>,
    pub b: Seq<usize>,
    pub c: Seq<usize>,
}

impl RowModel {
    pub open spec fn terms(&self, m: Matrix) -> Seq<usize> {
        match m {
            Matrix::A => self.a,
            Matrix::B => self.b,
            Matrix::C => self.c,
        }
    }
}

impl Row {
    pub open spec fn model(&self) -> RowModel {
        RowModel { a: self.a@, b: self.b@, c: self.c@ }
    }
}

/// Every variable a constraint system receives, and every row.
#[derive(Clone, Debug)]
pub struct ConstraintLayout {
    pub vars: Vec<Allocation>,
    pub rows: Vec<Row>,
}

pub struct LayoutModel {
    pub vars: Seq<VarModel>,
    pub rows: Seq<RowModel>,
}

/// Entries of matrix `m` that the rows fill: one per term, since no
/// variable appears twice on one side of a row.
pub open spec fn non_zero(rows: Seq<RowModel>, m: Matrix) -> nat
    decreases rows.len(),
{
    if rows.len() == 0 {
        0
    } else {
        non_zero(rows.drop_last(), m) + rows.last().terms(m).len()
    }
}

impl LayoutModel {
    /// The layout with every value left out: what a backend's indexer sees.
    pub open spec fn shape(&self) -> (Seq<VarKind>, Seq<RowModel>) {
        (self.vars.map_values(|v: VarModel| v.kind), self.rows)
    }

    /// Each term names an allocated variable, at most once per side.
    pub open spec fn wf(&self) -> bool {
        forall|i: int, m: Matrix|
            0 <= i < self.rows.len() ==> {
                &&& (#[trigger] self.rows[i].terms(m)).no_duplicates()
                &&& forall|j: int|
                    0 <= j < self.rows[i].terms(m).len() ==> self.rows[i].terms(m)[j]
                        < self.vars.len()
            }
    }

    /// Every variable carries a value.
    pub open spec fn assigned(&self) -> bool {
        forall|i: int| 0 <= i < self.vars.len() ==> (#[trigger] self.vars[i].value).is_some()
    }
}

/// The value of a variable, zero when it carries none.
pub open spec fn assigned_value(v: VarModel) -> int {
    match v.value {
        Some(x) => x as int,
        None => 0,
    }
}

/// The sum of the named variables' values.
pub open spec fn combination_value(terms: Seq<usize>, vars: Seq<VarModel>) -> int
    decreases terms.len(),
{
    if terms.len() == 0 {
        0
    } else {
        combination_value(terms.drop_last(), vars) + assigned_value(vars[terms.last() as int])
    }
}

pub proof fn lemma_combination_of_one(x: usize, vars: Seq<VarModel>)
    ensures
        combination_value(seq![x], vars) == assigned_value(vars[x as int]),
{
    assert(seq![x].drop_last() =~= Seq::<usize>::empty());
    assert(combination_value(Seq::<usize>::empty(), vars) == 0);
}

pub proof fn lemma_combination_of_three(x: usize, y: usize, z: usize, vars: Seq<VarModel>)
    ensures
        combination_value(seq![x, y, z], vars) == assigned_value(vars[x as int]) + assigned_value(
            vars[y as int],
        ) + assigned_value(vars[z as int]),
{
    assert(seq![x, y, z].drop_last() =~= seq![x, y]);
    lemma_combination_of_two(x, y, vars);
}

pub proof fn lemma_combination_of_two(x: usize, y: usize, vars: Seq<VarModel>)
    ensures
        combination_value(seq![x, y], vars) == assigned_value(vars[x as int]) + assigned_value(
            vars[y as int],
        ),
{
    assert(seq![x, y].drop_last() =~= seq![x]);
    lemma_combination_of_one(x, vars);
}

impl LayoutModel {
    /// `(sum a) * (sum b) = (sum c)` in the field.
    pub open spec fn row_holds(&self, row: RowModel) -> bool {
        (combination_value(row.a, self.vars) * combination_value(row.b, self.vars)) % (
        modulus() as int) == combination_value(row.c, self.vars) % (modulus() as int)
    }

    /// Every row holds under the variables' values.
    pub open spec fn satisfied(&self) -> bool {
        forall|i: int| 0 <= i < self.rows.len() ==> #[trigger] self.row_holds(self.rows[i])
    }
}

impl ConstraintLayout {
    pub open spec fn model(&self) -> LayoutModel {
        LayoutModel {
            vars: self.vars@.map_values(|v: Allocation| v.model()),
            rows: self.rows@.map_values(|r: Row| r.model()),
        }
    }
}

/// Appends `count` witnesses that carry `value`.
pub(crate) fn push_witnesses(vars: &mut Vec<Allocation>, count: usize, value: Option<Scalar>)
    ensures
        final(vars)@ == old(vars)@ + Seq::new(
            count as nat,
            |i: int| Allocation { kind: VarKind::Witness, value },
        ),
{
    let ghost start = vars@;
    let mut k: usize = 0;
    while k < count
        invariant
            k <= count,
            vars@ == start + Seq::new(
                k as nat,
                |i: int| Allocation { kind: VarKind::Witness, value },
            ),
        decreases count - k,
    {
        vars.push(Allocation { kind: VarKind::Witness, value });
        k = k + 1;
        assert(vars@ =~= start + Seq::new(
            k as nat,
            |i: int| Allocation { kind: VarKind::Witness, value },
        ));
    }
}

fn copy_terms(t: &Vec<usize>) -> (r: Vec<usize>)
    ensures
        r@ == t@,
{
    let mut r: Vec<usize> = Vec::new();
    let mut k: usize = 0;
    while k < t.len()
        invariant
            k <= t.len(),
            r@ == t@.subrange(0, k as int),
        decreases t.len() - k,
    {
        r.push(t[k]);
        k = k + 1;
        assert(r@ =~= t@.subrange(0, k as int));
    }
    assert(r@ =~= t@);
    r
}

/// `count` copies of the row `a * b = c`.
pub(crate) fn repeat_row(a: &Vec<usize>, b: &Vec<usize>, c: &Vec<usize>, count: usize) -> (r: Vec<Row>)
    ensures
        r@.len() == count,
        forall|i: int| 0 <= i < count ==> (#[trigger] r@[i]).model() == (RowModel { a: a@, b: b@, c: c@ }),
{
    let mut rows: Vec<Row> = Vec::new();
    let mut k: usize = 0;
    while k < count
        invariant
            k <= count,
            rows@.len() == k,
            forall|i: int| 0 <= i < k ==> (#[trigger] rows@[i]).model() == (RowModel { a: a@, b: b@, c: c@ }),
        decreases count - k,
    {
        rows.push(Row { a: copy_terms(a), b: copy_terms(b), c: copy_terms(c) });
        k = k + 1;
    }
    rows
}

} // verus!
