//! Shape statistics of an emitted constraint system: entries each matrix
//! fills, the cells it leaves empty, and the share of empty cells.

use vstd::prelude::*;

verus! {

/// One matrix: filled entries, empty cells, and the empty share in whole
/// percent, rounded down.
#[derive(Clone, Copy, Debug, PartialEq, Eq, Structural)]
pub struct MatrixDensity {
    pub non_zero: usize,
    pub zero: usize,
    pub sparsity_percent: usize,
}

#[derive(Clone, Copy, Debug, PartialEq, Eq, Structural)]
pub struct DensityReport {
    pub constraints: usize,
    pub variables: usize,
    /// Cells counted per matrix: constraints times (witnesses + 1).
    pub cells: usize,
    pub a: MatrixDensity,
    pub b: MatrixDensity,
    pub c: MatrixDensity,
}

/// The cells counted per matrix.
pub open spec fn cell_count(num_constraints: nat, num_witness_variables: nat) -> nat {
    num_constraints * (num_witness_variables + 1)
}

/// What a matrix with `non_zero` filled entries out of `cells` reports.
pub open spec fn density_of(non_zero: nat, cells: nat) -> MatrixDensity {
    MatrixDensity {
        non_zero: non_zero as usize,
        zero: (cells - non_zero) as usize,
        sparsity_percent: (((cells - non_zero) * 100) / (cells as int)) as usize,
    }
}

/// The counts admit a report: at least one cell, no more filled entries
/// than cells, and a hundred times the cells within a machine word.
pub open spec fn reportable(
    num_constraints: nat,
    num_witness_variables: nat,
    non_zero: (usize, usize, usize),
) -> bool {
    let cells = cell_count(num_constraints, num_witness_variables);
    &&& num_witness_variables + 1 <= usize::MAX
    &&& cells * 100 <= usize::MAX
    &&& cells > 0
    &&& non_zero.0 <= cells
    &&& non_zero.1 <= cells
    &&& non_zero.2 <= cells
}

fn matrix_density(non_zero: usize, cells: usize) -> (r: MatrixDensity)
    requires
        0 < cells,
        cells * 100 <= usize::MAX,
        non_zero <= cells,
    ensures
        r == density_of(non_zero as nat, cells as nat),
        r.non_zero + r.zero == cells,
{
    let zero = cells - non_zero;
    MatrixDensity { non_zero, zero, sparsity_percent: zero * 100 / cells }
}

/// The report for a system of `num_constraints` rows and
/// `num_variables` variables, of which `num_witness_variables` are
/// witnesses, whose matrices fill `non_zero` entries; `None` when the
/// counts admit none.
pub fn density_report(
    num_constraints: usize,
    num_variables: usize,
    num_witness_variables: usize,
    non_zero: (usize, usize, usize),
) -> (r: Option<DensityReport>)
    ensures
        r.is_some() == reportable(num_constraints as nat, num_witness_variables as nat, non_zero),
        r matches Some(rep) ==> {
            &&& rep.constraints == num_constraints
            &&& rep.variables == num_variables
            &&& rep.cells == cell_count(num_constraints as nat, num_witness_variables as nat)
            &&& rep.a == density_of(non_zero.0 as nat, rep.cells as nat)
            &&& rep.b == density_of(non_zero.1 as nat, rep.cells as nat)
            &&& rep.c == density_of(non_zero.2 as nat, rep.cells as nat)
            &&& rep.a.non_zero + rep.a.zero == rep.cells
            &&& rep.b.non_zero + rep.b.zero == rep.cells
            &&& rep.c.non_zero + rep.c.zero == rep.cells
        },
{
    let columns = match num_witness_variables.checked_add(1) {
        Some(w) => w,
        None => return None,
    };
    let cells = match num_constraints.checked_mul(columns) {
        Some(c) => c,
        None => return None,
    };
    match cells.checked_mul(100) {
        Some(_) => {},
        None => return None,
    }
    if cells == 0 || non_zero.0 > cells || non_zero.1 > cells || non_zero.2 > cells {
        return None;
    }
    Some(
        DensityReport {
            constraints: num_constraints,
            variables: num_variables,
            cells,
            a: matrix_density(non_zero.0, cells),
            b: matrix_density(non_zero.1, cells),
            c: matrix_density(non_zero.2, cells),
        },
    )
}

} // verus!
