use circuit_bench::bench::{
    parse_circuit, select, Action, BenchRun, CircuitKind, Event, Lifecycle, Phase, Selection,
    ACCUMULATED_RUNS, ITERATIONS,
};
use circuit_bench::diagnostics::{density_report, MatrixDensity};

#[test]
fn recognised_pairs_select_a_backend() {
    assert_eq!(
        select(1, "hadamard"),
        Selection::Run { version: 1, lifecycle: Lifecycle::Baseline, circuit: CircuitKind::Hadamard }
    );
    assert_eq!(
        select(4, "multiple_addition"),
        Selection::Run {
            version: 4,
            lifecycle: Lifecycle::Extended,
            circuit: CircuitKind::MultipleAddition
        }
    );
    assert_eq!(
        select(5, "addition"),
        Selection::Run { version: 5, lifecycle: Lifecycle::Accumulating, circuit: CircuitKind::Addition }
    );
    assert_eq!(parse_circuit("fibonacci"), Some(CircuitKind::Fibonacci));
}

#[test]
fn unrecognised_pairs_are_invalid() {
    assert_eq!(select(0, "hadamard"), Selection::Invalid);
    assert_eq!(select(6, "addition"), Selection::Invalid);
    assert_eq!(select(1, "square"), Selection::Invalid);
    assert_eq!(select(2, "Hadamard"), Selection::Invalid);
    assert_eq!(select(3, ""), Selection::Invalid);
    assert_eq!(parse_circuit("hadamardx"), None);
}

#[test]
fn density_of_smallest_hadamard() {
    // three rows, two witnesses: 3 * (2 + 1) = 9 cells
    let rep = density_report(3, 4, 2, (3, 3, 3)).unwrap();
    assert_eq!(rep.cells, 9);
    assert_eq!(rep.a, MatrixDensity { non_zero: 3, zero: 6, sparsity_percent: 66 });
    assert_eq!(rep.c, rep.a);
    let rep = density_report(6, 7, 5, (18, 18, 18)).unwrap();
    assert_eq!(rep.cells, 36);
    assert_eq!(rep.b, MatrixDensity { non_zero: 18, zero: 18, sparsity_percent: 50 });
}

#[test]
fn density_rejects_impossible_counts() {
    assert_eq!(density_report(0, 1, 3, (0, 0, 0)), None);
    assert_eq!(density_report(3, 4, 2, (10, 3, 3)), None);
    assert_eq!(density_report(usize::MAX, 1, 1, (0, 0, 0)), None);
    assert_eq!(density_report(1, 1, usize::MAX, (0, 0, 0)), None);
}

#[test]
fn full_run_reports_mean() {
    let (mut run, action) = BenchRun::new(ITERATIONS, true, false);
    assert_eq!(action, Action::Setup);
    let (r, a) = run.step(Event::Done);
    assert_eq!(a, Action::Index);
    let (r, a) = r.step(Event::Done);
    assert_eq!(a, Action::Prove);
    run = r;
    for i in 0..ITERATIONS {
        let (r, a) = run.step(Event::Iteration { verified: true, nanos: 100 + i as u64 });
        run = r;
        if i + 1 < ITERATIONS {
            assert_eq!(a, Action::Prove);
        } else {
            assert_eq!(a, Action::Report { mean_nanos: 104 });
        }
    }
    assert_eq!(run.phase, Phase::Reported);
}

#[test]
fn failed_verification_aborts() {
    let (run, action) = BenchRun::new(3, false, false);
    assert_eq!(action, Action::Index);
    let (run, _) = run.step(Event::Done);
    let (run, _) = run.step(Event::Iteration { verified: true, nanos: 5 });
    let (run, a) = run.step(Event::Iteration { verified: false, nanos: 5 });
    assert_eq!(a, Action::Abort);
    assert_eq!(run.phase, Phase::Aborted);
}

#[test]
fn setup_failure_and_stray_events_abort() {
    let (run, _) = BenchRun::new(3, true, false);
    assert_eq!(run.step(Event::Failed).1, Action::Abort);
    assert_eq!(run.step(Event::Iteration { verified: true, nanos: 1 }).1, Action::Abort);
}

#[test]
fn accumulating_run_times_only_accumulation() {
    assert_eq!(ACCUMULATED_RUNS, 2);
    let (run, _) = BenchRun::new(2, true, true);
    let (run, a) = run.step(Event::Done);
    assert_eq!(a, Action::Index);
    let (mut run, mut a) = run.step(Event::Done);
    assert_eq!(a, Action::ProveSubRun);
    for nanos in [40u64, 60] {
        let (r, x) = run.step(Event::SubRun { verified: true });
        assert_eq!(x, Action::ProveSubRun);
        assert_eq!(r.collected, 1);
        let (r, x) = r.step(Event::SubRun { verified: true });
        assert_eq!(x, Action::Accumulate);
        assert_eq!(r.collected, 2);
        let (r, x) = r.step(Event::Accumulated { nanos });
        assert_eq!(r.collected, 0);
        run = r;
        a = x;
    }
    assert_eq!(a, Action::Report { mean_nanos: 50 });
    assert_eq!(run.total_nanos, 100);
    assert_eq!(run.phase, Phase::Reported);
}

#[test]
fn accumulating_run_rejects_out_of_order_events() {
    let (run, _) = BenchRun::new(2, false, true);
    let (run, a) = run.step(Event::Done);
    assert_eq!(a, Action::ProveSubRun);
    assert_eq!(run.step(Event::Accumulated { nanos: 1 }).1, Action::Abort);
    assert_eq!(run.step(Event::Iteration { verified: true, nanos: 1 }).1, Action::Abort);
    assert_eq!(run.step(Event::SubRun { verified: false }).1, Action::Abort);
    let (one, _) = run.step(Event::SubRun { verified: true });
    assert_eq!(one.step(Event::Accumulated { nanos: 1 }).1, Action::Abort);
    let (plain, _) = BenchRun::new(2, false, false);
    let (plain, _) = plain.step(Event::Done);
    assert_eq!(plain.step(Event::SubRun { verified: true }).1, Action::Abort);
}
