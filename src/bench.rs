//! The decisions of a benchmark run: which backend and relation a request
//! names, and the run itself as a state machine that the caller drives by
//! performing each action and reporting what happened.

use vstd::prelude::*;
use vstd::string::*;

verus! {

#[derive(Clone, Copy, Debug, PartialEq, Eq, Structural)]
pub enum CircuitKind {
    Hadamard,
    Addition,
    Fibonacci,
    MultipleAddition,
}

/// How a backend's prove and verify calls are shaped.
#[derive(Clone, Copy, Debug, PartialEq, Eq, Structural)]
pub enum Lifecycle {
    /// Prove returns a proof; verify checks it.
    Baseline,
    /// Prove also returns a polynomial that verify needs.
    Extended,
    /// Prove returns the values of each run, which an accumulation step
    /// folds after `ACCUMULATED_RUNS` verified runs.
    Accumulating,
}

/// Verified runs collected before each accumulation step.
pub const ACCUMULATED_RUNS: usize = 2;

/// Timed iterations of a run.
pub const ITERATIONS: usize = 10;

#[derive(Clone, Copy, Debug, PartialEq, Eq, Structural)]
pub enum Selection {
    Run { version: usize, lifecycle: Lifecycle, circuit: CircuitKind },
    /// Nothing is benchmarked; the operator is told.
    Invalid,
}

pub open spec fn circuit_named(name: Seq<char>) -> Option<CircuitKind> {
    if name == "hadamard"@ {
        Some(CircuitKind::Hadamard)
    } else if name == "addition"@ {
        Some(CircuitKind::Addition)
    } else if name == "fibonacci"@ {
        Some(CircuitKind::Fibonacci)
    } else if name == "multiple_addition"@ {
        Some(CircuitKind::MultipleAddition)
    } else {
        None
    }
}

/// Backend versions: 1 and 2 are baseline, 3 and 4 extended, 5 accumulating.
pub open spec fn lifecycle_of(version: usize) -> Option<Lifecycle> {
    if version == 1 || version == 2 {
        Some(Lifecycle::Baseline)
    } else if version == 3 || version == 4 {
        Some(Lifecycle::Extended)
    } else if version == 5 {
        Some(Lifecycle::Accumulating)
    } else {
        None
    }
}

pub open spec fn selection_of(version: usize, name: Seq<char>) -> Selection {
    match (lifecycle_of(version), circuit_named(name)) {
        (Some(lifecycle), Some(circuit)) => Selection::Run { version, lifecycle, circuit },
        _ => Selection::Invalid,
    }
}

fn str_equals(s: &str, t: &str) -> (r: bool)
    ensures
        r == (s@ == t@),
{
    let n = s.unicode_len();
    if n != t.unicode_len() {
        return false;
    }
    let mut i: usize = 0;
    while i < n
        invariant
            n == s@.len(),
            n == t@.len(),
            i <= n,
            s@.subrange(0, i as int) == t@.subrange(0, i as int),
        decreases n - i,
    {
        if s.get_char(i) != t.get_char(i) {
            return false;
        }
        assert(s@.subrange(0, i + 1) =~= s@.subrange(0, i as int).push(s@[i as int]));
        assert(t@.subrange(0, i + 1) =~= t@.subrange(0, i as int).push(t@[i as int]));
        i = i + 1;
    }
    assert(s@ =~= s@.subrange(0, n as int));
    assert(t@ =~= t@.subrange(0, n as int));
    true
}

/// The relation a circuit name stands for.
pub fn parse_circuit(name: &str) -> (r: Option<CircuitKind>)
    ensures
        r == circuit_named(name@),
{
    proof {
        reveal_strlit("hadamard");
        reveal_strlit("addition");
        reveal_strlit("fibonacci");
        reveal_strlit("multiple_addition");
    }
    if str_equals(name, "hadamard") {
        Some(CircuitKind::Hadamard)
    } else if str_equals(name, "addition") {
        Some(CircuitKind::Addition)
    } else if str_equals(name, "fibonacci") {
        Some(CircuitKind::Fibonacci)
    } else if str_equals(name, "multiple_addition") {
        Some(CircuitKind::MultipleAddition)
    } else {
        None
    }
}

/// What a `(version, circuit)` request runs.
pub fn select(version: usize, circuit: &str) -> (r: Selection)
    ensures
        r == selection_of(version, circuit@),
{
    let lifecycle = if version == 1 || version == 2 {
        Some(Lifecycle::Baseline)
    } else if version == 3 || version == 4 {
        Some(Lifecycle::Extended)
    } else if version == 5 {
        Some(Lifecycle::Accumulating)
    } else {
        None
    };
    match (lifecycle, parse_circuit(circuit)) {
        (Some(lifecycle), Some(circuit)) => Selection::Run { version, lifecycle, circuit },
        _ => Selection::Invalid,
    }
}

#[derive(Clone, Copy, Debug, PartialEq, Eq, Structural)]
pub enum Phase {
    /// Waiting for the universal setup.
    Setup,
    /// Waiting for the keys of the indexed circuit.
    Indexing,
    /// Waiting for the next timed iteration, or a part of it.
    Proving,
    Reported,
    Aborted,
}

/// What happened after the last action.
#[derive(Clone, Copy, Debug, PartialEq, Eq, Structural)]
pub enum Event {
    /// Setup or indexing returned.
    Done,
    /// Setup or indexing failed.
    Failed,
    /// A timed prove-and-verify iteration ended, its proof verified or not.
    Iteration { verified: bool, nanos: u64 },
    /// An untimed sub-run of an accumulating backend ended, its proof
    /// verified or not; its values are kept for accumulation.
    SubRun { verified: bool },
    /// The timed accumulation step over the kept values ended.
    Accumulated { nanos: u64 },
}

/// What the caller does next.
#[derive(Clone, Copy, Debug, PartialEq, Eq, Structural)]
pub enum Action {
    Setup,
    Index,
    /// Time one prove-and-verify round.
    Prove,
    /// Prove and verify once without timing, keeping the run's values.
    ProveSubRun,
    /// Time the accumulation step over the kept values, then drop them.
    Accumulate,
    /// Report the mean duration of an iteration, rounded down.
    Report { mean_nanos: u128 },
    /// Stop the whole run.
    Abort,
}

/// A run of `iterations` timed iterations, `completed` of them done in
/// `total_nanos`. An accumulating run times, in each iteration, only the
/// accumulation step over `ACCUMULATED_RUNS` verified sub-runs, of which
/// `collected` are kept so far.
#[derive(Clone, Copy, Debug, PartialEq, Eq, Structural)]
pub struct BenchRun {
    pub phase: Phase,
    pub accumulating: bool,
    pub iterations: usize,
    pub completed: usize,
    pub collected: usize,
    pub total_nanos: u128,
}

impl BenchRun {
    pub open spec fn wf(&self) -> bool {
        &&& 0 < self.iterations
        &&& self.completed <= self.iterations
        &&& self.total_nanos <= self.completed * (u64::MAX as int)
        &&& self.phase == Phase::Proving ==> self.completed < self.iterations
        &&& (self.phase == Phase::Setup || self.phase == Phase::Indexing) ==> self.completed == 0
        &&& self.collected <= ACCUMULATED_RUNS
        &&& !self.accumulating ==> self.collected == 0
        &&& self.phase != Phase::Proving ==> self.collected == 0
    }

    /// What a proving phase asks for first.
    pub open spec fn proving_action(&self) -> Action {
        if self.accumulating {
            Action::ProveSubRun
        } else {
            Action::Prove
        }
    }

    /// One more timed iteration of `nanos`: the next one is asked for, or,
    /// after the last, the mean is reported.
    pub open spec fn finish_iteration(&self, nanos: u64) -> (BenchRun, Action) {
        let done = BenchRun {
            completed: (self.completed + 1) as usize,
            collected: 0,
            total_nanos: (self.total_nanos + nanos) as u128,
            ..*self
        };
        if done.completed < self.iterations {
            (done, self.proving_action())
        } else {
            (
                BenchRun { phase: Phase::Reported, ..done },
                Action::Report { mean_nanos: done.total_nanos / (self.iterations as u128) },
            )
        }
    }

    /// The transition on `event`: setup, then indexing, then the timed
    /// iterations, then the report. A plain backend times each
    /// prove-and-verify round; an accumulating one runs `ACCUMULATED_RUNS`
    /// untimed sub-runs and then times the accumulation step. A failure or
    /// a proof that does not verify aborts, and so does an event the phase
    /// does not expect.
    pub open spec fn next(&self, event: Event) -> (BenchRun, Action) {
        let aborted = BenchRun { phase: Phase::Aborted, collected: 0, ..*self };
        match (self.phase, event) {
            (Phase::Setup, Event::Done) => (BenchRun { phase: Phase::Indexing, ..*self }, Action::Index),
            (Phase::Indexing, Event::Done) => (
                BenchRun { phase: Phase::Proving, ..*self },
                self.proving_action(),
            ),
            (Phase::Proving, Event::Iteration { verified, nanos }) => {
                if verified && !self.accumulating {
                    self.finish_iteration(nanos)
                } else {
                    (aborted, Action::Abort)
                }
            },
            (Phase::Proving, Event::SubRun { verified }) => {
                if verified && self.accumulating && self.collected < ACCUMULATED_RUNS {
                    let kept = BenchRun { collected: (self.collected + 1) as usize, ..*self };
                    if kept.collected < ACCUMULATED_RUNS {
                        (kept, Action::ProveSubRun)
                    } else {
                        (kept, Action::Accumulate)
                    }
                } else {
                    (aborted, Action::Abort)
                }
            },
            (Phase::Proving, Event::Accumulated { nanos }) => {
                if self.accumulating && self.collected == ACCUMULATED_RUNS {
                    self.finish_iteration(nanos)
                } else {
                    (aborted, Action::Abort)
                }
            },
            _ => (aborted, Action::Abort),
        }
    }

    /// A run that starts with a universal setup, or, for a backend without
    /// one, with indexing.
    pub fn new(iterations: usize, universal_setup: bool, accumulating: bool) -> (r: (BenchRun, Action))
        requires
            0 < iterations,
        ensures
            r.0.wf(),
            r.0.iterations == iterations,
            r.0.accumulating == accumulating,
            r.0.completed == 0,
            r.0.collected == 0,
            r.0.total_nanos == 0,
            r.0.phase == (if universal_setup { Phase::Setup } else { Phase::Indexing }),
            r.1 == (if universal_setup { Action::Setup } else { Action::Index }),
    {
        let phase = if universal_setup {
            Phase::Setup
        } else {
            Phase::Indexing
        };
        let action = if universal_setup {
            Action::Setup
        } else {
            Action::Index
        };
        (BenchRun { phase, accumulating, iterations, completed: 0, collected: 0, total_nanos: 0 }, action)
    }

    fn proving_action_of(&self) -> (r: Action)
        ensures
            r == self.proving_action(),
    {
        if self.accumulating {
            Action::ProveSubRun
        } else {
            Action::Prove
        }
    }

    fn finish(&self, nanos: u64) -> (r: (BenchRun, Action))
        requires
            self.wf(),
            self.phase == Phase::Proving,
        ensures
            r == self.finish_iteration(nanos),
            r.0.wf(),
    {
        proof {
            assert(self.total_nanos + nanos <= (self.completed + 1) * (u64::MAX as int))
                by (nonlinear_arith)
                requires
                    self.total_nanos <= self.completed * (u64::MAX as int),
                    nanos <= u64::MAX,
            ;
            assert((self.completed + 1) * (u64::MAX as int) <= (usize::MAX as int) * (u64::MAX as int))
                by (nonlinear_arith)
                requires
                    self.completed + 1 <= usize::MAX,
            ;
        }
        let done = BenchRun {
            completed: self.completed + 1,
            collected: 0,
            total_nanos: self.total_nanos + nanos as u128,
            ..*self
        };
        if done.completed < self.iterations {
            (done, self.proving_action_of())
        } else {
            (
                BenchRun { phase: Phase::Reported, ..done },
                Action::Report { mean_nanos: done.total_nanos / (self.iterations as u128) },
            )
        }
    }

    pub fn step(&self, event: Event) -> (r: (BenchRun, Action))
        requires
            self.wf(),
        ensures
            r == self.next(event),
            r.0.wf(),
    {
        let aborted = BenchRun { phase: Phase::Aborted, collected: 0, ..*self };
        match (self.phase, event) {
            (Phase::Setup, Event::Done) => (BenchRun { phase: Phase::Indexing, ..*self }, Action::Index),
            (Phase::Indexing, Event::Done) => (
                BenchRun { phase: Phase::Proving, ..*self },
                self.proving_action_of(),
            ),
            (Phase::Proving, Event::Iteration { verified, nanos }) => {
                if verified && !self.accumulating {
                    self.finish(nanos)
                } else {
                    (aborted, Action::Abort)
                }
            },
            (Phase::Proving, Event::SubRun { verified }) => {
                if verified && self.accumulating && self.collected < ACCUMULATED_RUNS {
                    let kept = BenchRun { collected: self.collected + 1, ..*self };
                    if kept.collected < ACCUMULATED_RUNS {
                        (kept, Action::ProveSubRun)
                    } else {
                        (kept, Action::Accumulate)
                    }
                } else {
                    (aborted, Action::Abort)
                }
            },
            (Phase::Proving, Event::Accumulated { nanos }) => {
                if self.accumulating && self.collected == ACCUMULATED_RUNS {
                    self.finish(nanos)
                } else {
                    (aborted, Action::Abort)
                }
            },
            _ => (aborted, Action::Abort),
        }
    }
}

} // verus!
