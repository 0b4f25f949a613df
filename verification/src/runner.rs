//! The scenario executor's bookkeeping: which step runs next, what a step
//! outcome does to the run, and what the run reports.
//!
//! The host performs each step and hands its outcome back; the run stops at
//! the first failing step, whose error becomes the run's error. In benchmark
//! mode every attempted step is reported for timing.

use vstd::prelude::*;

use crate::scenario::{ScenarioSpec, ScenarioStep};
use crate::text::owned;

verus! {

/// Driver mode: assert on outcomes vs collect timings only.
#[derive(Debug, Clone, Copy, PartialEq, Eq, Structural)]
pub enum RunMode {
    /// Run assertion steps and fail on mismatches.
    Correctness,
    /// Skip assertions; record per-step timings for bench reports.
    Benchmark,
}

/// A step that was timed: its index in the scenario and its label.
#[derive(Debug)]
pub struct TimedStep {
    /// Index of the step within the scenario.
    pub step_index: usize,
    /// Short operation label.
    pub op: String,
}

/// Outcome of running one scenario.
#[derive(Debug)]
pub struct ScenarioOutcome {
    /// Scenario identifier from the spec.
    pub scenario_id: String,
    /// Matrix slug of the bootstrapped session.
    pub matrix_slug: String,
    /// Steps timed in benchmark mode, in order.
    pub timed_steps: Vec<TimedStep>,
    /// First step error message, if any.
    pub error: Option<String>,
}

/// The abstract state of a run.
pub ghost struct RunState {
    pub scenario_id: Seq<char>,
    pub matrix_slug: Seq<char>,
    pub mode: RunMode,
    /// Step labels of the scenario.
    pub labels: Seq<Seq<char>>,
    /// Number of steps that succeeded.
    pub passed: nat,
    /// Error of the step that failed, when one did.
    pub error: Option<Seq<char>>,
    /// Timed steps, as (index, label).
    pub timed: Seq<(nat, Seq<char>)>,
}

impl RunState {
    /// Number of steps attempted: the passed ones and the failed one.
    pub open spec fn attempted(self) -> nat {
        if self.error is Some {
            self.passed + 1
        } else {
            self.passed
        }
    }

    /// The run is over: a step failed or every step passed.
    pub open spec fn finished(self) -> bool {
        self.error is Some || self.passed == self.labels.len()
    }

    /// Consistency of a run: in benchmark mode exactly the attempted steps
    /// are timed, in order; in correctness mode none is.
    pub open spec fn wf(self) -> bool {
        &&& self.attempted() <= self.labels.len()
        &&& self.timed.len() == (if self.mode == RunMode::Benchmark {
            self.attempted()
        } else {
            0
        })
        &&& forall|i: int|
            #![trigger self.timed[i]]
            0 <= i < self.timed.len() ==> self.timed[i] == (i as nat, self.labels[i])
    }
}

/// The labels of a scenario's steps.
pub open spec fn step_labels(spec: ScenarioSpec) -> Seq<Seq<char>> {
    spec.steps@.map_values(|s: ScenarioStep| s.spec_label())
}

/// A scenario being run.
pub struct ScenarioRun {
    scenario_id: String,
    matrix_slug: String,
    mode: RunMode,
    total: usize,
    passed: usize,
    ghost_labels: Ghost<Seq<Seq<char>>>,
    timed_steps: Vec<TimedStep>,
    error: Option<String>,
}

impl View for ScenarioRun {
    type V = RunState;

    closed spec fn view(&self) -> RunState {
        RunState {
            scenario_id: self.scenario_id@,
            matrix_slug: self.matrix_slug@,
            mode: self.mode,
            labels: self.ghost_labels@,
            passed: self.passed as nat,
            error: crate::matrix::opt_view(self.error),
            timed: self.timed_steps@.map_values(|t: TimedStep| (t.step_index as nat, t.op@)),
        }
    }
}

impl ScenarioRun {
    closed spec fn inv(&self) -> bool {
        &&& self.total == self.ghost_labels@.len()
        &&& self@.wf()
    }

    /// The run's consistency invariant.
    pub closed spec fn valid(&self) -> bool {
        self.inv()
    }

    /// A valid run is consistent in the sense of [`RunState::wf`]: at most
    /// every step attempted, and exactly the attempted steps timed in
    /// benchmark mode, none in correctness mode.
    pub proof fn lemma_valid_wf(&self)
        requires
            self.valid(),
        ensures
            self@.wf(),
    {
    }

    /// Start running `spec` on a session: refused unless the session's spawn
    /// succeeded.
    pub fn start(ready: bool, spec: &ScenarioSpec, matrix_slug: String, mode: RunMode) -> (r:
        Result<ScenarioRun, String>)
        ensures
            match r {
                Ok(run) => {
                    &&& ready
                    &&& run.valid()
                    &&& run@.scenario_id == spec.id@
                    &&& run@.matrix_slug == matrix_slug@
                    &&& run@.mode == mode
                    &&& run@.labels == step_labels(*spec)
                    &&& run@.passed == 0
                    &&& run@.error is None
                    &&& run@.timed == Seq::<(nat, Seq<char>)>::empty()
                },
                Err(m) => !ready && m@ == "BootstrapSession::spawn must succeed before running scenarios"@,
            },
    {
        if !ready {
            return Err(owned("BootstrapSession::spawn must succeed before running scenarios"));
        }
        let run = ScenarioRun {
            scenario_id: spec.id.clone(),
            matrix_slug,
            mode,
            total: spec.steps.len(),
            passed: 0,
            ghost_labels: Ghost(step_labels(*spec)),
            timed_steps: Vec::new(),
            error: None,
        };
        assert(run@.timed =~= Seq::<(nat, Seq<char>)>::empty());
        Ok(run)
    }

    /// Index of the step to run next, or `None` when the run is over.
    pub fn next_step(&self) -> (r: Option<usize>)
        requires
            self.valid(),
        ensures
            match r {
                Some(i) => !self@.finished() && i == self@.passed,
                None => self@.finished(),
            },
    {
        if self.error.is_some() || self.passed >= self.total {
            None
        } else {
            Some(self.passed)
        }
    }

    /// Record the outcome of the step `next_step` returned: in benchmark
    /// mode the step is timed; an error ends the run with that error.
    pub fn record(&mut self, spec: &ScenarioSpec, outcome: Result<(), String>)
        requires
            old(self).valid(),
            !old(self)@.finished(),
            old(self)@.labels == step_labels(*spec),
        ensures
            final(self).valid(),
            final(self)@.scenario_id == old(self)@.scenario_id,
            final(self)@.matrix_slug == old(self)@.matrix_slug,
            final(self)@.mode == old(self)@.mode,
            final(self)@.labels == old(self)@.labels,
            final(self)@.timed == (if old(self)@.mode == RunMode::Benchmark {
                old(self)@.timed.push((old(self)@.passed, old(self)@.labels[old(self)@.passed as int]))
            } else {
                old(self)@.timed
            }),
            match outcome {
                Ok(_) => final(self)@.passed == old(self)@.passed + 1 && final(self)@.error is None,
                Err(e) => final(self)@.passed == old(self)@.passed && final(self)@.error == Some(e@),
            },
    {
        let i = self.passed;
        let ghost before = self@;
        if matches!(self.mode, RunMode::Benchmark) {
            let op = spec.steps[i].label();
            proof {
                assert(step_labels(*spec)[i as int] == spec.steps@[i as int].spec_label());
            }
            let ghost tbefore = self.timed_steps@;
            self.timed_steps.push(TimedStep { step_index: i, op });
            assert(self.timed_steps@.map_values(|t: TimedStep| (t.step_index as nat, t.op@))
                =~= tbefore.map_values(|t: TimedStep| (t.step_index as nat, t.op@)).push(
                (i as nat, before.labels[i as int]),
            ));
        }
        match outcome {
            Ok(_) => {
                self.passed = i + 1;
            },
            Err(e) => {
                self.error = Some(e);
            },
        }
    }

    /// The report of the run.
    pub fn finish(self) -> (o: ScenarioOutcome)
        ensures
            o.scenario_id@ == self@.scenario_id,
            o.matrix_slug@ == self@.matrix_slug,
            o.timed_steps@.map_values(|t: TimedStep| (t.step_index as nat, t.op@)) == self@.timed,
            crate::matrix::opt_view(o.error) == self@.error,
    {
        ScenarioOutcome {
            scenario_id: self.scenario_id,
            matrix_slug: self.matrix_slug,
            timed_steps: self.timed_steps,
            error: self.error,
        }
    }
}

/// A run that is over reports every step passed, or exactly one failure:
/// the last step attempted, after which nothing ran.
pub proof fn lemma_finished_run(s: RunState)
    requires
        s.wf(),
        s.finished(),
    ensures
        s.error is None ==> s.passed == s.labels.len(),
        s.error is Some ==> s.passed < s.labels.len(),
        s.mode == RunMode::Correctness ==> s.timed.len() == 0,
        s.mode == RunMode::Benchmark ==> s.timed.len() == s.attempted(),
{
}

} // verus!
