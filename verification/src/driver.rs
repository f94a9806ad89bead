//! The run controller: which step comes next, when the run is over, and
//! what a fault does to it.
//!
//! The controller never performs a step itself. It says what is to be done
//! ([`Action`]), the caller does it and reports back ([`Event`]).

use vstd::prelude::*;

verus! {

/// What can go wrong inside a step.
#[derive(Clone, Copy, Debug, PartialEq, Eq, Structural)]
pub enum Fault {
    /// A computed position, velocity or acceleration was not finite.
    Numerical,
    /// A per-body task did not run to its end.
    Worker,
}

/// How the task of one body ended.
#[derive(Clone, Copy, Debug, PartialEq, Eq, Structural)]
pub enum TaskOutcome {
    /// The task produced its body.
    Finished,
    /// The task produced a value that is not finite.
    NonFinite,
    /// The task did not run to its end.
    Crashed,
}

/// What the caller reports after it has carried out an [`Action::Advance`].
#[derive(Clone, Copy, Debug, PartialEq, Eq, Structural)]
pub enum Event {
    /// The step produced its complete snapshot.
    Completed,
    /// The step failed as a whole.
    Faulted(Fault),
}

/// Where a run stands.
#[derive(Clone, Copy, Debug, PartialEq, Eq, Structural)]
pub enum Phase {
    /// `step` steps are done and at least one more is due.
    Running { step: u32 },
    /// All steps are done.
    Terminal,
    /// The step with index `step` failed; the run is over.
    Failed { step: u32, fault: Fault },
}

/// What the caller has to do next.
#[derive(Clone, Copy, Debug, PartialEq, Eq, Structural)]
pub enum Action {
    /// Report `index` as progress, then compute the step with that index.
    Advance { index: u32 },
    /// Nothing is left to do.
    Finish,
    /// Surface the fault of the step with index `index`.
    Abort { index: u32, fault: Fault },
}

/// The fault that an outcome stands for, if it stands for one.
pub open spec fn fault_of(outcome: TaskOutcome) -> Option<Fault> {
    match outcome {
        TaskOutcome::Finished => None,
        TaskOutcome::NonFinite => Some(Fault::Numerical),
        TaskOutcome::Crashed => Some(Fault::Worker),
    }
}

/// The first `upto` tasks all finished.
pub open spec fn all_finished(outcomes: Seq<TaskOutcome>, upto: int) -> bool {
    forall|j: int| 0 <= j < upto ==> outcomes[j] == TaskOutcome::Finished
}

/// The phase a run of `timesteps` steps starts in.
pub open spec fn initial_phase(timesteps: u32) -> Phase {
    if timesteps == 0 {
        Phase::Terminal
    } else {
        Phase::Running { step: 0 }
    }
}

/// The phase that follows `phase` on `event` in a run of `timesteps` steps.
///
/// Only a running phase moves: on completion to the next step, or to the
/// terminal phase after the last one; on a fault to the failed phase, which
/// keeps the index of the step that failed. The terminal and the failed
/// phase stay as they are, whatever is reported.
pub open spec fn next_phase(timesteps: u32, phase: Phase, event: Event) -> Phase {
    match phase {
        Phase::Running { step } => match event {
            Event::Completed => if step + 1 >= timesteps {
                Phase::Terminal
            } else {
                Phase::Running { step: (step + 1) as u32 }
            },
            Event::Faulted(fault) => Phase::Failed { step, fault },
        },
        Phase::Terminal => phase,
        Phase::Failed { .. } => phase,
    }
}

/// The action that a phase calls for.
pub open spec fn action_for(phase: Phase) -> Action {
    match phase {
        Phase::Running { step } => Action::Advance { index: step },
        Phase::Terminal => Action::Finish,
        Phase::Failed { step, fault } => Action::Abort { index: step, fault },
    }
}

/// The phase after `done` steps of a fresh run of `timesteps` steps have been
/// reported complete, one after the other.
pub open spec fn phase_after(timesteps: u32, done: nat) -> Phase
    decreases done,
{
    if done == 0 {
        initial_phase(timesteps)
    } else {
        next_phase(timesteps, phase_after(timesteps, (done - 1) as nat), Event::Completed)
    }
}

/// Judges a step by the outcomes of its tasks, given in body order.
///
/// The step is complete exactly when every task finished; with no task at
/// all it is complete. Otherwise the step fails as a whole, with the fault
/// of the first task, in body order, that did not finish.
pub fn step_verdict(outcomes: &Vec<TaskOutcome>) -> (event: Event)
    ensures
        match event {
            Event::Completed => all_finished(outcomes@, outcomes@.len() as int),
            Event::Faulted(fault) => exists|i: int|
                0 <= i < outcomes@.len() && all_finished(outcomes@, i) && #[trigger] fault_of(
                    outcomes@[i],
                ) == Some(fault),
        },
{
    let mut i: usize = 0;
    while i < outcomes.len()
        invariant
            i <= outcomes@.len(),
            all_finished(outcomes@, i as int),
        decreases outcomes@.len() - i,
    {
        match outcomes[i] {
            TaskOutcome::Finished => {},
            TaskOutcome::NonFinite => {
                assert(fault_of(outcomes@[i as int]) == Some(Fault::Numerical));
                return Event::Faulted(Fault::Numerical);
            },
            TaskOutcome::Crashed => {
                assert(fault_of(outcomes@[i as int]) == Some(Fault::Worker));
                return Event::Faulted(Fault::Worker);
            },
        }
        i = i + 1;
    }
    Event::Completed
}

/// The controller of one run.
pub struct Driver {
    timesteps: u32,
    phase: Phase,
}

impl Driver {
    /// The number of steps the run was set up with.
    pub closed spec fn timesteps(&self) -> u32 {
        self.timesteps
    }

    /// Where the run stands.
    pub closed spec fn phase(&self) -> Phase {
        self.phase
    }

    /// A running or failed phase names a step of the run; a run of no steps
    /// is never running.
    pub open spec fn wf(&self) -> bool {
        match self.phase() {
            Phase::Running { step } => step < self.timesteps(),
            Phase::Terminal => true,
            Phase::Failed { step, .. } => step < self.timesteps(),
        }
    }

    /// A controller for a run of `timesteps` steps, none of them done.
    pub fn new(timesteps: u32) -> (driver: Driver)
        ensures
            driver.wf(),
            driver.timesteps() == timesteps,
            driver.phase() == initial_phase(timesteps),
    {
        let phase = if timesteps == 0 {
            Phase::Terminal
        } else {
            Phase::Running { step: 0 }
        };
        Driver { timesteps, phase }
    }

    /// The number of steps the run was set up with.
    pub fn timestep_count(&self) -> (count: u32)
        ensures
            count == self.timesteps(),
    {
        self.timesteps
    }

    /// Where the run stands.
    pub fn current_phase(&self) -> (phase: Phase)
        ensures
            phase == self.phase(),
    {
        self.phase
    }

    /// What the caller has to do next. Asking changes nothing.
    pub fn next_action(&self) -> (action: Action)
        ensures
            action == action_for(self.phase()),
    {
        match self.phase {
            Phase::Running { step } => Action::Advance { index: step },
            Phase::Terminal => Action::Finish,
            Phase::Failed { step, fault } => Action::Abort { index: step, fault },
        }
    }

    /// Takes in what became of the step that was due.
    pub fn record(&mut self, event: Event)
        requires
            old(self).wf(),
        ensures
            final(self).wf(),
            final(self).timesteps() == old(self).timesteps(),
            final(self).phase() == next_phase(old(self).timesteps(), old(self).phase(), event),
    {
        match self.phase {
            Phase::Running { step } => {
                match event {
                    Event::Completed => {
                        if step + 1 >= self.timesteps {
                            self.phase = Phase::Terminal;
                        } else {
                            self.phase = Phase::Running { step: step + 1 };
                        }
                    },
                    Event::Faulted(fault) => {
                        self.phase = Phase::Failed { step, fault };
                    },
                }
            },
            Phase::Terminal => {},
            Phase::Failed { .. } => {},
        }
    }
}

/// A run that meets no fault takes exactly `timesteps` steps: after `done`
/// completed steps, with `done` below `timesteps`, it is running and the step
/// due has index `done`; after `timesteps` completed steps it is terminal.
pub proof fn lemma_run_takes_every_step(timesteps: u32, done: nat)
    requires
        done <= timesteps,
    ensures
        done < timesteps ==> phase_after(timesteps, done) == (Phase::Running { step: done as u32 }),
        done == timesteps ==> phase_after(timesteps, done) == Phase::Terminal,
    decreases done,
{
    if done > 0 {
        lemma_run_takes_every_step(timesteps, (done - 1) as nat);
    }
}

/// A run that is over stays over: in the terminal and in the failed phase
/// no event changes anything, so a failed step is never tried again.
pub proof fn lemma_end_is_final(timesteps: u32, phase: Phase, event: Event)
    requires
        !(phase is Running),
    ensures
        next_phase(timesteps, phase, event) == phase,
        !(action_for(phase) is Advance),
{
}

} // verus!
