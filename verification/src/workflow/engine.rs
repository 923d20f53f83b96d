//! The engine that runs the stages of a pipeline in order.
//!
//! The engine decides; it performs nothing itself. It says which stage to
//! run next or how long to sleep, and is told in turn how the stage ended or
//! that the sleep is over.

use crate::models::{ErrorKind, PipelineError};
use crate::workflow::config::StepConfig;
use crate::workflow::context::WorkflowContext;
use crate::workflow::steps::Step;
use vstd::prelude::*;

verus! {

/// Where a run stands.
#[derive(Debug, Clone, Copy, PartialEq, Eq, Structural)]
pub enum Phase {
    /// The stage at the position is to be run, or is running.
    Running,
    /// The stage at the position has failed and is tried again after a pause.
    Sleeping,
    /// Every enabled stage has succeeded.
    Finished,
    /// A stage has failed for good.
    Aborted,
}

/// The state of a run.
#[derive(Debug, Clone, Copy, PartialEq, Eq, Structural)]
pub struct EngineState {
    /// The index of the current stage; the number of stages once finished.
    pub position: usize,
    /// How often the current stage has failed.
    pub failures: u32,
    pub phase: Phase,
}

/// What the engine asks for next.
#[derive(Debug)]
pub enum EngineAction {
    /// Run the stage at `index`.
    Run { index: usize },
    /// Wait `delay_ms` milliseconds.
    Sleep { delay_ms: u64 },
    /// Nothing: the run has succeeded.
    Finished,
    /// Nothing: the run has failed with this error.
    Aborted(PipelineError),
}

/// A stage with its configuration.
#[derive(Debug)]
pub struct RegisteredStep {
    pub config: StepConfig,
    pub step: Step,
}

/// The sequencer of a pipeline.
#[derive(Debug)]
pub struct WorkflowEngine {
    pub steps: Vec<RegisteredStep>,
}

/// The index of the first enabled stage from `from` on, or the number of
/// stages where there is none.
pub open spec fn next_enabled(steps: Seq<RegisteredStep>, from: int) -> int
    decreases steps.len() - from,
{
    if from < 0 || from >= steps.len() {
        steps.len() as int
    } else if steps[from].config.enabled {
        from
    } else {
        next_enabled(steps, from + 1)
    }
}

/// The state in which the stages from `from` on are still to be run.
pub open spec fn state_from(steps: Seq<RegisteredStep>, from: int) -> EngineState {
    let p = next_enabled(steps, from);
    if p < steps.len() {
        EngineState { position: p as usize, failures: 0, phase: Phase::Running }
    } else {
        EngineState { position: steps.len() as usize, failures: 0, phase: Phase::Finished }
    }
}

/// The stage at the position of `s` may be tried once more after one more failure.
pub open spec fn may_retry(steps: Seq<RegisteredStep>, s: EngineState) -> bool {
    &&& s.position < steps.len()
    &&& steps[s.position as int].config.retry matches Some(retry)
    &&& s.failures + 1 < retry.max_attempts
}

/// The state after the current stage of `s` has succeeded.
pub open spec fn after_success(steps: Seq<RegisteredStep>, s: EngineState) -> EngineState {
    state_from(steps, s.position + 1)
}

/// The state after the current stage of `s` has failed.
pub open spec fn after_failure(steps: Seq<RegisteredStep>, s: EngineState) -> EngineState {
    if may_retry(steps, s) {
        EngineState {
            position: s.position,
            failures: (s.failures + 1) as u32,
            phase: Phase::Sleeping,
        }
    } else {
        EngineState { position: s.position, failures: s.failures, phase: Phase::Aborted }
    }
}

/// The state after the pause of `s` is over.
pub open spec fn after_sleep(s: EngineState) -> EngineState {
    EngineState { position: s.position, failures: s.failures, phase: Phase::Running }
}

/// The pause that the stage at the position of `s` asks for.
pub open spec fn pause_of(steps: Seq<RegisteredStep>, s: EngineState) -> u64 {
    match steps[s.position as int].config.retry {
        Some(retry) => retry.delay_ms,
        None => 0,
    }
}

/// `action` is what the engine asks for in the state `s`.
pub open spec fn is_action_of(
    steps: Seq<RegisteredStep>,
    s: EngineState,
    action: EngineAction,
) -> bool {
    match s.phase {
        Phase::Running => action matches EngineAction::Run { index } && index == s.position,
        Phase::Sleeping => action matches EngineAction::Sleep { delay_ms } && delay_ms == pause_of(
            steps,
            s,
        ),
        Phase::Finished => action is Finished,
        Phase::Aborted => action is Aborted,
    }
}

/// The state `s` belongs to a run over `steps`: while a stage is current, it
/// is an enabled stage, and it has failed less often than it may be tried.
pub open spec fn is_state_of(steps: Seq<RegisteredStep>, s: EngineState) -> bool {
    match s.phase {
        Phase::Finished => s.position == steps.len(),
        Phase::Aborted => true,
        _ => {
            &&& s.position < steps.len()
            &&& steps[s.position as int].config.enabled
            &&& s.failures > 0 ==> (steps[s.position as int].config.retry matches Some(retry)
                && s.failures < retry.max_attempts)
            &&& s.phase is Sleeping ==> s.failures > 0
        },
    }
}

/// The state after the current stage of `s` has failed `k` times in a row and
/// the engine has slept after each failure.
pub open spec fn after_failures(steps: Seq<RegisteredStep>, s: EngineState, k: nat) -> EngineState
    decreases k,
{
    if k == 0 {
        s
    } else {
        after_sleep(after_failure(steps, after_failures(steps, s, (k - 1) as nat)))
    }
}

/// Between `from` and the first enabled stage from `from` on, no stage is
/// enabled; and that stage, if there is one, is enabled.
pub proof fn lemma_next_enabled(steps: Seq<RegisteredStep>, from: int)
    requires
        0 <= from,
    ensures
        from <= next_enabled(steps, from) || next_enabled(steps, from) == steps.len(),
        next_enabled(steps, from) <= steps.len(),
        next_enabled(steps, from) < steps.len() ==> steps[next_enabled(
            steps,
            from,
        )].config.enabled,
        forall|j: int|
            from <= j < next_enabled(steps, from) ==> !(#[trigger] steps[j]).config.enabled,
    decreases steps.len() - from,
{
    if from < steps.len() && !steps[from].config.enabled {
        lemma_next_enabled(steps, from + 1);
    }
}

/// A disabled stage is never run: whenever the engine asks to run a stage,
/// that stage is enabled.
pub proof fn lemma_only_enabled_stages_run(
    steps: Seq<RegisteredStep>,
    s: EngineState,
    action: EngineAction,
)
    requires
        is_state_of(steps, s),
        is_action_of(steps, s, action),
    ensures
        action matches EngineAction::Run { index } ==> index < steps.len()
            && steps[index as int].config.enabled,
{
}

/// Disabled stages do not hold a run up: after a success the engine goes on
/// with the next enabled stage, whatever number of disabled stages lies in
/// between, and finishes where no enabled stage is left.
pub proof fn lemma_disabled_stages_are_passed(steps: Seq<RegisteredStep>, s: EngineState, j: int)
    requires
        is_state_of(steps, s),
        s.phase is Running,
        s.position < j < steps.len(),
        steps[j].config.enabled,
        forall|i: int| s.position < i < j ==> !(#[trigger] steps[i]).config.enabled,
    ensures
        after_success(steps, s) == (EngineState {
            position: j as usize,
            failures: 0,
            phase: Phase::Running,
        }),
{
    lemma_next_enabled(steps, s.position + 1);
    let p = next_enabled(steps, s.position + 1);
    if p < j {
        assert(steps[p].config.enabled);
    }
    if p > j {
        assert(!steps[j].config.enabled);
    }
}

/// A stage that may be tried `max_attempts` times and fails `k` times, with
/// `k` less than `max_attempts`, is run again after each failure, the engine
/// sleeping in between: after `k` failures and `k` pauses the same stage is
/// current, to be run for the `k + 1`st time. Where that run succeeds, the
/// engine goes on as if the stage had succeeded at once.
pub proof fn lemma_retry_after_each_failure(steps: Seq<RegisteredStep>, s: EngineState, k: nat)
    requires
        is_state_of(steps, s),
        s.phase is Running,
        s.failures == 0,
        steps[s.position as int].config.retry matches Some(retry) && k < retry.max_attempts,
    ensures
        after_failures(steps, s, k) == (EngineState {
            position: s.position,
            failures: k as u32,
            phase: Phase::Running,
        }),
        k > 0 ==> after_failure(steps, after_failures(steps, s, (k - 1) as nat)).phase is Sleeping,
        after_success(steps, after_failures(steps, s, k)) == after_success(steps, s),
    decreases k,
{
    if k > 0 {
        lemma_retry_after_each_failure(steps, s, (k - 1) as nat);
    }
}

/// The failure that uses up the attempts of a stage ends the run: when a
/// stage that may be tried `max_attempts` times has failed `max_attempts - 1`
/// times, one more failure aborts. A stage without a retry policy aborts on
/// its first failure.
pub proof fn lemma_last_failure_aborts(steps: Seq<RegisteredStep>, s: EngineState)
    requires
        is_state_of(steps, s),
        s.phase is Running,
        match steps[s.position as int].config.retry {
            Some(retry) => s.failures + 1 >= retry.max_attempts,
            None => true,
        },
    ensures
        after_failure(steps, s).phase is Aborted,
{
}

impl WorkflowEngine {
    /// An engine without stages.
    pub fn new() -> (r: WorkflowEngine)
        ensures
            r.steps@.len() == 0,
    {
        WorkflowEngine { steps: Vec::new() }
    }

    /// Adds `step` with its configuration behind the stages that the engine has.
    pub fn register_step(&mut self, config: StepConfig, step: Step)
        ensures
            final(self).steps@ == old(self).steps@.push(RegisteredStep { config, step }),
    {
        self.steps.push(RegisteredStep { config, step });
    }

    fn state_at(&self, from: usize) -> (r: EngineState)
        requires
            from <= self.steps.len(),
        ensures
            r == state_from(self.steps@, from as int),
            is_state_of(self.steps@, r),
    {
        let mut i: usize = from;
        while i < self.steps.len() && !self.steps[i].config.enabled
            invariant
                from <= i <= self.steps.len(),
                next_enabled(self.steps@, from as int) == next_enabled(self.steps@, i as int),
            decreases self.steps.len() - i,
        {
            i += 1;
        }
        if i < self.steps.len() {
            EngineState { position: i, failures: 0, phase: Phase::Running }
        } else {
            EngineState { position: self.steps.len(), failures: 0, phase: Phase::Finished }
        }
    }

    fn action_in(&self, state: &EngineState) -> (r: EngineAction)
        requires
            is_state_of(self.steps@, *state),
            !(state.phase is Aborted),
        ensures
            is_action_of(self.steps@, *state, r),
    {
        match state.phase {
            Phase::Running => EngineAction::Run { index: state.position },
            Phase::Sleeping => {
                let delay_ms = match &self.steps[state.position].config.retry {
                    Some(retry) => retry.delay_ms,
                    None => 0,
                };
                EngineAction::Sleep { delay_ms }
            },
            _ => EngineAction::Finished,
        }
    }

    /// Tells whether `state` belongs to a run of this engine.
    pub fn accepts(&self, state: &EngineState) -> (r: bool)
        ensures
            r == is_state_of(self.steps@, *state),
    {
        match state.phase {
            Phase::Finished => state.position == self.steps.len(),
            Phase::Aborted => true,
            _ => {
                if state.position >= self.steps.len() {
                    return false;
                }
                let config = &self.steps[state.position].config;
                if !config.enabled {
                    return false;
                }
                let within = state.failures == 0 || match &config.retry {
                    Some(retry) => state.failures < retry.max_attempts,
                    None => false,
                };
                let slept = match state.phase {
                    Phase::Sleeping => state.failures > 0,
                    _ => true,
                };
                within && slept
            },
        }
    }

    /// Begins a run on the sentence `input`: returns the context of the
    /// request, the state of the run, and what the engine asks for first,
    /// which is to run the first enabled stage, or nothing where no stage is
    /// enabled.
    pub fn execute(&self, input: String) -> (r: (WorkflowContext, EngineState, EngineAction))
        ensures
            r.0.sentence == input,
            r.0.is_fresh(input@),
            r.0.wf(),
            r.1 == state_from(self.steps@, 0),
            is_state_of(self.steps@, r.1),
            is_action_of(self.steps@, r.1, r.2),
    {
        let context = WorkflowContext::new(input);
        let state = self.state_at(0);
        let action = self.action_in(&state);
        (context, state, action)
    }

    /// Takes note of how the current stage ended, and says what comes next.
    ///
    /// After a success the next enabled stage is run, or the run is finished.
    /// After a failure the stage is tried again after its pause, as long as
    /// its retry policy allows; else the run is aborted with `outcome`'s
    /// error, unchanged. Where `state` is none of this engine, or no stage is
    /// running, the state stays as it is and the answer is an error of class
    /// [`ErrorKind::Validation`].
    pub fn step_finished(&self, state: &mut EngineState, outcome: Result<(), PipelineError>) -> (r:
        EngineAction)
        ensures
            is_state_of(self.steps@, *old(state)) ==> is_state_of(self.steps@, *final(state)),
            is_state_of(self.steps@, *old(state)) && old(state).phase is Running ==> {
                &&& *final(state) == match outcome {
                    Ok(()) => after_success(self.steps@, *old(state)),
                    Err(_) => after_failure(self.steps@, *old(state)),
                }
                &&& is_action_of(self.steps@, *final(state), r)
                &&& r matches EngineAction::Aborted(e) ==> outcome == Err::<(), PipelineError>(e)
            },
            !(is_state_of(self.steps@, *old(state)) && old(state).phase is Running) ==> {
                &&& *final(state) == *old(state)
                &&& r matches EngineAction::Aborted(e) && e.kind == ErrorKind::Validation
            },
    {
        let running = match state.phase {
            Phase::Running => self.accepts(state),
            _ => false,
        };
        if !running {
            return EngineAction::Aborted(
                PipelineError::new(ErrorKind::Validation, "no stage is running"),
            );
        }
        assert(state.position < self.steps.len());
        match outcome {
            Ok(()) => {
                let next = self.state_at(state.position + 1);
                *state = next;
                self.action_in(state)
            },
            Err(error) => {
                let retry = match &self.steps[state.position].config.retry {
                    Some(retry) => state.failures as u64 + 1 < retry.max_attempts as u64,
                    None => false,
                };
                if retry {
                    state.failures = state.failures + 1;
                    state.phase = Phase::Sleeping;
                    self.action_in(state)
                } else {
                    state.phase = Phase::Aborted;
                    EngineAction::Aborted(error)
                }
            },
        }
    }

    /// Takes note that the pause is over, and asks to run the current stage
    /// again. Where `state` is none of this engine, or the engine is not
    /// pausing, the state stays as it is and the answer is an error of class
    /// [`ErrorKind::Validation`].
    pub fn sleep_finished(&self, state: &mut EngineState) -> (r: EngineAction)
        ensures
            is_state_of(self.steps@, *old(state)) ==> is_state_of(self.steps@, *final(state)),
            is_state_of(self.steps@, *old(state)) && old(state).phase is Sleeping ==> {
                &&& *final(state) == after_sleep(*old(state))
                &&& is_action_of(self.steps@, *final(state), r)
            },
            !(is_state_of(self.steps@, *old(state)) && old(state).phase is Sleeping) ==> {
                &&& *final(state) == *old(state)
                &&& r matches EngineAction::Aborted(e) && e.kind == ErrorKind::Validation
            },
    {
        let pausing = match state.phase {
            Phase::Sleeping => self.accepts(state),
            _ => false,
        };
        if !pausing {
            return EngineAction::Aborted(
                PipelineError::new(ErrorKind::Validation, "the engine is not pausing"),
            );
        }
        state.phase = Phase::Running;
        self.action_in(state)
    }
}

} // verus!
