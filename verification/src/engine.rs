//! The run of a job as a whole: its first part, its steps one after the other,
//! its last word, and the job that comes next.
//!
//! `Job::run` sets a job going and says what is to be done first. Whoever runs
//! it does that, tells `Job::advance` how it went, and is told what is to be
//! done next, until there is something to return.

use crate::error::JobError;
use crate::job::{hand_over, hands_over, Job, JobRunOutput, JobState};
use crate::metadata::JobResult;
use crate::output::JobRunErrors;
use crate::phase::{suspended, InitPhaseOutput, StepPhaseEnd};
use crate::report::JobReportUpdate;
use crate::run::{JobRun, NextStep, RunStart, RunningStep, StepDone};
use crate::stateful::{DynJob, StatefulJob};
use crate::worker::JobRunWorkTable;
use std::collections::VecDeque;
use tokio::sync::oneshot;
use vstd::prelude::*;

verus! {

/// What is to be done next.
pub enum RunAction<SJob: StatefulJob, Next> {
    /// Run the first part of the job.
    RunInit(JobState<SJob>),
    /// Run a step.
    RunStep(RunningStep<SJob>),
    /// Let the job have its last word.
    RunFinalize(JobRun<SJob>),
    /// Encode the state of the job; the signal is to be handed back with it.
    EncodeState(JobState<SJob>, oneshot::Sender<()>),
    /// The run is over, and this has come of it.
    Return(Result<JobRunOutput<Next>, JobError>),
}

/// How what was to be done went.
pub enum RunEvent<SJob: StatefulJob> {
    /// The first part has ended.
    InitEnded(JobState<SJob>, InitPhaseOutput<SJob>),
    /// The step has ended.
    StepEnded(RunningStep<SJob>, StepPhaseEnd<SJob>),
    /// The first part or the step was ended by an error.
    PhaseFailed(JobError),
    /// The job has had its last word.
    Finalized(JobRun<SJob>, JobResult),
    /// The state has been encoded, or could not be.
    StateEncoded(Result<Vec<u8>, rmp_serde::encode::Error>, oneshot::Sender<()>),
}

/// What comes of an event.
pub struct RunTurn<SJob: StatefulJob, Next> {
    pub action: RunAction<SJob, Next>,
    /// What is to be told before anything else is done.
    pub progress: Option<Vec<JobReportUpdate>>,
}

/// Whether `action` is what `run` calls for: its next step, or its last word
/// where there is no step to take.
pub open spec fn calls_for<SJob: StatefulJob, Next>(
    run: JobRun<SJob>,
    action: RunAction<SJob, Next>,
) -> bool {
    match action {
        RunAction::RunStep(running) => run.takes(running),
        RunAction::RunFinalize(last) => !run.has_step() && last == run,
        _ => false,
    }
}

/// Whether `action` returns `error`.
pub open spec fn returns_error<SJob: StatefulJob, Next>(
    action: RunAction<SJob, Next>,
    error: JobError,
) -> bool {
    action matches RunAction::Return(Err(returned)) && returned == error
}

/// Whether `output` is what is left behind by `run`, whose last word was
/// `metadata`, when `queue` waits for it: its troubles, and the first job of the
/// queue, with the others behind it.
pub open spec fn leaves_behind<SJob: StatefulJob, Next: DynJob<Next>>(
    run: JobRun<SJob>,
    metadata: crate::metadata::JobMetadata,
    queue: Seq<Next>,
    output: JobRunOutput<Next>,
) -> bool {
    &&& output.metadata == metadata
    &&& output.errors == JobRunErrors(run.errors)
    &&& hands_over(queue, output.next_job)
}

/// Whether `turn` is what comes of `event` when `queue` waits for the job.
pub open spec fn is_turn<SJob: StatefulJob, Next: DynJob<Next>>(
    queue: Seq<Next>,
    event: RunEvent<SJob>,
    turn: RunTurn<SJob, Next>,
) -> bool {
    match event {
        RunEvent::InitEnded(state, phase) => {
            &&& turn.progress is None
            &&& match phase.output {
                Err(error) if !(error is EarlyFinish) => returns_error(turn.action, error),
                _ => exists|run: JobRun<SJob>| #[trigger]
                    run.is_after_init(state, phase) && calls_for(run, turn.action),
            }
        },
        RunEvent::StepEnded(running, StepPhaseEnd::Finished(output)) => match output {
            Err(error) if !(error is EarlyFinish) => turn.progress is None && returns_error(
                turn.action,
                error,
            ),
            _ => exists|done: StepDone<SJob>| #[trigger]
                running.is_done(output, done) && calls_for(done.run, turn.action) && turn.progress
                    == done.progress,
        },
        RunEvent::StepEnded(running, StepPhaseEnd::Suspend(signal)) => {
            &&& turn.progress is None
            &&& turn.action matches RunAction::EncodeState(state, to_signal)
            &&& running.interrupts(state)
            &&& to_signal == signal
        },
        RunEvent::PhaseFailed(error) => turn.progress is None && returns_error(turn.action, error),
        RunEvent::Finalized(run, Ok(metadata)) => {
            &&& turn.progress is None
            &&& turn.action matches RunAction::Return(Ok(output))
            &&& leaves_behind(run, metadata, queue, output)
        },
        RunEvent::Finalized(_, Err(error)) => turn.progress is None && returns_error(
            turn.action,
            error,
        ),
        RunEvent::StateEncoded(Ok(bytes), signal) => turn.progress is None && returns_error(
            turn.action,
            JobError::Paused(bytes, signal),
        ),
        RunEvent::StateEncoded(Err(error), _) => turn.progress is None && returns_error(
            turn.action,
            JobError::StateEncode(error),
        ),
    }
}

/// What `run` calls for.
fn act<SJob: StatefulJob, Next>(run: JobRun<SJob>) -> (r: RunAction<SJob, Next>)
    ensures
        calls_for(run, r),
{
    match run.next_step() {
        NextStep::Execute(running) => RunAction::RunStep(running),
        NextStep::Finalize(run) => RunAction::RunFinalize(run),
    }
}

impl<SJob: StatefulJob, Next: DynJob<Next>> Job<SJob, Next> {
    /// Sets the job going: its state is the run's now. A brand new job begins
    /// with its first part; one that has been under way before goes on where it
    /// was.
    pub fn run(&mut self) -> (r: (JobRunWorkTable, RunAction<SJob, Next>))
        requires
            old(self).state is Some,
        ensures
            *final(self) == (Job { state: None, ..*old(self) }),
            r.0.id == old(self).id,
            r.0.name == SJob::NAME,
            call_ensures(
                <SJob as StatefulJob>::target_location,
                (&old(self).state->0.init,),
                r.0.target_location,
            ),
            match old(self).state->0.data {
                None => r.1 == RunAction::<SJob, Next>::RunInit(old(self).state->0),
                Some(_) => exists|run: JobRun<SJob>| #[trigger]
                    run.resumes(old(self).state->0) && calls_for(run, r.1),
            },
    {
        let state = self.state.take().unwrap();
        let table = JobRunWorkTable {
            id: self.id,
            name: SJob::NAME,
            target_location: state.init.target_location(),
        };
        match JobRun::start(state) {
            RunStart::Init(state) => (table, RunAction::RunInit(state)),
            RunStart::Ready(run) => (table, act(run)),
        }
    }

    /// Goes on with the run after `event`.
    pub fn advance(&mut self, event: RunEvent<SJob>) -> (r: RunTurn<SJob, Next>)
        requires
            event matches RunEvent::StepEnded(running, StepPhaseEnd::Finished(output))
                ==> running.counts_fit(output),
        ensures
            is_turn(old(self).next_jobs@, event, r),
            r.action matches RunAction::Return(Ok(output)) ==> (output.next_job matches Some(job)
                ==> exists|head: &mut Next, rest: VecDeque<Next>|
                {
                    &&& *head == old(self).next_jobs@[0]
                    &&& rest@ == old(self).next_jobs@.skip(1)
                    &&& *final(head) == job
                    &&& #[trigger] call_ensures(
                        <Next as DynJob<Next>>::set_next_jobs,
                        (head, rest),
                        (),
                    )
                }),
            *final(self) == (Job { next_jobs: final(self).next_jobs, ..*old(self) }),
            match event {
                RunEvent::Finalized(_, Ok(_)) => final(self).next_jobs@ == Seq::<Next>::empty(),
                _ => *final(self) == *old(self),
            },
    {
        match event {
            RunEvent::InitEnded(state, phase) => match JobRun::after_init(state, phase) {
                Ok(run) => RunTurn { action: act(run), progress: None },
                Err(error) => RunTurn { action: RunAction::Return(Err(error)), progress: None },
            },
            RunEvent::StepEnded(running, StepPhaseEnd::Finished(output)) => {
                match running.complete_step(output) {
                    Ok(done) => RunTurn { action: act(done.run), progress: done.progress },
                    Err(error) => RunTurn {
                        action: RunAction::Return(Err(error)),
                        progress: None,
                    },
                }
            },
            RunEvent::StepEnded(running, StepPhaseEnd::Suspend(signal)) => RunTurn {
                action: RunAction::EncodeState(running.interrupt(), signal),
                progress: None,
            },
            RunEvent::PhaseFailed(error) => RunTurn {
                action: RunAction::Return(Err(error)),
                progress: None,
            },
            RunEvent::Finalized(run, Ok(metadata)) => {
                let mut next_jobs: VecDeque<Next> = VecDeque::new();
                std::mem::swap(&mut next_jobs, &mut self.next_jobs);
                let output = JobRunOutput {
                    metadata,
                    errors: JobRunErrors(run.errors),
                    next_job: hand_over(next_jobs),
                };
                RunTurn { action: RunAction::Return(Ok(output)), progress: None }
            },
            RunEvent::Finalized(_, Err(error)) => RunTurn {
                action: RunAction::Return(Err(error)),
                progress: None,
            },
            RunEvent::StateEncoded(encoded, signal) => RunTurn {
                action: RunAction::Return(Err(suspended(encoded, signal))),
                progress: None,
            },
        }
    }
}

} // verus!
