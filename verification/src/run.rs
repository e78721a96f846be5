//! What a run works with from its first part to its last word.
//!
//! Between two waits everything that the run works with is in one place, in a
//! `JobRun`. To take a step, `next_step` turns it into a `RunningStep`, which
//! is lent to the task of the step; with what the task comes back with,
//! `complete_step` makes the next `JobRun` of it. A step that is cut short is
//! put back by `interrupt`.

use crate::error::JobError;
use crate::job::JobState;
use crate::metadata::JobRunMetadata;
use crate::output::{queue_of, CurrentStep, JobInitOutput, JobStepOutput};
use crate::phase::{InitPhaseOutput, StepTaskOutput};
use crate::report::JobReportUpdate;
use crate::stateful::StatefulJob;
use std::collections::VecDeque;
use vstd::prelude::*;

verus! {

/// A run between two steps.
pub struct JobRun<SJob: StatefulJob> {
    pub init: SJob,
    pub data: Option<SJob::Data>,
    /// The steps that are left.
    pub steps: VecDeque<SJob::Step>,
    /// How many steps have been taken.
    pub step_number: usize,
    pub run_metadata: SJob::RunMetadata,
    /// The troubles so far.
    pub errors: Vec<String>,
    /// Whether the job still wants to go on.
    pub should_run: bool,
}

/// A run while it takes a step.
pub struct RunningStep<SJob: StatefulJob> {
    pub init: SJob,
    pub data: SJob::Data,
    /// The step that is being taken.
    pub step: SJob::Step,
    /// The steps that are left after it.
    pub rest: VecDeque<SJob::Step>,
    pub step_number: usize,
    pub run_metadata: SJob::RunMetadata,
    pub errors: Vec<String>,
}

/// How a run sets out.
pub enum RunStart<SJob: StatefulJob> {
    /// A brand new job: its first part comes first.
    Init(JobState<SJob>),
    /// A job that has been under way before: it goes on with its steps.
    Ready(JobRun<SJob>),
}

/// What a run does next.
pub enum NextStep<SJob: StatefulJob> {
    /// It takes a step.
    Execute(RunningStep<SJob>),
    /// It has its last word.
    Finalize(JobRun<SJob>),
}

/// What comes of a step.
pub struct StepDone<SJob: StatefulJob> {
    pub run: JobRun<SJob>,
    /// What is to be told of it; nothing where the engine keeps silent.
    pub progress: Option<Vec<JobReportUpdate>>,
}

/// Whether `outcome` is the error `error`, and one that ends a run: any but an
/// early finish.
pub open spec fn fails<T>(outcome: Result<T, JobError>, error: JobError) -> bool {
    outcome == Err::<T, JobError>(error) && !(error is EarlyFinish)
}

/// What is told of a step that went well, when `queued` steps, this one among
/// them, were left before it was taken.
pub open spec fn step_progress<Step, RunMetadata>(
    step_number: usize,
    queued: nat,
    output: JobStepOutput<Step, RunMetadata>,
) -> Seq<JobReportUpdate> {
    let completed = JobReportUpdate::CompletedTaskCount((step_number + 1) as usize);
    match output.maybe_more_steps {
        Some(more) => seq![
            completed,
            JobReportUpdate::TaskCount((queued + more@.len()) as usize),
        ],
        None => seq![completed],
    }
}

/// What is told once the first part of a job has come up with its steps: how
/// many there are. A batched job is left to tell for itself.
pub fn init_progress<SJob: StatefulJob>(
    output: &Result<JobInitOutput<SJob::RunMetadata, SJob::Step>, JobError>,
) -> (r: Option<Vec<JobReportUpdate>>)
    ensures
        r is Some <==> output is Ok && !SJob::IS_BATCHED,
        r matches Some(updates) ==> updates@ == seq![
            JobReportUpdate::TaskCount(output->Ok_0.steps@.len() as usize),
        ],
{
    match output {
        Ok(output) => {
            if SJob::IS_BATCHED {
                None
            } else {
                let updates: Vec<JobReportUpdate> = vec![
                    JobReportUpdate::TaskCount(output.steps.len()),
                ];
                assert(updates@ =~= seq![
                    JobReportUpdate::TaskCount(output.steps@.len() as usize),
                ]);
                Some(updates)
            }
        },
        Err(_) => None,
    }
}

impl<SJob: StatefulJob> JobRun<SJob> {
    /// Whether there is a step to take: the job has its data, wants to go on,
    /// and has steps left.
    pub open spec fn has_step(self) -> bool {
        self.data is Some && self.should_run && self.steps@.len() > 0
    }

    /// Whether `running` is this run as it takes its next step, the first of
    /// those that are left.
    pub open spec fn takes(self, running: RunningStep<SJob>) -> bool {
        &&& self.has_step()
        &&& running.init == self.init
        &&& self.data == Some(running.data)
        &&& running.step == self.steps@[0]
        &&& running.rest@ == self.steps@.skip(1)
        &&& running.step_number == self.step_number
        &&& running.run_metadata == self.run_metadata
        &&& running.errors == self.errors
    }

    /// Whether this run goes on from `state`, with no troubles so far.
    pub open spec fn resumes(self, state: JobState<SJob>) -> bool {
        &&& self.init == state.init
        &&& self.data == state.data
        &&& self.steps == state.steps
        &&& self.step_number == state.step_number
        &&& self.run_metadata == state.run_metadata
        &&& self.errors@ == Seq::<String>::empty()
        &&& self.should_run
    }

    /// Whether this run sets out from `state` with the steps of `output` and
    /// with `data` to work on.
    pub open spec fn begins(
        self,
        state: JobState<SJob>,
        data: Option<SJob::Data>,
        output: JobInitOutput<SJob::RunMetadata, SJob::Step>,
    ) -> bool {
        &&& self.init == state.init
        &&& self.data == data
        &&& self.steps == output.steps
        &&& self.step_number == state.step_number
        &&& SJob::RunMetadata::updates(
            state.run_metadata,
            output.run_metadata,
            self.run_metadata,
        )
        &&& self.errors == output.errors.0
        &&& self.should_run
    }

    /// Whether this run has nothing to do but to have its last word, as the
    /// first part of the job found nothing to do.
    pub open spec fn gives_up(self, state: JobState<SJob>, data: Option<SJob::Data>) -> bool {
        &&& self.init == state.init
        &&& self.data == data
        &&& self.steps == state.steps
        &&& self.step_number == state.step_number
        &&& self.run_metadata == state.run_metadata
        &&& self.errors@ == Seq::<String>::empty()
        &&& !self.should_run
    }

    /// Whether this run is what comes of the first part of the job, where that
    /// does not end the run: `begins` where it went well, `gives_up` where it
    /// finished early.
    pub open spec fn is_after_init(
        self,
        state: JobState<SJob>,
        phase: InitPhaseOutput<SJob>,
    ) -> bool {
        match phase.output {
            Ok(output) => self.begins(state, phase.maybe_data, output),
            Err(error) => error is EarlyFinish && self.gives_up(state, phase.maybe_data),
        }
    }

    /// Sets out from a state. A job with data has been under way before and
    /// goes on where it was; one without is brand new.
    pub fn start(state: JobState<SJob>) -> (r: RunStart<SJob>)
        ensures
            match r {
                RunStart::Init(fresh) => state.data is None && fresh == state,
                RunStart::Ready(run) => state.data is Some && run.resumes(state),
            },
    {
        if state.data.is_some() {
            RunStart::Ready(
                JobRun {
                    init: state.init,
                    data: state.data,
                    steps: state.steps,
                    step_number: state.step_number,
                    run_metadata: state.run_metadata,
                    errors: Vec::new(),
                    should_run: true,
                },
            )
        } else {
            RunStart::Init(state)
        }
    }

    /// Goes on after the first part of the job. An early finish there leaves
    /// only the last word; any other error ends the run.
    pub fn after_init(state: JobState<SJob>, phase: InitPhaseOutput<SJob>) -> (r: Result<
        JobRun<SJob>,
        JobError,
    >)
        ensures
            match r {
                Ok(run) => run.is_after_init(state, phase),
                Err(error) => fails(phase.output, error),
            },
    {
        let mut run_metadata = state.run_metadata;
        match phase.output {
            Ok(output) => {
                run_metadata.update(output.run_metadata);
                Ok(
                    JobRun {
                        init: state.init,
                        data: phase.maybe_data,
                        steps: output.steps,
                        step_number: state.step_number,
                        run_metadata,
                        errors: output.errors.0,
                        should_run: true,
                    },
                )
            },
            Err(JobError::EarlyFinish { .. }) => Ok(
                JobRun {
                    init: state.init,
                    data: phase.maybe_data,
                    steps: state.steps,
                    step_number: state.step_number,
                    run_metadata,
                    errors: Vec::new(),
                    should_run: false,
                },
            ),
            Err(error) => Err(error),
        }
    }

    /// Takes the next step, where there is one to take.
    pub fn next_step(self) -> (r: NextStep<SJob>)
        ensures
            match r {
                NextStep::Execute(running) => self.takes(running),
                NextStep::Finalize(run) => !self.has_step() && run == self,
            },
    {
        if !self.should_run || self.data.is_none() || self.steps.len() == 0 {
            return NextStep::Finalize(self);
        }
        let mut rest = self.steps;
        match (self.data, rest.pop_front()) {
            (Some(data), Some(step)) => {
                assert(rest@ =~= self.steps@.skip(1));
                NextStep::Execute(
                    RunningStep {
                        init: self.init,
                        data,
                        step,
                        rest,
                        step_number: self.step_number,
                        run_metadata: self.run_metadata,
                        errors: self.errors,
                    },
                )
            },
            (data, _) => NextStep::Finalize(JobRun { data, steps: rest, ..self }),
        }
    }
}

impl<SJob: StatefulJob> RunningStep<SJob> {
    /// Whether `after` is the run once the step has come up with `output`: the
    /// step is done with and counted, the steps that it asks for stand behind
    /// those that were left, and its troubles behind those that were there.
    pub open spec fn completes(
        self,
        output: JobStepOutput<SJob::Step, SJob::RunMetadata>,
        after: JobRun<SJob>,
    ) -> bool {
        &&& after.init == self.init
        &&& after.data == Some(self.data)
        &&& after.steps@ == self.rest@ + output.more_steps()
        &&& after.step_number == self.step_number + 1
        &&& after.errors@ == self.errors@ + output.errors@
        &&& after.should_run
        &&& match output.maybe_more_metadata {
            Some(more) => SJob::RunMetadata::updates(
                self.run_metadata,
                more,
                after.run_metadata,
            ),
            None => after.run_metadata == self.run_metadata,
        }
    }

    /// Whether `after` is the run once the step has found that there is nothing
    /// left to do: no more steps are taken, and this one does not count.
    pub open spec fn finishes_early(self, after: JobRun<SJob>) -> bool {
        &&& after.init == self.init
        &&& after.data == Some(self.data)
        &&& after.steps == self.rest
        &&& after.step_number == self.step_number
        &&& after.run_metadata == self.run_metadata
        &&& after.errors == self.errors
        &&& !after.should_run
    }

    /// Whether `done` is what comes of the step, where that does not end the run:
    /// it `completes` where it went well, which is told unless the job is a
    /// batched one, and `finishes_early` where it found nothing left to do.
    pub open spec fn is_done(self, output: StepTaskOutput<SJob>, done: StepDone<SJob>) -> bool {
        match output {
            Ok(output) => {
                &&& self.completes(output, done.run)
                &&& done.progress is Some <==> !SJob::IS_BATCHED
                &&& done.progress matches Some(updates) ==> updates@ == step_progress(
                    self.step_number,
                    self.rest@.len() + 1,
                    output,
                )
            },
            Err(error) => {
                &&& error is EarlyFinish
                &&& self.finishes_early(done.run)
                &&& done.progress is None
            },
        }
    }

    /// Whether `state` is the run as it was before the step was taken.
    pub open spec fn interrupts(self, state: JobState<SJob>) -> bool {
        &&& state.init == self.init
        &&& state.data == Some(self.data)
        &&& state.steps@ == seq![self.step] + self.rest@
        &&& state.step_number == self.step_number
        &&& state.run_metadata == self.run_metadata
    }

    /// Whether the counts that come with `output` fit in the machine's numbers.
    pub open spec fn counts_fit(self, output: StepTaskOutput<SJob>) -> bool {
        output matches Ok(output) ==> {
            &&& self.step_number < usize::MAX
            &&& self.rest@.len() + 1 + output.more_steps().len() <= usize::MAX
        }
    }

    /// The step as the job is to be shown it.
    pub fn current(&self) -> (r: CurrentStep<'_, SJob::Step>)
        ensures
            *r.step == self.step,
            r.step_number == self.step_number,
    {
        CurrentStep { step: &self.step, step_number: self.step_number }
    }

    /// Goes on after the step. An early finish leaves only the last word; any
    /// other error ends the run. What went well is told, unless the job is a
    /// batched one.
    pub fn complete_step(self, output: StepTaskOutput<SJob>) -> (r: Result<
        StepDone<SJob>,
        JobError,
    >)
        requires
            self.counts_fit(output),
        ensures
            match r {
                Ok(done) => self.is_done(output, done),
                Err(error) => fails(output, error),
            },
    {
        let queued: usize = self.rest.len();
        let mut steps = self.rest;
        let mut run_metadata = self.run_metadata;
        let mut errors = self.errors;
        match output {
            Ok(output) => {
                let mut updates: Vec<JobReportUpdate> = vec![
                    JobReportUpdate::CompletedTaskCount(self.step_number + 1),
                ];
                if let Some(more_steps) = output.maybe_more_steps {
                    updates.push(JobReportUpdate::TaskCount(queued + 1 + more_steps.len()));
                    let mut more: VecDeque<SJob::Step> = queue_of(more_steps);
                    steps.append(&mut more);
                }
                assert(updates@ =~= step_progress(self.step_number, self.rest@.len() + 1, output));
                assert(steps@ =~= self.rest@ + output.more_steps());
                if let Some(more_metadata) = output.maybe_more_metadata {
                    run_metadata.update(more_metadata);
                }
                let mut new_errors = output.errors.0;
                errors.append(&mut new_errors);
                Ok(
                    StepDone {
                        run: JobRun {
                            init: self.init,
                            data: Some(self.data),
                            steps,
                            step_number: self.step_number + 1,
                            run_metadata,
                            errors,
                            should_run: true,
                        },
                        progress: if SJob::IS_BATCHED {
                            None
                        } else {
                            Some(updates)
                        },
                    },
                )
            },
            Err(JobError::EarlyFinish { .. }) => Ok(
                StepDone {
                    run: JobRun {
                        init: self.init,
                        data: Some(self.data),
                        steps,
                        step_number: self.step_number,
                        run_metadata,
                        errors,
                        should_run: false,
                    },
                    progress: None,
                },
            ),
            Err(error) => Err(error),
        }
    }

    /// Takes the step back, so that it can run to completion later.
    pub fn interrupt(self) -> (r: JobState<SJob>)
        ensures
            self.interrupts(r),
    {
        let mut steps = self.rest;
        steps.push_front(self.step);
        JobState {
            init: self.init,
            data: Some(self.data),
            steps,
            step_number: self.step_number,
            run_metadata: self.run_metadata,
        }
    }
}

} // verus!
