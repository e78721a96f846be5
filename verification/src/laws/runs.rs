//! What holds of a run, turn by turn and from its first part to its last word,
//! told by what is handed in and what comes back.

use crate::engine::{is_turn, RunAction, RunEvent, RunTurn};
use crate::error::JobError;
use crate::job::{Job, JobState};
use crate::metadata::{JobMetadata, JobRunMetadata};
use crate::output::{CurrentStep, JobInitOutput, JobStepOutput};
use crate::phase::{suspended, InitPhaseOutput, StepPhaseEnd};
use crate::report::JobReportUpdate;
use crate::run::{init_progress, JobRun, NextStep, RunStart, RunningStep, StepDone};
use crate::stateful::{DynJob, JobFace, StatefulJob};
use crate::worker::JobRunWorkTable;
use std::collections::VecDeque;
use tokio::sync::oneshot;
use vstd::prelude::*;

verus! {

/// The steps that a step asks for on top.
pub open spec fn asked<Step, RunMetadata>(output: JobStepOutput<Step, RunMetadata>) -> Seq<Step> {
    match output.maybe_more_steps {
        Some(more) => more@,
        None => seq![],
    }
}

/// Whether a job that knew `before` knows `after` once it has learned `more`.
pub open spec fn learns<RunMetadata: JobRunMetadata>(
    before: RunMetadata,
    more: Option<RunMetadata>,
    after: RunMetadata,
) -> bool {
    match more {
        Some(more) => RunMetadata::updates(before, more, after),
        None => after == before,
    }
}

/// Whether `action` is to take the first of `steps` with the others left behind
/// it, or to have the last word where there are none.
pub open spec fn goes_on<SJob: StatefulJob, Next>(
    action: RunAction<SJob, Next>,
    init: SJob,
    data: SJob::Data,
    steps: Seq<SJob::Step>,
    step_number: int,
    errors: Seq<String>,
) -> bool {
    if steps.len() > 0 {
        &&& action matches RunAction::RunStep(next)
        &&& next.init == init
        &&& next.data == data
        &&& next.step == steps[0]
        &&& next.rest@ == steps.skip(1)
        &&& next.step_number == step_number
        &&& next.errors@ == errors
    } else {
        ends(action, init, Some(data), step_number, errors)
    }
}

/// Whether `action` is to have the last word.
pub open spec fn ends<SJob: StatefulJob, Next>(
    action: RunAction<SJob, Next>,
    init: SJob,
    data: Option<SJob::Data>,
    step_number: int,
    errors: Seq<String>,
) -> bool {
    &&& action matches RunAction::RunFinalize(last)
    &&& last.init == init
    &&& last.data == data
    &&& last.step_number == step_number
    &&& last.errors@ == errors
}

/// What a job knows as it is told to take a step or to have its last word.
pub open spec fn known<SJob: StatefulJob, Next>(
    action: RunAction<SJob, Next>,
) -> SJob::RunMetadata {
    match action {
        RunAction::RunStep(next) => next.run_metadata,
        RunAction::RunFinalize(last) => last.run_metadata,
        _ => arbitrary(),
    }
}

/// Whether `progress` tells that `done` steps have been taken and, where the last
/// of them asked for more, that `left` are left with it.
pub open spec fn tells<Step, RunMetadata>(
    progress: Option<Vec<JobReportUpdate>>,
    silent: bool,
    output: JobStepOutput<Step, RunMetadata>,
    done: int,
    left: nat,
) -> bool {
    if silent {
        progress is None
    } else {
        &&& progress matches Some(told)
        &&& told@.len() == if output.maybe_more_steps is Some {
            2int
        } else {
            1int
        }
        &&& told@[0] matches JobReportUpdate::CompletedTaskCount(count) && count == done
        &&& told@.len() == 2 ==> (told@[1] matches JobReportUpdate::TaskCount(count) && count
            == left)
    }
}

/// A job that is set going keeps all but its state, and is who it says it is. A
/// brand new one begins with its first part; one with data takes the first of its
/// steps, if it has any, with what it has learned and no troubles.
pub proof fn law_run_sets_out_from_the_state<SJob: StatefulJob, Next: DynJob<Next>>(
    state: JobState<SJob>,
)
    ensures
        forall|job: &mut Job<SJob, Next>, r: (JobRunWorkTable, RunAction<SJob, Next>)|
            job.state == Some(state) && #[trigger] call_ensures(
                Job::<SJob, Next>::run,
                (job,),
                r,
            ) ==> {
                &&& final(job).state is None
                &&& final(job).id == job.id
                &&& final(job).hash == job.hash
                &&& final(job).report == job.report
                &&& final(job).next_jobs == job.next_jobs
                &&& r.0.id == job.id
                &&& r.0.name@ == SJob::NAME@
                &&& call_ensures(
                    <SJob as StatefulJob>::target_location,
                    (&state.init,),
                    r.0.target_location,
                )
                &&& match state.data {
                    None => r.1 matches RunAction::RunInit(first) && first == state,
                    Some(data) => {
                        &&& goes_on(
                            r.1,
                            state.init,
                            data,
                            state.steps@,
                            state.step_number as int,
                            seq![],
                        )
                        &&& known(r.1) == state.run_metadata
                    },
                }
            },
        forall|job: &mut Job<SJob, Next>|
            job.state is Some ==> #[trigger] call_requires(Job::<SJob, Next>::run, (job,)),
{
}

/// After a first part that went well and left data, the first of its steps is
/// taken, whatever troubles it had; the job has learned what it learned, and its
/// troubles are the first. Without steps the last word is next, and without data
/// too, whatever the steps. Nothing is told of it, and the job is as it was.
pub proof fn law_good_init_leads_to_its_steps<SJob: StatefulJob, Next: DynJob<Next>>(
    state: JobState<SJob>,
    phase: InitPhaseOutput<SJob>,
    output: JobInitOutput<SJob::RunMetadata, SJob::Step>,
)
    requires
        phase.output == Ok::<JobInitOutput<SJob::RunMetadata, SJob::Step>, JobError>(output),
    ensures
        forall|job: &mut Job<SJob, Next>, turn: RunTurn<SJob, Next>| #[trigger]
            call_ensures(
                Job::<SJob, Next>::advance,
                (job, RunEvent::InitEnded(state, phase)),
                turn,
            ) ==> {
                &&& *final(job) == *job
                &&& turn.progress is None
                &&& SJob::RunMetadata::updates(
                    state.run_metadata,
                    output.run_metadata,
                    known(turn.action),
                )
                &&& match phase.maybe_data {
                    Some(data) => goes_on(
                        turn.action,
                        state.init,
                        data,
                        output.steps@,
                        state.step_number as int,
                        output.errors.0@,
                    ),
                    None => ends(
                        turn.action,
                        state.init,
                        None,
                        state.step_number as int,
                        output.errors.0@,
                    ),
                }
            },
{
}

/// A first part that finishes early leads to the last word, with the data that it
/// left, with nothing learned and without trouble; one that fails in any other way
/// ends the run with its own error.
pub proof fn law_init_error_ends_the_steps<SJob: StatefulJob, Next: DynJob<Next>>(
    state: JobState<SJob>,
    phase: InitPhaseOutput<SJob>,
    error: JobError,
)
    requires
        phase.output == Err::<JobInitOutput<SJob::RunMetadata, SJob::Step>, JobError>(error),
    ensures
        forall|job: &mut Job<SJob, Next>, turn: RunTurn<SJob, Next>| #[trigger]
            call_ensures(
                Job::<SJob, Next>::advance,
                (job, RunEvent::InitEnded(state, phase)),
                turn,
            ) ==> {
                &&& *final(job) == *job
                &&& turn.progress is None
                &&& if error is EarlyFinish {
                    &&& ends(
                        turn.action,
                        state.init,
                        phase.maybe_data,
                        state.step_number as int,
                        seq![],
                    )
                    &&& known(turn.action) == state.run_metadata
                } else {
                    turn.action matches RunAction::Return(Err(returned)) && returned == error
                }
            },
{
}

/// After a step that went well, the next of those that were left is taken, and
/// those that it asked for come after them all; the last word comes only when
/// there are none. The step counts, its troubles come after the earlier ones, and
/// what it learned is learned, whatever else it came up with. It is told how many
/// steps have been taken and, where it asked for more, how many are left with it,
/// unless the job is a batched one.
pub proof fn law_good_step_leads_to_the_next<SJob: StatefulJob, Next: DynJob<Next>>(
    running: RunningStep<SJob>,
    output: JobStepOutput<SJob::Step, SJob::RunMetadata>,
)
    requires
        running.step_number < usize::MAX,
        running.rest@.len() + 1 + asked(output).len() <= usize::MAX,
    ensures
        forall|job: &mut Job<SJob, Next>, turn: RunTurn<SJob, Next>| #[trigger]
            call_ensures(
                Job::<SJob, Next>::advance,
                (job, RunEvent::StepEnded(running, StepPhaseEnd::Finished(Ok(output)))),
                turn,
            ) ==> {
                &&& *final(job) == *job
                &&& goes_on(
                    turn.action,
                    running.init,
                    running.data,
                    running.rest@ + asked(output),
                    running.step_number + 1,
                    running.errors@ + output.errors.0@,
                )
                &&& learns(running.run_metadata, output.maybe_more_metadata, known(turn.action))
                &&& tells(
                    turn.progress,
                    SJob::IS_BATCHED,
                    output,
                    running.step_number + 1,
                    running.rest@.len() + 1 + asked(output).len(),
                )
            },
        forall|job: &mut Job<SJob, Next>| #[trigger]
            call_requires(
                Job::<SJob, Next>::advance,
                (job, RunEvent::StepEnded(running, StepPhaseEnd::Finished(Ok(output)))),
            ),
{
}

/// A step that finishes early leads to the last word, whatever steps are left: it
/// does not count, and what was known and what troubles there were stay. One that
/// fails in any other way ends the run with its own error. Nothing is told.
pub proof fn law_step_error_ends_the_steps<SJob: StatefulJob, Next: DynJob<Next>>(
    running: RunningStep<SJob>,
    error: JobError,
)
    ensures
        forall|job: &mut Job<SJob, Next>, turn: RunTurn<SJob, Next>| #[trigger]
            call_ensures(
                Job::<SJob, Next>::advance,
                (job, RunEvent::StepEnded(running, StepPhaseEnd::Finished(Err(error)))),
                turn,
            ) ==> {
                &&& *final(job) == *job
                &&& turn.progress is None
                &&& if error is EarlyFinish {
                    &&& ends(
                        turn.action,
                        running.init,
                        Some(running.data),
                        running.step_number as int,
                        running.errors@,
                    )
                    &&& known(turn.action) == running.run_metadata
                } else {
                    turn.action matches RunAction::Return(Err(returned)) && returned == error
                }
            },
        forall|job: &mut Job<SJob, Next>| #[trigger]
            call_requires(
                Job::<SJob, Next>::advance,
                (job, RunEvent::StepEnded(running, StepPhaseEnd::Finished(Err(error)))),
            ),
{
}

/// A step that is cut short is put back before those that were left, and all that
/// the job needs to take it again is to be encoded; the signal goes along. The
/// bytes and the signal are then returned, or why there are no bytes.
pub proof fn law_cut_step_is_kept<SJob: StatefulJob, Next: DynJob<Next>>(
    running: RunningStep<SJob>,
    signal: oneshot::Sender<()>,
    encoded: Result<Vec<u8>, rmp_serde::encode::Error>,
)
    ensures
        forall|job: &mut Job<SJob, Next>, turn: RunTurn<SJob, Next>| #[trigger]
            call_ensures(
                Job::<SJob, Next>::advance,
                (job, RunEvent::StepEnded(running, StepPhaseEnd::Suspend(signal))),
                turn,
            ) ==> {
                &&& *final(job) == *job
                &&& turn.progress is None
                &&& turn.action matches RunAction::EncodeState(state, to_signal)
                &&& to_signal == signal
                &&& state.init == running.init
                &&& state.data == Some(running.data)
                &&& state.steps@.len() == running.rest@.len() + 1
                &&& state.steps@[0] == running.step
                &&& state.steps@.skip(1) == running.rest@
                &&& state.step_number == running.step_number
                &&& state.run_metadata == running.run_metadata
            },
        forall|job: &mut Job<SJob, Next>, turn: RunTurn<SJob, Next>| #[trigger]
            call_ensures(
                Job::<SJob, Next>::advance,
                (job, RunEvent::StateEncoded(encoded, signal)),
                turn,
            ) ==> {
                &&& *final(job) == *job
                &&& turn.progress is None
                &&& turn.action matches RunAction::Return(Err(returned))
                &&& match encoded {
                    Ok(bytes) => returned == JobError::Paused(bytes, signal),
                    Err(error) => returned == JobError::StateEncode(error),
                }
            },
        forall|returned: JobError| #[trigger]
            call_ensures(suspended, (encoded, signal), returned) ==> match encoded {
                Ok(bytes) => returned == JobError::Paused(bytes, signal),
                Err(error) => returned == JobError::StateEncode(error),
            },
{
    assert forall|job: &mut Job<SJob, Next>, turn: RunTurn<SJob, Next>| #[trigger]
        call_ensures(
            Job::<SJob, Next>::advance,
            (job, RunEvent::StepEnded(running, StepPhaseEnd::Suspend(signal))),
            turn,
        ) implies (turn.action matches RunAction::EncodeState(state, _) && state.steps@.skip(1)
        == running.rest@) by {
        assert(turn.action->EncodeState_0.steps@.skip(1) =~= running.rest@);
    }
}

/// An error that ends a part of a job is returned as it is, and so is one of the
/// last word: the job is as it was, and keeps its queue.
pub proof fn law_errors_are_returned<SJob: StatefulJob, Next: DynJob<Next>>(
    run: JobRun<SJob>,
    error: JobError,
)
    ensures
        forall|job: &mut Job<SJob, Next>, turn: RunTurn<SJob, Next>| #[trigger]
            call_ensures(
                Job::<SJob, Next>::advance,
                (job, RunEvent::PhaseFailed(error)),
                turn,
            ) ==> {
                &&& *final(job) == *job
                &&& turn.progress is None
                &&& turn.action matches RunAction::Return(Err(returned)) && returned == error
            },
        forall|job: &mut Job<SJob, Next>, turn: RunTurn<SJob, Next>| #[trigger]
            call_ensures(
                Job::<SJob, Next>::advance,
                (job, RunEvent::Finalized(run, Err(error))),
                turn,
            ) ==> {
                &&& *final(job) == *job
                &&& turn.progress is None
                &&& turn.action matches RunAction::Return(Err(returned)) && returned == error
            },
{
}

/// Whatever comes of what is to be done, the run can be told of it; a step that went
/// well can as long as the steps can be counted.
pub proof fn law_runs_are_never_refused<SJob: StatefulJob, Next: DynJob<Next>>(
    event: RunEvent<SJob>,
)
    requires
        !(event matches RunEvent::StepEnded(_, StepPhaseEnd::Finished(Ok(_)))),
    ensures
        forall|job: &mut Job<SJob, Next>| #[trigger]
            call_requires(Job::<SJob, Next>::advance, (job, event)),
{
}

/// A run that had its last word hands back just that word and all the troubles it
/// had, whatever they were and whoever waits for it. The first job of the queue
/// comes next, with all the others behind it, and none where the queue is empty;
/// the queue is gone, and the rest of the job is as it was.
pub proof fn law_last_word_is_handed_back<SJob: StatefulJob, Next: DynJob<Next>>(
    run: JobRun<SJob>,
    metadata: JobMetadata,
)
    ensures
        forall|job: &mut Job<SJob, Next>, turn: RunTurn<SJob, Next>| #[trigger]
            call_ensures(
                Job::<SJob, Next>::advance,
                (job, RunEvent::Finalized(run, Ok(metadata))),
                turn,
            ) ==> {
                &&& final(job).next_jobs@.len() == 0
                &&& final(job).id == job.id
                &&& final(job).hash == job.hash
                &&& final(job).report == job.report
                &&& final(job).state == job.state
                &&& turn.progress is None
                &&& turn.action matches RunAction::Return(Ok(output))
                &&& output.metadata == metadata
                &&& output.errors.0@ == run.errors@
                &&& match output.next_job {
                    Some(next) => {
                        &&& job.next_jobs@.len() > 0
                        &&& next.face().waiting == job.next_jobs@.skip(1)
                        &&& next.face().report == job.next_jobs@[0].face().report
                        &&& next.face().id == job.next_jobs@[0].face().id
                        &&& next.face().parent == job.next_jobs@[0].face().parent
                        &&& next.face().name == job.next_jobs@[0].face().name
                        &&& next.face().hash == job.next_jobs@[0].face().hash
                    },
                    None => job.next_jobs@.len() == 0,
                }
            },
{
}

/// The job that comes next after a run is the first of the queue itself, told by
/// `set_next_jobs` that the others wait for it.
pub proof fn law_next_job_is_the_queued_one<SJob: StatefulJob, Next: DynJob<Next>>(
    run: JobRun<SJob>,
    metadata: JobMetadata,
    next: Next,
)
    ensures
        forall|job: &mut Job<SJob, Next>, turn: RunTurn<SJob, Next>|
            (turn.action matches RunAction::Return(Ok(output)) && output.next_job == Some(next))
                && #[trigger] call_ensures(
                Job::<SJob, Next>::advance,
                (job, RunEvent::Finalized(run, Ok(metadata))),
                turn,
            ) ==> exists|head: &mut Next, rest: VecDeque<Next>|
                {
                    &&& *head == job.next_jobs@[0]
                    &&& rest@ == job.next_jobs@.skip(1)
                    &&& *final(head) == next
                    &&& #[trigger] call_ensures(
                        <Next as DynJob<Next>>::set_next_jobs,
                        (head, rest),
                        (),
                    )
                },
        forall|queue: VecDeque<Next>|
            #![trigger call_ensures(crate::job::hand_over::<Next>, (queue,), Some(next))]
            call_ensures(crate::job::hand_over::<Next>, (queue,), Some(next)) ==> {
                &&& queue@.len() > 0
                &&& next.face() == (JobFace { waiting: queue@.skip(1), ..queue@[0].face() })
            },
        forall|queue: VecDeque<Next>|
            #![trigger call_ensures(crate::job::hand_over::<Next>, (queue,), None)]
            call_ensures(crate::job::hand_over::<Next>, (queue,), None) ==> queue@.len() == 0,
{
}

/// The pieces of a run agree with its turns. A state without data starts with the
/// first part and one with data goes on. The next step is the first of those that
/// are left, and there is one exactly when the job has data, wants to go on and has
/// steps left.
pub proof fn law_next_step_is_the_first_left<SJob: StatefulJob>(
    state: JobState<SJob>,
    run: JobRun<SJob>,
)
    ensures
        forall|start: RunStart<SJob>| #[trigger]
            call_ensures(JobRun::<SJob>::start, (state,), start) ==> match state.data {
                None => start matches RunStart::Init(first) && first == state,
                Some(_) => {
                    &&& start matches RunStart::Ready(ready)
                    &&& ready.init == state.init
                    &&& ready.data == state.data
                    &&& ready.steps@ == state.steps@
                    &&& ready.step_number == state.step_number
                    &&& ready.run_metadata == state.run_metadata
                    &&& ready.errors@.len() == 0
                    &&& ready.should_run
                },
            },
        forall|next: NextStep<SJob>| #[trigger]
            call_ensures(JobRun::<SJob>::next_step, (run,), next) ==> if run.data is Some
                && run.should_run && run.steps@.len() > 0 {
                &&& next matches NextStep::Execute(running)
                &&& running.init == run.init
                &&& Some(running.data) == run.data
                &&& running.step == run.steps@[0]
                &&& running.rest@ == run.steps@.skip(1)
                &&& running.step_number == run.step_number
                &&& running.run_metadata == run.run_metadata
                &&& running.errors@ == run.errors@
            } else {
                next matches NextStep::Finalize(last) && last == run
            },
{
}

/// What a run makes of its first part: with a good one it wants to go on with the
/// steps and troubles of that part, whatever they are; with an early finish it does
/// not want to go on; any other error is the run's.
pub proof fn law_init_sets_the_run_up<SJob: StatefulJob>(
    state: JobState<SJob>,
    phase: InitPhaseOutput<SJob>,
)
    ensures
        forall|r: Result<JobRun<SJob>, JobError>| #[trigger]
            call_ensures(JobRun::<SJob>::after_init, (state, phase), r) ==> match phase.output {
                Ok(output) => {
                    &&& r matches Ok(run)
                    &&& run.init == state.init
                    &&& run.data == phase.maybe_data
                    &&& run.steps@ == output.steps@
                    &&& run.step_number == state.step_number
                    &&& SJob::RunMetadata::updates(
                        state.run_metadata,
                        output.run_metadata,
                        run.run_metadata,
                    )
                    &&& run.errors@ == output.errors.0@
                    &&& run.should_run
                },
                Err(error) => if error is EarlyFinish {
                    &&& r matches Ok(run)
                    &&& run.init == state.init
                    &&& run.data == phase.maybe_data
                    &&& run.step_number == state.step_number
                    &&& run.run_metadata == state.run_metadata
                    &&& run.errors@.len() == 0
                    &&& !run.should_run
                } else {
                    r == Err::<JobRun<SJob>, JobError>(error)
                },
            },
{
}

/// What a run makes of a step: with a good one it wants to go on, with what was
/// left and what was asked for, having learned what the step learned, whatever
/// else the step came up with; with an early finish it does not want to go on; any
/// other error is the run's.
pub proof fn law_step_moves_the_run_on<SJob: StatefulJob>(
    running: RunningStep<SJob>,
    output: Result<JobStepOutput<SJob::Step, SJob::RunMetadata>, JobError>,
)
    ensures
        forall|r: Result<StepDone<SJob>, JobError>| #[trigger]
            call_ensures(
                RunningStep::<SJob>::complete_step,
                (running, output),
                r,
            ) ==> match output {
                Ok(output) => {
                    &&& r matches Ok(done)
                    &&& done.run.init == running.init
                    &&& done.run.data == Some(running.data)
                    &&& done.run.steps@ == running.rest@ + asked(output)
                    &&& done.run.step_number == running.step_number + 1
                    &&& learns(
                        running.run_metadata,
                        output.maybe_more_metadata,
                        done.run.run_metadata,
                    )
                    &&& done.run.errors@ == running.errors@ + output.errors.0@
                    &&& done.run.should_run
                    &&& running.rest@.len() + 1 + asked(output).len() <= usize::MAX ==> tells(
                        done.progress,
                        SJob::IS_BATCHED,
                        output,
                        running.step_number + 1,
                        running.rest@.len() + 1 + asked(output).len(),
                    )
                },
                Err(error) => if error is EarlyFinish {
                    &&& r matches Ok(done)
                    &&& done.progress is None
                    &&& done.run.init == running.init
                    &&& done.run.data == Some(running.data)
                    &&& done.run.step_number == running.step_number
                    &&& done.run.run_metadata == running.run_metadata
                    &&& done.run.errors@ == running.errors@
                    &&& !done.run.should_run
                } else {
                    r == Err::<StepDone<SJob>, JobError>(error)
                },
            },
        forall|state: JobState<SJob>| #[trigger]
            call_ensures(RunningStep::<SJob>::interrupt, (running,), state) ==> {
                &&& state.init == running.init
                &&& state.data == Some(running.data)
                &&& state.steps@ == seq![running.step] + running.rest@
                &&& state.step_number == running.step_number
                &&& state.run_metadata == running.run_metadata
            },
        forall|current: CurrentStep<'_, SJob::Step>| #[trigger]
            call_ensures(RunningStep::<SJob>::current, (&running,), current) ==> *current.step
                == running.step && current.step_number == running.step_number,
{
}

/// Once the first part of a job has come up with its steps, it is told how many
/// there are, and nothing else; nothing is told where it failed, or where the job
/// is a batched one.
pub proof fn law_steps_are_announced<SJob: StatefulJob>(
    output: Result<JobInitOutput<SJob::RunMetadata, SJob::Step>, JobError>,
)
    ensures
        forall|progress: Option<Vec<JobReportUpdate>>|
            (output matches Ok(output) ==> output.steps@.len() <= usize::MAX)
                && #[trigger] call_ensures(init_progress::<SJob>, (&output,), progress)
                ==> match output {
                Ok(output) => if SJob::IS_BATCHED {
                    progress is None
                } else {
                    &&& progress matches Some(told)
                    &&& told@.len() == 1
                    &&& told@[0] matches JobReportUpdate::TaskCount(count) && count
                        == output.steps@.len()
                },
                Err(_) => progress is None,
            },
{
}

/// The steps that the first `count` of `outputs` ask for, in order.
pub open spec fn all_asked<Step, RunMetadata>(
    outputs: Seq<JobStepOutput<Step, RunMetadata>>,
    count: nat,
) -> Seq<Step>
    decreases count,
{
    if count == 0 {
        seq![]
    } else {
        all_asked(outputs, (count - 1) as nat) + asked(outputs[count - 1])
    }
}

/// The troubles of the first `count` of `outputs`, in order.
pub open spec fn all_troubles<Step, RunMetadata>(
    outputs: Seq<JobStepOutput<Step, RunMetadata>>,
    count: nat,
) -> Seq<String>
    decreases count,
{
    if count == 0 {
        seq![]
    } else {
        all_troubles(outputs, (count - 1) as nat) + outputs[count - 1].errors.0@
    }
}

/// Whether a run goes through the steps `taken`, which come up with `outputs`, as
/// each of `turns` calls for, from after its first part on.
pub open spec fn is_course<SJob: StatefulJob, Next: DynJob<Next>>(
    queue: Seq<Next>,
    taken: Seq<RunningStep<SJob>>,
    outputs: Seq<JobStepOutput<SJob::Step, SJob::RunMetadata>>,
    turns: Seq<RunTurn<SJob, Next>>,
) -> bool {
    &&& turns.len() == taken.len() + 1
    &&& outputs.len() == taken.len()
    &&& forall|i: int|
        #![trigger taken[i]]
        0 <= i < taken.len() ==> {
            &&& turns[i].action == RunAction::<SJob, Next>::RunStep(taken[i])
            &&& is_turn(
                queue,
                RunEvent::StepEnded(taken[i], StepPhaseEnd::Finished(Ok(outputs[i]))),
                turns[i + 1],
            )
        }
}

/// A run whose parts all go well takes every step that its first part came up with
/// and every step that was asked for, each once and in that order, and only then
/// has its last word. Each step is shown its number and the data of the first
/// part. What is learned is what the parts learned, one after the other, each
/// adding to what was known before it, whatever else they came up with. What comes
/// back is the last word, and the troubles of all parts in order.
pub proof fn law_whole_run<SJob: StatefulJob, Next: DynJob<Next>>(
    queue: Seq<Next>,
    state: JobState<SJob>,
    phase: InitPhaseOutput<SJob>,
    data: SJob::Data,
    first: JobInitOutput<SJob::RunMetadata, SJob::Step>,
    taken: Seq<RunningStep<SJob>>,
    outputs: Seq<JobStepOutput<SJob::Step, SJob::RunMetadata>>,
    turns: Seq<RunTurn<SJob, Next>>,
    last: JobRun<SJob>,
    metadata: JobMetadata,
    over: RunTurn<SJob, Next>,
)
    requires
        phase.maybe_data == Some(data),
        phase.output == Ok::<JobInitOutput<SJob::RunMetadata, SJob::Step>, JobError>(first),
        is_course(queue, taken, outputs, turns),
        is_turn(queue, RunEvent::InitEnded(state, phase), turns[0]),
        turns.last().action == RunAction::<SJob, Next>::RunFinalize(last),
        is_turn(queue, RunEvent::Finalized(last, Ok(metadata)), over),
    ensures
        taken.map_values(|running: RunningStep<SJob>| running.step) == first.steps@ + all_asked(
            outputs,
            outputs.len(),
        ),
        forall|i: int|
            0 <= i < taken.len() ==> {
                &&& (#[trigger] taken[i]).init == state.init
                &&& taken[i].data == data
                &&& taken[i].step_number == state.step_number + i
            },
        last.init == state.init,
        last.data == Some(data),
        last.step_number == state.step_number + taken.len(),
        SJob::RunMetadata::updates(
            state.run_metadata,
            first.run_metadata,
            known(turns[0].action),
        ),
        forall|i: int|
            #![trigger taken[i]]
            0 <= i < taken.len() ==> taken[i].run_metadata == known(turns[i].action) && learns(
                taken[i].run_metadata,
                outputs[i].maybe_more_metadata,
                known(turns[i + 1].action),
            ),
        last.run_metadata == known(turns.last().action),
        over.action matches RunAction::Return(Ok(output)) && output.metadata == metadata
            && output.errors.0@ == first.errors.0@ + all_troubles(outputs, outputs.len()),
{
    lemma_course(queue, state, phase, data, first, taken, outputs, turns, taken.len());
    assert forall|i: int| 0 <= i < taken.len() implies {
        &&& (#[trigger] taken[i]).init == state.init
        &&& taken[i].data == data
        &&& taken[i].step_number == state.step_number + i
        &&& taken[i].run_metadata == known(turns[i].action)
        &&& learns(
            taken[i].run_metadata,
            outputs[i].maybe_more_metadata,
            known(turns[i + 1].action),
        )
    } by {
        lemma_course(queue, state, phase, data, first, taken, outputs, turns, i as nat);
        lemma_good_step(queue, taken[i], outputs[i], turns[i + 1]);
    }
    let n: int = taken.len() as int;
    let all = first.steps@ + all_asked(outputs, n as nat);
    let steps = taken.map_values(|running: RunningStep<SJob>| running.step);
    assert(all.len() == n);
    assert forall|i: int| 0 <= i < n implies steps[i] == all[i] by {
        assert(taken[i].step == all[i]) by {
            lemma_course(queue, state, phase, data, first, taken, outputs, turns, i as nat);
            lemma_asked_so_far(outputs, i as nat, n as nat);
        }
    }
    assert(steps =~= all);
}

/// What comes after a good step, as far as the course of a run is concerned.
proof fn lemma_good_step<SJob: StatefulJob, Next: DynJob<Next>>(
    queue: Seq<Next>,
    running: RunningStep<SJob>,
    output: JobStepOutput<SJob::Step, SJob::RunMetadata>,
    turn: RunTurn<SJob, Next>,
)
    requires
        is_turn(queue, RunEvent::StepEnded(running, StepPhaseEnd::Finished(Ok(output))), turn),
    ensures
        goes_on(
            turn.action,
            running.init,
            running.data,
            running.rest@ + asked(output),
            running.step_number + 1,
            running.errors@ + output.errors.0@,
        ),
        learns(running.run_metadata, output.maybe_more_metadata, known(turn.action)),
{
}

/// Where a run stands after `count` steps: as many of all the steps known by then
/// have been taken, and the others are left.
proof fn lemma_course<SJob: StatefulJob, Next: DynJob<Next>>(
    queue: Seq<Next>,
    state: JobState<SJob>,
    phase: InitPhaseOutput<SJob>,
    data: SJob::Data,
    first: JobInitOutput<SJob::RunMetadata, SJob::Step>,
    taken: Seq<RunningStep<SJob>>,
    outputs: Seq<JobStepOutput<SJob::Step, SJob::RunMetadata>>,
    turns: Seq<RunTurn<SJob, Next>>,
    count: nat,
)
    requires
        phase.maybe_data == Some(data),
        phase.output == Ok::<JobInitOutput<SJob::RunMetadata, SJob::Step>, JobError>(first),
        is_course(queue, taken, outputs, turns),
        is_turn(queue, RunEvent::InitEnded(state, phase), turns[0]),
        count <= taken.len(),
    ensures
        count <= (first.steps@ + all_asked(outputs, count)).len(),
        goes_on(
            turns[count as int].action,
            state.init,
            data,
            (first.steps@ + all_asked(outputs, count)).skip(count as int),
            state.step_number + count,
            first.errors.0@ + all_troubles(outputs, count),
        ),
        count == 0 ==> SJob::RunMetadata::updates(
            state.run_metadata,
            first.run_metadata,
            known(turns[0].action),
        ),
    decreases count,
{
    if count == 0 {
        assert((first.steps@ + all_asked(outputs, 0)).skip(0) =~= first.steps@);
        assert(first.errors.0@ + all_troubles(outputs, 0) =~= first.errors.0@);
    } else {
        let n: int = count - 1;
        lemma_course(queue, state, phase, data, first, taken, outputs, turns, n as nat);
        assert(turns[n].action == RunAction::<SJob, Next>::RunStep(taken[n]));
        let before = first.steps@ + all_asked(outputs, n as nat);
        let after = first.steps@ + all_asked(outputs, count);
        lemma_good_step(queue, taken[n], outputs[n], turns[n + 1]);
        assert(after =~= before + asked(outputs[n]));
        assert(taken[n].rest@ =~= before.skip(count as int));
        assert(taken[n].rest@ + asked(outputs[n]) =~= after.skip(count as int));
        assert(taken[n].errors@ + outputs[n].errors.0@ =~= first.errors.0@ + all_troubles(
            outputs,
            count,
        ));
    }
}

/// What has been asked for early comes first in what has been asked for later.
proof fn lemma_asked_so_far<Step, RunMetadata>(
    outputs: Seq<JobStepOutput<Step, RunMetadata>>,
    early: nat,
    late: nat,
)
    requires
        early <= late,
    ensures
        all_asked(outputs, early).len() <= all_asked(outputs, late).len(),
        all_asked(outputs, late).take(all_asked(outputs, early).len() as int) == all_asked(
            outputs,
            early,
        ),
    decreases late,
{
    if early < late {
        lemma_asked_so_far(outputs, early, (late - 1) as nat);
    }
    assert(all_asked(outputs, late).take(all_asked(outputs, early).len() as int) =~= all_asked(
        outputs,
        early,
    ));
}

} // verus!
