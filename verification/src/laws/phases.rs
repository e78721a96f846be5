//! What holds of the parts of a job at work, event by event, and of what comes of
//! their ends.

use crate::engine::{RunAction, RunEvent, RunTurn};
use crate::error::JobError;
use crate::job::{Job, JobState};
use crate::phase::{
    handle_init_phase, handle_single_step, InitPhaseOutput, InitTaskOutput, PhaseControl,
    PhaseEffect, PhaseEvent, PhaseStep, StepPhaseEnd, StepTaskOutput, StreamMessage,
};
use crate::report::JobStatus;
use crate::run::RunningStep;
use crate::stateful::{DynJob, StatefulJob};
use crate::worker::{JobIdentity, JobRunWorkTable, WorkerCommand};
use std::time::{Duration, Instant};
use tokio::sync::oneshot;
use tokio::task::JoinError;
use vstd::prelude::*;

verus! {

/// Whether `event` brings `command`, to a part at work or to one that is paused.
pub open spec fn brings<T>(event: PhaseEvent<T>, command: WorkerCommand) -> bool {
    ||| event == PhaseEvent::<T>::Message(StreamMessage::NewCommand(command))
    ||| event == PhaseEvent::<T>::PausedCommand(command)
}

/// Whether a part that stands at `control` goes on where it is and does `effects`.
pub open spec fn stays<R>(
    step: PhaseStep<R>,
    control: PhaseControl,
    effects: Seq<PhaseEffect>,
) -> bool {
    &&& step.control == control
    &&& step.effects@ == effects
    &&& step.end is None
}

/// Whether a part that stands at `control` ends with `end` after it has done
/// `effects`.
pub open spec fn stops<R>(
    step: PhaseStep<R>,
    control: PhaseControl,
    effects: Seq<PhaseEffect>,
    end: Result<R, JobError>,
) -> bool {
    &&& step.control == control
    &&& step.effects@ == effects
    &&& step.end == Some(end)
}

/// What the task of a part comes back with is handed on as it is, good or bad, and
/// nothing is done about it: no outcome of the task is an error of the part.
pub proof fn law_task_results_are_handed_on<SJob: StatefulJob>(
    table: JobRunWorkTable,
    control: PhaseControl,
    result: InitTaskOutput<SJob>,
    output: StepTaskOutput<SJob>,
)
    ensures
        forall|step: PhaseStep<InitPhaseOutput<SJob>>| #[trigger]
            call_ensures(
                handle_init_phase::<SJob>,
                (&table, control, PhaseEvent::Message(StreamMessage::TaskResult(Ok(result)))),
                step,
            ) ==> {
                &&& step.control == control
                &&& step.effects@.len() == 0
                &&& step.end matches Some(Ok(end))
                &&& end.maybe_data == result.0
                &&& end.output == result.1
            },
        forall|step: PhaseStep<StepPhaseEnd<SJob>>| #[trigger]
            call_ensures(
                handle_single_step::<SJob>,
                (&table, control, PhaseEvent::Message(StreamMessage::TaskResult(Ok(output)))),
                step,
            ) ==> stops(step, control, seq![], Ok(StepPhaseEnd::Finished(output))),
{
}

/// A step whose task finds that there is nothing left to do leads to the last word
/// of the job, and so does a first part: the part ends well, and what is to be
/// done after it is to have the last word, never to return. The last word is had
/// with the data there is and with the troubles there were.
pub proof fn law_early_finish_leads_to_the_last_word<SJob: StatefulJob, Next: DynJob<Next>>(
    table: JobRunWorkTable,
    control: PhaseControl,
    error: JobError,
    state: JobState<SJob>,
    maybe_data: Option<SJob::Data>,
    init_step: PhaseStep<InitPhaseOutput<SJob>>,
    running: RunningStep<SJob>,
    step: PhaseStep<StepPhaseEnd<SJob>>,
)
    requires
        error is EarlyFinish,
        call_ensures(
            handle_init_phase::<SJob>,
            (
                &table,
                control,
                PhaseEvent::Message(StreamMessage::TaskResult(Ok((maybe_data, Err(error))))),
            ),
            init_step,
        ),
        call_ensures(
            handle_single_step::<SJob>,
            (&table, control, PhaseEvent::Message(StreamMessage::TaskResult(Ok(Err(error))))),
            step,
        ),
    ensures
        init_step.end matches Some(Ok(_)),
        step.end matches Some(Ok(_)),
        forall|job: &mut Job<SJob, Next>, turn: RunTurn<SJob, Next>| #[trigger]
            call_ensures(
                Job::<SJob, Next>::advance,
                (job, RunEvent::InitEnded(state, init_step.end->0->Ok_0)),
                turn,
            ) ==> (turn.action matches RunAction::RunFinalize(last) && last.data == maybe_data
                && last.errors@.len() == 0),
        forall|job: &mut Job<SJob, Next>, turn: RunTurn<SJob, Next>| #[trigger]
            call_ensures(
                Job::<SJob, Next>::advance,
                (job, RunEvent::StepEnded(running, step.end->0->Ok_0)),
                turn,
            ) ==> (turn.action matches RunAction::RunFinalize(last) && last.data == Some(
                running.data,
            ) && last.errors@ == running.errors@ && last.run_metadata == running.run_metadata),
{
}

/// A task that broke off ends its part with what became of the task.
pub proof fn law_broken_task_ends_its_part<SJob: StatefulJob>(
    table: JobRunWorkTable,
    control: PhaseControl,
    error: JoinError,
)
    ensures
        forall|step: PhaseStep<InitPhaseOutput<SJob>>| #[trigger]
            call_ensures(
                handle_init_phase::<SJob>,
                (&table, control, PhaseEvent::Message(StreamMessage::TaskResult(Err(error)))),
                step,
            ) ==> stops(step, control, seq![], Err(JobError::JoinTask(error))),
        forall|step: PhaseStep<StepPhaseEnd<SJob>>| #[trigger]
            call_ensures(
                handle_single_step::<SJob>,
                (&table, control, PhaseEvent::Message(StreamMessage::TaskResult(Err(error)))),
                step,
            ) ==> stops(step, control, seq![], Err(JobError::JoinTask(error))),
{
}

/// A part that has nothing left to wait for ends in a critical error: where
/// messages run out before the task is back, and where the channel of the commands
/// is closed while only a command can help. Where that channel is open, a paused
/// part looks for messages again, and says what it said before.
pub proof fn law_ended_waits<SJob: StatefulJob>(table: JobRunWorkTable, control: PhaseControl)
    ensures
        forall|step: PhaseStep<InitPhaseOutput<SJob>>| #[trigger]
            call_ensures(
                handle_init_phase::<SJob>,
                (&table, control, PhaseEvent::MessagesEnded),
                step,
            ) ==> stops(
                step,
                control,
                seq![],
                Err(JobError::Critical("unexpect job init end without result")),
            ),
        forall|step: PhaseStep<StepPhaseEnd<SJob>>| #[trigger]
            call_ensures(
                handle_single_step::<SJob>,
                (&table, control, PhaseEvent::MessagesEnded),
                step,
            ) ==> stops(
                step,
                control,
                seq![],
                Err(JobError::Critical("unexpect job step end without result")),
            ),
        forall|step: PhaseStep<InitPhaseOutput<SJob>>| #[trigger]
            call_ensures(
                handle_init_phase::<SJob>,
                (&table, control, PhaseEvent::PausedCommandsEnded { closed: true }),
                step,
            ) ==> stops(
                step,
                control,
                seq![],
                Err(JobError::Critical("worker command channel closed while job was paused")),
            ),
        forall|step: PhaseStep<StepPhaseEnd<SJob>>| #[trigger]
            call_ensures(
                handle_single_step::<SJob>,
                (&table, control, PhaseEvent::PausedCommandsEnded { closed: true }),
                step,
            ) ==> stops(
                step,
                control,
                seq![],
                Err(JobError::Critical("worker command channel closed while job was paused")),
            ),
        forall|step: PhaseStep<InitPhaseOutput<SJob>>| #[trigger]
            call_ensures(
                handle_init_phase::<SJob>,
                (&table, control, PhaseEvent::PausedCommandsEnded { closed: false }),
                step,
            ) ==> stays(step, PhaseControl { status: control.status, paused: false }, seq![]),
        forall|step: PhaseStep<StepPhaseEnd<SJob>>| #[trigger]
            call_ensures(
                handle_single_step::<SJob>,
                (&table, control, PhaseEvent::PausedCommandsEnded { closed: false }),
                step,
            ) ==> stays(step, PhaseControl { status: control.status, paused: false }, seq![]),
{
}

/// A job that is asked who it is answers whoever asked, with its own identifier,
/// name and location and with where it stands, in every part, paused or not; it
/// does nothing else, and goes on as it was.
pub proof fn law_job_answers_to_its_name<SJob: StatefulJob>(
    table: JobRunWorkTable,
    control: PhaseControl,
    tx: oneshot::Sender<JobIdentity>,
    identity: JobIdentity,
)
    requires
        identity.id == table.id,
        identity.name == table.name,
        identity.target_location == table.target_location,
        identity.status == control.status,
    ensures
        forall|event: PhaseEvent<InitTaskOutput<SJob>>, step: PhaseStep<InitPhaseOutput<SJob>>|
            brings(event, WorkerCommand::IdentifyYourself(tx)) && #[trigger] call_ensures(
                handle_init_phase::<SJob>,
                (&table, control, event),
                step,
            ) ==> stays(step, control, seq![PhaseEffect::Reply(tx, identity)]),
        forall|event: PhaseEvent<StepTaskOutput<SJob>>, step: PhaseStep<StepPhaseEnd<SJob>>|
            brings(event, WorkerCommand::IdentifyYourself(tx)) && #[trigger] call_ensures(
                handle_single_step::<SJob>,
                (&table, control, event),
                step,
            ) ==> stays(step, control, seq![PhaseEffect::Reply(tx, identity)]),
        forall|r: JobIdentity| #[trigger]
            call_ensures(JobRunWorkTable::identify, (&table, control.status), r) ==> r == identity,
{
}

/// A job that is told to pause is paused after that, in every part; its worker is
/// notified when it was not paused before, and only then. The task goes on.
pub proof fn law_pause_pauses<SJob: StatefulJob>(
    table: JobRunWorkTable,
    control: PhaseControl,
    when: Instant,
)
    ensures
        forall|event: PhaseEvent<InitTaskOutput<SJob>>, step: PhaseStep<InitPhaseOutput<SJob>>|
            brings(event, WorkerCommand::Pause(when)) && #[trigger] call_ensures(
                handle_init_phase::<SJob>,
                (&table, control, event),
                step,
            ) ==> stays(
                step,
                PhaseControl { status: JobStatus::Paused, paused: true },
                if control.paused {
                    seq![]
                } else {
                    seq![PhaseEffect::NotifyPaused]
                },
            ),
        forall|event: PhaseEvent<StepTaskOutput<SJob>>, step: PhaseStep<StepPhaseEnd<SJob>>|
            brings(event, WorkerCommand::Pause(when)) && #[trigger] call_ensures(
                handle_single_step::<SJob>,
                (&table, control, event),
                step,
            ) ==> stays(
                step,
                PhaseControl { status: JobStatus::Paused, paused: true },
                if control.paused {
                    seq![]
                } else {
                    seq![PhaseEffect::NotifyPaused]
                },
            ),
{
}

/// A paused job that is told to resume is running after that, in every part; one
/// that is not paused does not heed it. Nothing is done in either case.
pub proof fn law_resume_resumes<SJob: StatefulJob>(
    table: JobRunWorkTable,
    control: PhaseControl,
    when: Instant,
)
    ensures
        forall|event: PhaseEvent<InitTaskOutput<SJob>>, step: PhaseStep<InitPhaseOutput<SJob>>|
            brings(event, WorkerCommand::Resume(when)) && #[trigger] call_ensures(
                handle_init_phase::<SJob>,
                (&table, control, event),
                step,
            ) ==> stays(
                step,
                if control.paused {
                    PhaseControl { status: JobStatus::Running, paused: false }
                } else {
                    control
                },
                seq![],
            ),
        forall|event: PhaseEvent<StepTaskOutput<SJob>>, step: PhaseStep<StepPhaseEnd<SJob>>|
            brings(event, WorkerCommand::Resume(when)) && #[trigger] call_ensures(
                handle_single_step::<SJob>,
                (&table, control, event),
                step,
            ) ==> stays(
                step,
                if control.paused {
                    PhaseControl { status: JobStatus::Running, paused: false }
                } else {
                    control
                },
                seq![],
            ),
{
}

/// A job that is canceled ends as canceled, in every part, paused or not, with the
/// signal that came with the word; its task is aborted first, and that of a step
/// awaited.
pub proof fn law_cancel_cancels<SJob: StatefulJob>(
    table: JobRunWorkTable,
    control: PhaseControl,
    when: Instant,
    signal: oneshot::Sender<()>,
)
    ensures
        forall|event: PhaseEvent<InitTaskOutput<SJob>>, step: PhaseStep<InitPhaseOutput<SJob>>|
            brings(event, WorkerCommand::Cancel(when, signal)) && #[trigger] call_ensures(
                handle_init_phase::<SJob>,
                (&table, control, event),
                step,
            ) ==> stops(
                step,
                control,
                seq![PhaseEffect::AbortTask],
                Err(JobError::Canceled(signal)),
            ),
        forall|event: PhaseEvent<StepTaskOutput<SJob>>, step: PhaseStep<StepPhaseEnd<SJob>>|
            brings(event, WorkerCommand::Cancel(when, signal)) && #[trigger] call_ensures(
                handle_single_step::<SJob>,
                (&table, control, event),
                step,
            ) ==> stops(
                step,
                control,
                seq![PhaseEffect::AbortTask, PhaseEffect::JoinTask],
                Err(JobError::Canceled(signal)),
            ),
{
}

/// A job that is shut down in its first part ends as canceled, and in a step it is
/// suspended, paused or not, with the signal that came with the word; its task is
/// aborted first, and that of a step awaited.
pub proof fn law_shutdown_shuts_down<SJob: StatefulJob>(
    table: JobRunWorkTable,
    control: PhaseControl,
    when: Instant,
    signal: oneshot::Sender<()>,
)
    ensures
        forall|event: PhaseEvent<InitTaskOutput<SJob>>, step: PhaseStep<InitPhaseOutput<SJob>>|
            brings(event, WorkerCommand::Shutdown(when, signal)) && #[trigger] call_ensures(
                handle_init_phase::<SJob>,
                (&table, control, event),
                step,
            ) ==> stops(
                step,
                control,
                seq![PhaseEffect::AbortTask],
                Err(JobError::Canceled(signal)),
            ),
        forall|event: PhaseEvent<StepTaskOutput<SJob>>, step: PhaseStep<StepPhaseEnd<SJob>>|
            brings(event, WorkerCommand::Shutdown(when, signal)) && #[trigger] call_ensures(
                handle_single_step::<SJob>,
                (&table, control, event),
                step,
            ) ==> stops(
                step,
                control,
                seq![PhaseEffect::AbortTask, PhaseEffect::JoinTask],
                Ok(StepPhaseEnd::Suspend(signal)),
            ),
{
}

/// A job that has given no sign of life for too long says that it has heard so,
/// and ends with how long it was, in every part, paused or not.
pub proof fn law_timeout_ends<SJob: StatefulJob>(
    table: JobRunWorkTable,
    control: PhaseControl,
    elapsed: Duration,
    tx: oneshot::Sender<()>,
)
    ensures
        forall|event: PhaseEvent<InitTaskOutput<SJob>>, step: PhaseStep<InitPhaseOutput<SJob>>|
            brings(event, WorkerCommand::Timeout(elapsed, tx)) && #[trigger] call_ensures(
                handle_init_phase::<SJob>,
                (&table, control, event),
                step,
            ) ==> stops(
                step,
                control,
                seq![PhaseEffect::Acknowledge(tx)],
                Err(JobError::Timeout(elapsed)),
            ),
        forall|event: PhaseEvent<StepTaskOutput<SJob>>, step: PhaseStep<StepPhaseEnd<SJob>>|
            brings(event, WorkerCommand::Timeout(elapsed, tx)) && #[trigger] call_ensures(
                handle_single_step::<SJob>,
                (&table, control, event),
                step,
            ) ==> stops(
                step,
                control,
                seq![PhaseEffect::Acknowledge(tx)],
                Err(JobError::Timeout(elapsed)),
            ),
{
}

/// A part begins as one that is running. From there on every event that it waits
/// for can be handled, wherever earlier events have brought it: messages where it
/// is not paused, and commands where it is.
pub proof fn law_phases_never_get_stuck<SJob: StatefulJob>(
    table: JobRunWorkTable,
    before: PhaseControl,
    init_event: PhaseEvent<InitTaskOutput<SJob>>,
    init_step: PhaseStep<InitPhaseOutput<SJob>>,
    event: PhaseEvent<StepTaskOutput<SJob>>,
    step: PhaseStep<StepPhaseEnd<SJob>>,
)
    requires
        call_ensures(handle_init_phase::<SJob>, (&table, before, init_event), init_step),
        call_ensures(handle_single_step::<SJob>, (&table, before, event), step),
    ensures
        forall|control: PhaseControl| #[trigger]
            call_ensures(PhaseControl::new, (), control) ==> {
                &&& control.status == JobStatus::Running
                &&& !control.paused
                &&& handles_all::<SJob>(table, control)
            },
        handles_all::<SJob>(table, init_step.control),
        handles_all::<SJob>(table, step.control),
{
}

/// Whether a part that stands at `control` handles whatever it can be told then.
pub open spec fn handles_all<SJob: StatefulJob>(
    table: JobRunWorkTable,
    control: PhaseControl,
) -> bool {
    if control.paused {
        &&& forall|command: WorkerCommand| #[trigger]
            call_requires(
                handle_init_phase::<SJob>,
                (&table, control, PhaseEvent::PausedCommand(command)),
            )
        &&& forall|command: WorkerCommand| #[trigger]
            call_requires(
                handle_single_step::<SJob>,
                (&table, control, PhaseEvent::PausedCommand(command)),
            )
        &&& forall|closed: bool| #[trigger]
            call_requires(
                handle_init_phase::<SJob>,
                (&table, control, PhaseEvent::PausedCommandsEnded { closed }),
            )
        &&& forall|closed: bool| #[trigger]
            call_requires(
                handle_single_step::<SJob>,
                (&table, control, PhaseEvent::PausedCommandsEnded { closed }),
            )
    } else {
        &&& forall|message: StreamMessage<InitTaskOutput<SJob>>| #[trigger]
            call_requires(
                handle_init_phase::<SJob>,
                (&table, control, PhaseEvent::Message(message)),
            )
        &&& forall|message: StreamMessage<StepTaskOutput<SJob>>| #[trigger]
            call_requires(
                handle_single_step::<SJob>,
                (&table, control, PhaseEvent::Message(message)),
            )
        &&& call_requires(handle_init_phase::<SJob>, (&table, control, PhaseEvent::MessagesEnded))
        &&& call_requires(handle_single_step::<SJob>, (&table, control, PhaseEvent::MessagesEnded))
    }
}

} // verus!
