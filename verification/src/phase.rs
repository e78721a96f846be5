//! One part of a job at work: its task runs, and the worker may have a word
//! with it at any time.
//!
//! A phase waits either for messages, which are the result of the task and the
//! worker's commands as they come, or, while it is paused, for commands alone.
//! `handle_init_phase` and `handle_single_step` say what becomes of it with
//! each event that the wait yields.

use crate::error::JobError;
use crate::output::{JobInitOutput, JobStepOutput};
use crate::report::JobStatus;
use crate::stateful::StatefulJob;
use crate::worker::{JobIdentity, JobRunWorkTable, WorkerCommand};
use std::time::Duration;
use tokio::sync::oneshot;
use tokio::task::JoinError;
use vstd::prelude::*;

verus! {

/// No command can come any more, while only a command can help.
pub const CHANNEL_CLOSED: &'static str = "worker command channel closed while job was paused";

/// Nothing can come any more, and the first part of the job has not ended.
pub const INIT_WITHOUT_RESULT: &'static str = "unexpect job init end without result";

/// Nothing can come any more, and the step has not ended.
pub const STEP_WITHOUT_RESULT: &'static str = "unexpect job step end without result";

/// What comes to a phase that is not paused.
pub enum StreamMessage<T> {
    NewCommand(WorkerCommand),
    TaskResult(Result<T, JoinError>),
}

/// What a wait yields.
pub enum PhaseEvent<T> {
    /// A message.
    Message(StreamMessage<T>),
    /// There are no messages any more.
    MessagesEnded,
    /// A command, for a phase that is paused.
    PausedCommand(WorkerCommand),
    /// No command is left for a phase that is paused.
    PausedCommandsEnded { closed: bool },
}

/// Where a phase stands.
#[derive(Debug, Clone, Copy)]
pub struct PhaseControl {
    /// What the job says when it is asked.
    pub status: JobStatus,
    /// Whether the phase waits for commands alone.
    pub paused: bool,
}

/// What is to be done, in order, before the phase goes on or ends.
pub enum PhaseEffect {
    /// Send the identity of the job.
    Reply(oneshot::Sender<JobIdentity>, JobIdentity),
    /// Let the worker know that the job is paused.
    NotifyPaused,
    /// Abort the task.
    AbortTask,
    /// Wait until the task is gone.
    JoinTask,
    /// Send the signal.
    Acknowledge(oneshot::Sender<()>),
}

/// What becomes of a phase with an event.
pub struct PhaseStep<R> {
    pub control: PhaseControl,
    pub effects: Vec<PhaseEffect>,
    /// How the phase ends; nothing while it goes on.
    pub end: Option<Result<R, JobError>>,
}

/// What the task of the first part of a job comes back with.
pub type InitTaskOutput<SJob> = (
    Option<<SJob as StatefulJob>::Data>,
    Result<
        JobInitOutput<<SJob as StatefulJob>::RunMetadata, <SJob as StatefulJob>::Step>,
        JobError,
    >,
);

/// What the task of a step comes back with.
pub type StepTaskOutput<SJob> = Result<
    JobStepOutput<<SJob as StatefulJob>::Step, <SJob as StatefulJob>::RunMetadata>,
    JobError,
>;

/// How the first part of a job ends when its task ends.
pub struct InitPhaseOutput<SJob: StatefulJob> {
    pub maybe_data: Option<SJob::Data>,
    pub output: Result<JobInitOutput<SJob::RunMetadata, SJob::Step>, JobError>,
}

/// How a step ends when it does not end in an error.
pub enum StepPhaseEnd<SJob: StatefulJob> {
    /// Its task has ended.
    Finished(StepTaskOutput<SJob>),
    /// It was cut short: the step is to be taken back and the state of the job
    /// encoded, and the signal goes out with it.
    Suspend(oneshot::Sender<()>),
}

/// The command that an event carries.
pub open spec fn command_of<T>(event: PhaseEvent<T>) -> Option<WorkerCommand> {
    match event {
        PhaseEvent::Message(StreamMessage::NewCommand(command)) => Some(command),
        PhaseEvent::PausedCommand(command) => Some(command),
        _ => None,
    }
}

impl PhaseControl {
    /// A phase is at work or paused, and says that it is paused whenever it
    /// waits for commands alone.
    pub open spec fn wf(self) -> bool {
        &&& self.status == JobStatus::Running || self.status == JobStatus::Paused
        &&& self.paused ==> self.status == JobStatus::Paused
    }

    /// Whether this is an event of the kind that the phase waits for.
    pub open spec fn awaits<T>(self, event: PhaseEvent<T>) -> bool {
        self.paused <==> (event is PausedCommand || event is PausedCommandsEnded)
    }

    /// Where the phase stands once it has heard `command`: `Pause` halts it,
    /// `Resume` sets a halted one going, and nothing else changes it.
    pub open spec fn after_command(self, command: WorkerCommand) -> PhaseControl {
        match command {
            WorkerCommand::Pause(_) => PhaseControl { status: JobStatus::Paused, paused: true },
            WorkerCommand::Resume(_) => if self.paused {
                PhaseControl { status: JobStatus::Running, paused: false }
            } else {
                self
            },
            _ => self,
        }
    }

    /// Where the phase stands after `event`. One that finds no command while it
    /// is paused looks for messages again.
    pub open spec fn after<T>(self, event: PhaseEvent<T>) -> PhaseControl {
        match (command_of(event), event) {
            (Some(command), _) => self.after_command(command),
            (None, PhaseEvent::PausedCommandsEnded { closed: false }) => PhaseControl {
                status: self.status,
                paused: false,
            },
            _ => self,
        }
    }

    /// A phase that has just begun.
    pub fn new() -> (r: Self)
        ensures
            r == (PhaseControl { status: JobStatus::Running, paused: false }),
            r.wf(),
    {
        PhaseControl { status: JobStatus::Running, paused: false }
    }
}

/// What is to be done about `command`, where `aborting` is what it takes to be
/// rid of the task.
pub open spec fn command_effects(
    table: JobRunWorkTable,
    control: PhaseControl,
    command: WorkerCommand,
    aborting: Seq<PhaseEffect>,
) -> Seq<PhaseEffect> {
    match command {
        WorkerCommand::IdentifyYourself(tx) => seq![
            PhaseEffect::Reply(tx, table.identity(control.status)),
        ],
        WorkerCommand::Pause(_) => if control.paused {
            seq![]
        } else {
            seq![PhaseEffect::NotifyPaused]
        },
        WorkerCommand::Resume(_) => seq![],
        WorkerCommand::Shutdown(_, _) => aborting,
        WorkerCommand::Cancel(_, _) => aborting,
        WorkerCommand::Timeout(_, tx) => seq![PhaseEffect::Acknowledge(tx)],
    }
}

/// What is to be done about `event`: only a command asks for anything.
pub open spec fn event_effects<T>(
    table: JobRunWorkTable,
    control: PhaseControl,
    event: PhaseEvent<T>,
    aborting: Seq<PhaseEffect>,
) -> Seq<PhaseEffect> {
    match command_of(event) {
        Some(command) => command_effects(table, control, command, aborting),
        None => seq![],
    }
}

/// To be rid of the task of the first part of a job, it is aborted.
pub open spec fn aborting_init() -> Seq<PhaseEffect> {
    seq![PhaseEffect::AbortTask]
}

/// To be rid of the task of a step, it is aborted and awaited, so that nothing
/// of what it was lent is in use any more.
pub open spec fn aborting_step() -> Seq<PhaseEffect> {
    seq![PhaseEffect::AbortTask, PhaseEffect::JoinTask]
}

/// How the first part of a job ends with `event`, if it does. A job that is
/// shut down before it has any steps is canceled.
pub open spec fn init_end<SJob: StatefulJob>(event: PhaseEvent<InitTaskOutput<SJob>>) -> Option<
    Result<InitPhaseOutput<SJob>, JobError>,
> {
    match event {
        PhaseEvent::Message(StreamMessage::TaskResult(Err(error))) => Some(
            Err(JobError::JoinTask(error)),
        ),
        PhaseEvent::Message(StreamMessage::TaskResult(Ok(result))) => Some(
            Ok(InitPhaseOutput { maybe_data: result.0, output: result.1 }),
        ),
        PhaseEvent::MessagesEnded => Some(Err(JobError::Critical(INIT_WITHOUT_RESULT))),
        PhaseEvent::PausedCommandsEnded { closed: true } => Some(
            Err(JobError::Critical(CHANNEL_CLOSED)),
        ),
        PhaseEvent::PausedCommandsEnded { closed: false } => None,
        _ => match command_of(event)->0 {
            WorkerCommand::Shutdown(_, signal) => Some(Err(JobError::Canceled(signal))),
            WorkerCommand::Cancel(_, signal) => Some(Err(JobError::Canceled(signal))),
            WorkerCommand::Timeout(elapsed, _) => Some(Err(JobError::Timeout(elapsed))),
            _ => None,
        },
    }
}

/// How a step ends with `event`, if it does. A job that is shut down while it
/// takes a step is suspended.
pub open spec fn step_end<SJob: StatefulJob>(event: PhaseEvent<StepTaskOutput<SJob>>) -> Option<
    Result<StepPhaseEnd<SJob>, JobError>,
> {
    match event {
        PhaseEvent::Message(StreamMessage::TaskResult(Err(error))) => Some(
            Err(JobError::JoinTask(error)),
        ),
        PhaseEvent::Message(StreamMessage::TaskResult(Ok(output))) => Some(
            Ok(StepPhaseEnd::Finished(output)),
        ),
        PhaseEvent::MessagesEnded => Some(Err(JobError::Critical(STEP_WITHOUT_RESULT))),
        PhaseEvent::PausedCommandsEnded { closed: true } => Some(
            Err(JobError::Critical(CHANNEL_CLOSED)),
        ),
        PhaseEvent::PausedCommandsEnded { closed: false } => None,
        _ => match command_of(event)->0 {
            WorkerCommand::Shutdown(_, signal) => Some(Ok(StepPhaseEnd::Suspend(signal))),
            WorkerCommand::Cancel(_, signal) => Some(Err(JobError::Canceled(signal))),
            WorkerCommand::Timeout(elapsed, _) => Some(Err(JobError::Timeout(elapsed))),
            _ => None,
        },
    }
}

/// What a command means for the phase that hears it.
enum Verdict {
    GoOn,
    Shutdown(oneshot::Sender<()>),
    Cancel(oneshot::Sender<()>),
    Timeout(Duration),
}

/// What becomes of a phase with a command, short of how it ends.
struct Obeyed {
    control: PhaseControl,
    effects: Vec<PhaseEffect>,
    verdict: Verdict,
}

/// What `command` means.
spec fn verdict_of(command: WorkerCommand) -> Verdict {
    match command {
        WorkerCommand::Shutdown(_, signal) => Verdict::Shutdown(signal),
        WorkerCommand::Cancel(_, signal) => Verdict::Cancel(signal),
        WorkerCommand::Timeout(elapsed, _) => Verdict::Timeout(elapsed),
        _ => Verdict::GoOn,
    }
}

/// Hears a command, with `aborting` as what it takes to be rid of the task.
fn obey(
    table: &JobRunWorkTable,
    control: PhaseControl,
    command: WorkerCommand,
    aborting: Vec<PhaseEffect>,
) -> (r: Obeyed)
    requires
        control.wf(),
    ensures
        r.control == control.after_command(command),
        r.effects@ == command_effects(*table, control, command, aborting@),
        r.verdict == verdict_of(command),
{
    let mut effects: Vec<PhaseEffect> = Vec::new();
    match command {
        WorkerCommand::IdentifyYourself(tx) => {
            effects.push(PhaseEffect::Reply(tx, table.identify(control.status)));
            Obeyed { control, effects, verdict: Verdict::GoOn }
        },
        WorkerCommand::Pause(_) => {
            if !control.paused {
                effects.push(PhaseEffect::NotifyPaused);
            }
            Obeyed {
                control: PhaseControl { status: JobStatus::Paused, paused: true },
                effects,
                verdict: Verdict::GoOn,
            }
        },
        WorkerCommand::Resume(_) => {
            if control.paused {
                Obeyed { control: PhaseControl::new(), effects, verdict: Verdict::GoOn }
            } else {
                Obeyed { control, effects, verdict: Verdict::GoOn }
            }
        },
        WorkerCommand::Shutdown(_, signal) => Obeyed {
            control,
            effects: aborting,
            verdict: Verdict::Shutdown(signal),
        },
        WorkerCommand::Cancel(_, signal) => Obeyed {
            control,
            effects: aborting,
            verdict: Verdict::Cancel(signal),
        },
        WorkerCommand::Timeout(elapsed, tx) => {
            effects.push(PhaseEffect::Acknowledge(tx));
            Obeyed { control, effects, verdict: Verdict::Timeout(elapsed) }
        },
    }
}

/// What becomes of a phase that finds no command while it is paused.
fn without_commands<R>(control: PhaseControl, closed: bool) -> (r: PhaseStep<R>)
    ensures
        r.control == (if closed {
            control
        } else {
            PhaseControl { status: control.status, paused: false }
        }),
        r.effects@ == Seq::<PhaseEffect>::empty(),
        r.end == (if closed {
            Some(Err::<R, JobError>(JobError::Critical(CHANNEL_CLOSED)))
        } else {
            None
        }),
{
    if closed {
        PhaseStep {
            control,
            effects: Vec::new(),
            end: Some(Err(JobError::Critical(CHANNEL_CLOSED))),
        }
    } else {
        PhaseStep {
            control: PhaseControl { status: control.status, paused: false },
            effects: Vec::new(),
            end: None,
        }
    }
}

/// What becomes of the first part of a job with `command`.
fn init_command<SJob: StatefulJob>(
    table: &JobRunWorkTable,
    control: PhaseControl,
    command: WorkerCommand,
) -> (r: PhaseStep<InitPhaseOutput<SJob>>)
    requires
        control.wf(),
    ensures
        r.control == control.after_command(command),
        r.effects@ == command_effects(*table, control, command, aborting_init()),
        r.end == init_end::<SJob>(PhaseEvent::PausedCommand(command)),
{
    let aborting: Vec<PhaseEffect> = vec![PhaseEffect::AbortTask];
    assert(aborting@ =~= aborting_init());
    let obeyed = obey(table, control, command, aborting);
    let end: Option<Result<InitPhaseOutput<SJob>, JobError>> = match obeyed.verdict {
        Verdict::GoOn => None,
        // A job that is shut down here has no steps to go back to.
        Verdict::Shutdown(signal) => Some(Err(JobError::Canceled(signal))),
        Verdict::Cancel(signal) => Some(Err(JobError::Canceled(signal))),
        Verdict::Timeout(elapsed) => Some(Err(JobError::Timeout(elapsed))),
    };
    PhaseStep { control: obeyed.control, effects: obeyed.effects, end }
}

/// What becomes of the first part of a job with `event`.
pub fn handle_init_phase<SJob: StatefulJob>(
    table: &JobRunWorkTable,
    control: PhaseControl,
    event: PhaseEvent<InitTaskOutput<SJob>>,
) -> (r: PhaseStep<InitPhaseOutput<SJob>>)
    requires
        control.wf(),
        control.awaits(event),
    ensures
        r.control == control.after(event),
        r.control.wf(),
        r.effects@ == event_effects(*table, control, event, aborting_init()),
        r.end == init_end::<SJob>(event),
{
    match event {
        PhaseEvent::Message(StreamMessage::TaskResult(Err(join_error))) => PhaseStep {
            control,
            effects: Vec::new(),
            end: Some(Err(JobError::JoinTask(join_error))),
        },
        PhaseEvent::Message(StreamMessage::TaskResult(Ok((maybe_data, output)))) => PhaseStep {
            control,
            effects: Vec::new(),
            end: Some(Ok(InitPhaseOutput { maybe_data, output })),
        },
        PhaseEvent::Message(StreamMessage::NewCommand(command)) => init_command(
            table,
            control,
            command,
        ),
        PhaseEvent::PausedCommand(command) => init_command(table, control, command),
        PhaseEvent::MessagesEnded => PhaseStep {
            control,
            effects: Vec::new(),
            end: Some(Err(JobError::Critical(INIT_WITHOUT_RESULT))),
        },
        PhaseEvent::PausedCommandsEnded { closed } => without_commands(control, closed),
    }
}

/// What becomes of a step with `command`.
fn step_command<SJob: StatefulJob>(
    table: &JobRunWorkTable,
    control: PhaseControl,
    command: WorkerCommand,
) -> (r: PhaseStep<StepPhaseEnd<SJob>>)
    requires
        control.wf(),
    ensures
        r.control == control.after_command(command),
        r.effects@ == command_effects(*table, control, command, aborting_step()),
        r.end == step_end::<SJob>(PhaseEvent::PausedCommand(command)),
{
    let aborting: Vec<PhaseEffect> = vec![PhaseEffect::AbortTask, PhaseEffect::JoinTask];
    assert(aborting@ =~= aborting_step());
    let obeyed = obey(table, control, command, aborting);
    let end: Option<Result<StepPhaseEnd<SJob>, JobError>> = match obeyed.verdict {
        Verdict::GoOn => None,
        Verdict::Shutdown(signal) => Some(Ok(StepPhaseEnd::Suspend(signal))),
        Verdict::Cancel(signal) => Some(Err(JobError::Canceled(signal))),
        Verdict::Timeout(elapsed) => Some(Err(JobError::Timeout(elapsed))),
    };
    PhaseStep { control: obeyed.control, effects: obeyed.effects, end }
}

/// What becomes of a step with `event`.
pub fn handle_single_step<SJob: StatefulJob>(
    table: &JobRunWorkTable,
    control: PhaseControl,
    event: PhaseEvent<StepTaskOutput<SJob>>,
) -> (r: PhaseStep<StepPhaseEnd<SJob>>)
    requires
        control.wf(),
        control.awaits(event),
    ensures
        r.control == control.after(event),
        r.control.wf(),
        r.effects@ == event_effects(*table, control, event, aborting_step()),
        r.end == step_end::<SJob>(event),
{
    match event {
        PhaseEvent::Message(StreamMessage::TaskResult(Err(join_error))) => PhaseStep {
            control,
            effects: Vec::new(),
            end: Some(Err(JobError::JoinTask(join_error))),
        },
        PhaseEvent::Message(StreamMessage::TaskResult(Ok(output))) => PhaseStep {
            control,
            effects: Vec::new(),
            end: Some(Ok(StepPhaseEnd::Finished(output))),
        },
        PhaseEvent::Message(StreamMessage::NewCommand(command)) => step_command(
            table,
            control,
            command,
        ),
        PhaseEvent::PausedCommand(command) => step_command(table, control, command),
        PhaseEvent::MessagesEnded => PhaseStep {
            control,
            effects: Vec::new(),
            end: Some(Err(JobError::Critical(STEP_WITHOUT_RESULT))),
        },
        PhaseEvent::PausedCommandsEnded { closed } => without_commands(control, closed),
    }
}

/// How a suspended job ends: with the encoded state that it goes on from later
/// and the signal to whoever asked, or with the reason why there is none.
pub fn suspended(
    encoded: Result<Vec<u8>, rmp_serde::encode::Error>,
    signal: oneshot::Sender<()>,
) -> (r: JobError)
    ensures
        r == match encoded {
            Ok(state) => JobError::Paused(state, signal),
            Err(error) => JobError::StateEncode(error),
        },
{
    match encoded {
        Ok(state) => JobError::Paused(state, signal),
        Err(error) => JobError::StateEncode(error),
    }
}

} // verus!
