//! What holds of the engine as a whole.

pub mod building;
pub mod phases;
pub mod queues;
pub mod runs;

use crate::children::{
    all_registered, is_next_unregistered, is_register_turn, is_registered, misses_report,
    MarkAction, MarkEvent, RegisterAction, RegisterEvent,
};
use crate::engine::{
    calls_for, is_turn, leaves_behind, returns_error, RunAction, RunEvent, RunTurn,
};
use crate::error::JobError;
use crate::job::{child_action, hands_over, Job, JobBuilder, JobRunOutput, JobState};
use crate::metadata::{JobMetadata, JobRunMetadata};
use crate::output::{JobInitOutput, JobStepOutput};
use crate::outside::str_hash_writes;
use crate::phase::{
    aborting_init, aborting_step, command_effects, command_of, init_end, step_end, InitTaskOutput,
    PhaseControl, PhaseEffect, PhaseEvent, StepPhaseEnd, StepTaskOutput, StreamMessage,
};
use crate::report::{JobReport, JobReportUpdate, JobStatus};
use crate::run::{step_progress, JobRun, RunningStep};
use crate::stateful::{Digestible, DynJob, JobFace, StatefulJob};
use crate::text::{decimal, digit};
use crate::worker::{JobRunWorkTable, WorkerCommand};
use std::collections::hash_map::DefaultHasher;
use std::time::Instant;
use tokio::sync::oneshot;
use vstd::prelude::*;
use vstd::std_specs::hash::DefaultHasherAdditionalSpecFns;

verus! {

/// The steps that the first `count` of `outputs` ask for, in order.
pub open spec fn steps_asked_for<Step, RunMetadata>(
    outputs: Seq<JobStepOutput<Step, RunMetadata>>,
    count: nat,
) -> Seq<Step>
    decreases count,
{
    if count == 0 {
        seq![]
    } else {
        steps_asked_for(outputs, (count - 1) as nat) + match outputs[count - 1].maybe_more_steps {
            Some(more) => more@,
            None => seq![],
        }
    }
}

/// The troubles of the first `count` of `outputs`, in order.
pub open spec fn troubles<Step, RunMetadata>(
    outputs: Seq<JobStepOutput<Step, RunMetadata>>,
    count: nat,
) -> Seq<String>
    decreases count,
{
    if count == 0 {
        seq![]
    } else {
        troubles(outputs, (count - 1) as nat) + outputs[count - 1].errors.0@
    }
}

/// Whether a run goes from each of `runs` to the next by the steps `taken`, which
/// come up with `outputs`.
pub open spec fn is_run<SJob: StatefulJob>(
    runs: Seq<JobRun<SJob>>,
    taken: Seq<RunningStep<SJob>>,
    outputs: Seq<JobStepOutput<SJob::Step, SJob::RunMetadata>>,
) -> bool {
    &&& runs.len() == taken.len() + 1
    &&& outputs.len() == taken.len()
    &&& forall|i: int|
        #![trigger taken[i]]
        0 <= i < taken.len() ==> runs[i].takes(taken[i]) && taken[i].completes(
            outputs[i],
            runs[i + 1],
        )
}

/// Steps are taken in the order in which they stand, and those that a step asks
/// for come after all that were left before: the steps taken so far, with those
/// that are left behind them, are the steps at the outset, with those asked for
/// behind them. Each step is told how many were taken before it, the troubles
/// pile up in the order of the steps, and the job and its data stay what they
/// are.
pub proof fn law_steps_in_order<SJob: StatefulJob>(
    runs: Seq<JobRun<SJob>>,
    taken: Seq<RunningStep<SJob>>,
    outputs: Seq<JobStepOutput<SJob::Step, SJob::RunMetadata>>,
)
    requires
        is_run(runs, taken, outputs),
    ensures
        taken.map_values(|running: RunningStep<SJob>| running.step) + runs.last().steps@
            == runs[0].steps@ + steps_asked_for(outputs, outputs.len()),
        forall|i: int|
            0 <= i < taken.len() ==> (#[trigger] taken[i]).step_number == runs[0].step_number + i,
        runs.last().step_number == runs[0].step_number + taken.len(),
        runs.last().errors@ == runs[0].errors@ + troubles(outputs, outputs.len()),
        runs.last().init == runs[0].init,
        runs.last().data == runs[0].data,
    decreases taken.len(),
{
    let step_of = |running: RunningStep<SJob>| running.step;
    if taken.len() == 0 {
        assert(taken.map_values(step_of) + runs.last().steps@ =~= runs[0].steps@
            + steps_asked_for(outputs, 0));
        assert(runs.last().errors@ =~= runs[0].errors@ + troubles(outputs, 0));
    } else {
        let n: int = taken.len() - 1;
        let earlier = outputs.drop_last();
        assert forall|i: int|
            #![trigger taken.drop_last()[i]]
            0 <= i < n implies runs.drop_last()[i].takes(taken.drop_last()[i])
            && taken.drop_last()[i].completes(earlier[i], runs.drop_last()[i + 1]) by {
            assert(runs[i].takes(taken[i]));
        }
        law_steps_in_order(runs.drop_last(), taken.drop_last(), earlier);
        lemma_same_outputs(outputs, earlier, n as nat);
        assert(runs[n].takes(taken[n]) && taken[n].completes(outputs[n], runs[n + 1]));
        assert(runs.drop_last().last() == runs[n]);
        assert(runs[n].steps@ =~= seq![taken[n].step] + taken[n].rest@);
        assert(taken.map_values(step_of) =~= taken.drop_last().map_values(step_of).push(
            taken[n].step,
        ));
        assert(taken.map_values(step_of) + runs.last().steps@ =~= (
        taken.drop_last().map_values(step_of) + runs[n].steps@) + outputs[n].more_steps());
        assert((runs[0].steps@ + steps_asked_for(outputs, n as nat)) + outputs[n].more_steps()
            =~= runs[0].steps@ + steps_asked_for(outputs, outputs.len()));
        assert(runs.last().errors@ =~= runs[0].errors@ + troubles(outputs, outputs.len()));
        assert forall|i: int| 0 <= i < taken.len() implies (#[trigger] taken[i]).step_number
            == runs[0].step_number + i by {
            if i < n {
                assert(taken.drop_last()[i] == taken[i]);
            }
        }
    }
}

/// What the first outputs of a run add up to does not hang on the later ones.
proof fn lemma_same_outputs<Step, RunMetadata>(
    a: Seq<JobStepOutput<Step, RunMetadata>>,
    b: Seq<JobStepOutput<Step, RunMetadata>>,
    count: nat,
)
    requires
        count <= a.len(),
        count <= b.len(),
        forall|i: int| 0 <= i < count ==> a[i] == b[i],
    ensures
        steps_asked_for(a, count) == steps_asked_for(b, count),
        troubles(a, count) == troubles(b, count),
    decreases count,
{
    if count > 0 {
        lemma_same_outputs(a, b, (count - 1) as nat);
    }
}

/// What a run knows is what its steps have learned, one after the other: each step
/// that learned something adds that to what was known before it, whether or not it
/// asks for steps or had troubles, and each that learned nothing leaves what is
/// known as it was.
pub proof fn law_what_is_learned_adds_up<SJob: StatefulJob>(
    runs: Seq<JobRun<SJob>>,
    taken: Seq<RunningStep<SJob>>,
    outputs: Seq<JobStepOutput<SJob::Step, SJob::RunMetadata>>,
)
    requires
        is_run(runs, taken, outputs),
    ensures
        forall|i: int|
            #![trigger taken[i]]
            0 <= i < taken.len() ==> {
                &&& taken[i].run_metadata == runs[i].run_metadata
                &&& match outputs[i].maybe_more_metadata {
                    Some(more) => SJob::RunMetadata::updates(
                        runs[i].run_metadata,
                        more,
                        runs[i + 1].run_metadata,
                    ),
                    None => runs[i + 1].run_metadata == runs[i].run_metadata,
                }
            },
{
}

/// What is told of a step that went well counts the steps of the run: the first
/// word is how many have been taken, and where the step asks for more, the second
/// is how many are left to take now, and the one just taken.
pub proof fn law_progress_counts_steps<SJob: StatefulJob>(
    runs: Seq<JobRun<SJob>>,
    taken: Seq<RunningStep<SJob>>,
    outputs: Seq<JobStepOutput<SJob::Step, SJob::RunMetadata>>,
    i: int,
)
    requires
        is_run(runs, taken, outputs),
        0 <= i < taken.len(),
    ensures
        ({
            let told = step_progress(taken[i].step_number, taken[i].rest@.len() + 1, outputs[i]);
            &&& told[0] == JobReportUpdate::CompletedTaskCount(
                (runs[0].step_number + i + 1) as usize,
            )
            &&& outputs[i].maybe_more_steps is Some <==> told.len() == 2
            &&& told.len() == 2 ==> told[1] == JobReportUpdate::TaskCount(
                (runs[i + 1].steps@.len() + 1) as usize,
            )
        }),
{
    law_steps_in_order(runs, taken, outputs);
    assert(runs[i].takes(taken[i]) && taken[i].completes(outputs[i], runs[i + 1]));
}

/// A run that comes to its end well has no trouble forgotten: those of the first
/// part come first, then those of the steps.
pub proof fn law_no_trouble_is_forgotten<SJob: StatefulJob, Next: DynJob<Next>>(
    state: JobState<SJob>,
    data: Option<SJob::Data>,
    init_output: JobInitOutput<SJob::RunMetadata, SJob::Step>,
    runs: Seq<JobRun<SJob>>,
    taken: Seq<RunningStep<SJob>>,
    outputs: Seq<JobStepOutput<SJob::Step, SJob::RunMetadata>>,
    metadata: JobMetadata,
    queue: Seq<Next>,
    left: JobRunOutput<Next>,
)
    requires
        is_run(runs, taken, outputs),
        runs[0].begins(state, data, init_output),
        leaves_behind(runs.last(), metadata, queue, left),
    ensures
        left.errors@ == init_output.errors@ + troubles(outputs, outputs.len()),
{
    law_steps_in_order(runs, taken, outputs);
}

/// To take a step and be interrupted in it leaves the state that the run was in
/// before, the step in its old place at the head of the queue.
pub proof fn law_interrupt_undoes_step<SJob: StatefulJob>(
    run: JobRun<SJob>,
    running: RunningStep<SJob>,
    state: JobState<SJob>,
)
    requires
        run.takes(running),
        running.interrupts(state),
    ensures
        state.init == run.init,
        state.data == run.data,
        state.steps@ == run.steps@,
        state.step_number == run.step_number,
        state.run_metadata == run.run_metadata,
{
    assert(state.steps@ =~= run.steps@);
}

/// A job that is shut down in the middle of a step and brought back goes on with
/// that same step, under the same number, with the same data and the same steps
/// to follow.
pub proof fn law_interrupted_step_runs_again<SJob: StatefulJob, Next>(
    running: RunningStep<SJob>,
    state: JobState<SJob>,
    report: JobReport,
    next_jobs: Seq<Next>,
    job: Job<SJob, Next>,
    resumed: JobRun<SJob>,
    action: RunAction<SJob, Next>,
)
    requires
        running.interrupts(state),
        job.is_restored(report, state, next_jobs),
        resumed.resumes(job.state->0),
        calls_for(resumed, action),
    ensures
        action matches RunAction::RunStep(again) && {
            &&& again.init == running.init
            &&& again.data == running.data
            &&& again.step == running.step
            &&& again.rest@ == running.rest@
            &&& again.step_number == running.step_number
            &&& again.run_metadata == running.run_metadata
        },
{
    assert(state.steps@[0] == running.step);
    assert(state.steps@.skip(1) =~= running.rest@);
}

/// A job that is shut down in the middle of a step ends as one that is paused,
/// with the bytes of the state that it was in before that step, and with the
/// signal that came with the word to shut down.
pub proof fn law_shutdown_keeps_the_state<SJob: StatefulJob, Next: DynJob<Next>>(
    queue: Seq<Next>,
    event: PhaseEvent<StepTaskOutput<SJob>>,
    when: Instant,
    signal: oneshot::Sender<()>,
    run: JobRun<SJob>,
    running: RunningStep<SJob>,
    end: StepPhaseEnd<SJob>,
    cut: RunTurn<SJob, Next>,
    state: JobState<SJob>,
    to_signal: oneshot::Sender<()>,
    bytes: Vec<u8>,
    over: RunTurn<SJob, Next>,
)
    requires
        command_of(event) == Some(WorkerCommand::Shutdown(when, signal)),
        step_end::<SJob>(event) == Some(Ok::<StepPhaseEnd<SJob>, JobError>(end)),
        run.takes(running),
        is_turn(queue, RunEvent::StepEnded(running, end), cut),
        cut.action == RunAction::<SJob, Next>::EncodeState(state, to_signal),
        is_turn(queue, RunEvent::StateEncoded(Ok(bytes), to_signal), over),
    ensures
        returns_error(over.action, JobError::Paused(bytes, signal)),
        state.init == run.init,
        state.data == run.data,
        state.steps@ == run.steps@,
        state.step_number == run.step_number,
        state.run_metadata == run.run_metadata,
{
    law_interrupt_undoes_step(run, running, state);
}

/// Whether `event` tells how `action` went.
pub open spec fn answers<SJob: StatefulJob, Next>(
    action: RunAction<SJob, Next>,
    event: RunEvent<SJob>,
) -> bool {
    match action {
        RunAction::RunInit(_) => event is InitEnded || event is PhaseFailed,
        RunAction::RunStep(_) => event is StepEnded || event is PhaseFailed,
        RunAction::RunFinalize(_) => event is Finalized,
        RunAction::EncodeState(_, _) => event is StateEncoded,
        RunAction::Return(_) => false,
    }
}

/// How far along a run is that is told to do `action`.
pub open spec fn stage<SJob: StatefulJob, Next>(action: RunAction<SJob, Next>) -> nat {
    match action {
        RunAction::RunInit(_) => 0,
        RunAction::RunStep(_) => 1,
        RunAction::RunFinalize(_) => 2,
        RunAction::EncodeState(_, _) => 2,
        RunAction::Return(_) => 3,
    }
}

/// A run goes forward: its first part comes first and only once, its steps after
/// it, its last word when there are none to take, and nothing once it returns. A
/// run that is cut short in a step does not have its last word.
pub proof fn law_run_goes_forward<SJob: StatefulJob, Next: DynJob<Next>>(
    queue: Seq<Next>,
    action: RunAction<SJob, Next>,
    event: RunEvent<SJob>,
    turn: RunTurn<SJob, Next>,
)
    requires
        answers(action, event),
        is_turn(queue, event, turn),
    ensures
        stage(turn.action) > stage(action) || (action is RunStep && turn.action is RunStep),
        turn.action is EncodeState ==> action is RunStep,
        turn.action is RunFinalize ==> action is RunInit || action is RunStep,
        action is EncodeState ==> turn.action matches RunAction::Return(Err(_)),
{
}

/// An early finish, in the first part of a job or in a step, is the end of the
/// steps, and so is a first part that leaves the job without data.
pub proof fn law_early_finish_ends_steps<SJob: StatefulJob>(
    state: JobState<SJob>,
    data: Option<SJob::Data>,
    running: RunningStep<SJob>,
    run: JobRun<SJob>,
)
    requires
        run.gives_up(state, data) || running.finishes_early(run) || run.data is None,
    ensures
        !run.has_step(),
        forall|again: RunningStep<SJob>| !#[trigger] run.takes(again),
{
}

/// A job says that it is paused exactly while it waits for commands alone, and no
/// event changes that but one: a paused job that finds no command on an open
/// channel looks for messages again, and still says that it is paused.
pub proof fn law_status_is_true<T>(control: PhaseControl, event: PhaseEvent<T>)
    requires
        control.wf(),
        control.status == JobStatus::Paused <==> control.paused,
        control.awaits(event),
        !(event matches PhaseEvent::PausedCommandsEnded { closed: false }),
    ensures
        control.after(event).wf(),
        control.after(event).status == JobStatus::Paused <==> control.after(event).paused,
{
}

/// A job that is paused and resumed is as one that has just begun.
pub proof fn law_resume_undoes_pause<T>(
    control: PhaseControl,
    pause: WorkerCommand,
    resume: WorkerCommand,
)
    requires
        control.wf(),
        !control.paused,
        pause is Pause,
        resume is Resume,
    ensures
        control.after(PhaseEvent::<T>::Message(StreamMessage::NewCommand(pause))).after(
            PhaseEvent::<T>::PausedCommand(resume),
        ) == (PhaseControl { status: JobStatus::Running, paused: false }),
{
}

/// Where a phase stands after the first `count` of `commands`.
pub open spec fn control_after(
    control: PhaseControl,
    commands: Seq<WorkerCommand>,
    count: nat,
) -> PhaseControl
    decreases count,
{
    if count == 0 {
        control
    } else {
        control_after(control, commands, (count - 1) as nat).after_command(commands[count - 1])
    }
}

/// A paused job stays paused until it is told to resume, whatever else it is
/// told: it hears of further pauses without a word, and answers to its name as
/// one that is paused.
pub proof fn law_paused_until_resumed(
    table: JobRunWorkTable,
    control: PhaseControl,
    commands: Seq<WorkerCommand>,
    aborting: Seq<PhaseEffect>,
)
    requires
        control.wf(),
        control.paused,
        forall|i: int| 0 <= i < commands.len() ==> !(#[trigger] commands[i] is Resume),
    ensures
        control_after(control, commands, commands.len()) == control,
        forall|i: int|
            0 <= i < commands.len() && #[trigger] commands[i] is Pause ==> command_effects(
                table,
                control_after(control, commands, i as nat),
                commands[i],
                aborting,
            ) == Seq::<PhaseEffect>::empty(),
        forall|i: int|
            0 <= i < commands.len() ==> (#[trigger] commands[i] matches WorkerCommand::IdentifyYourself(tx)
                ==> command_effects(
                table,
                control_after(control, commands, i as nat),
                commands[i],
                aborting,
            ) == seq![PhaseEffect::Reply(tx, table.identity(JobStatus::Paused))]),
{
    lemma_stays_paused(control, commands, commands.len());
    assert forall|i: int|
        #![trigger commands[i]]
        0 <= i < commands.len() implies control_after(control, commands, i as nat) == control by {
        lemma_stays_paused(control, commands, i as nat);
    }
}

/// Nothing but `Resume` takes a paused phase out of its pause.
proof fn lemma_stays_paused(control: PhaseControl, commands: Seq<WorkerCommand>, count: nat)
    requires
        control.wf(),
        control.paused,
        count <= commands.len(),
        forall|i: int| 0 <= i < count ==> !(#[trigger] commands[i] is Resume),
    ensures
        control_after(control, commands, count) == control,
    decreases count,
{
    if count > 0 {
        lemma_stays_paused(control, commands, (count - 1) as nat);
    }
}

/// Whatever the worker says, it means the same in every part of a job, but for
/// a shutdown: that cancels a job in its first part and suspends it in a step.
/// Pausing, resuming and asking never end a part, and the signal that came with
/// the word to end goes out again with the end.
pub proof fn law_commands_mean_the_same<SJob: StatefulJob>(
    init_event: PhaseEvent<InitTaskOutput<SJob>>,
    step_event: PhaseEvent<StepTaskOutput<SJob>>,
    command: WorkerCommand,
)
    requires
        command_of(init_event) == Some(command),
        command_of(step_event) == Some(command),
    ensures
        match command {
            WorkerCommand::Shutdown(_, signal) => {
                &&& init_end::<SJob>(init_event) matches Some(Err(end))
                &&& end == JobError::Canceled(signal)
                &&& step_end::<SJob>(step_event) matches Some(Ok(end))
                &&& end == StepPhaseEnd::<SJob>::Suspend(signal)
            },
            WorkerCommand::Cancel(_, signal) => {
                &&& init_end::<SJob>(init_event) matches Some(Err(init))
                &&& step_end::<SJob>(step_event) matches Some(Err(step))
                &&& init == JobError::Canceled(signal)
                &&& step == JobError::Canceled(signal)
            },
            WorkerCommand::Timeout(elapsed, _) => {
                &&& init_end::<SJob>(init_event) matches Some(Err(init))
                &&& step_end::<SJob>(step_event) matches Some(Err(step))
                &&& init == JobError::Timeout(elapsed)
                &&& step == JobError::Timeout(elapsed)
            },
            _ => init_end::<SJob>(init_event) is None && step_end::<SJob>(step_event) is None,
        },
{
}

/// The task of a part that is canceled or shut down is aborted, and no task is
/// ever aborted for anything else.
pub proof fn law_abort_only_to_end(
    table: JobRunWorkTable,
    control: PhaseControl,
    command: WorkerCommand,
)
    ensures
        command_effects(table, control, command, aborting_init()).contains(
            PhaseEffect::AbortTask,
        ) <==> command is Shutdown || command is Cancel,
        command_effects(table, control, command, aborting_step()).contains(
            PhaseEffect::AbortTask,
        ) <==> command is Shutdown || command is Cancel,
{
    if command is Shutdown || command is Cancel {
        assert(aborting_init()[0] == PhaseEffect::AbortTask);
        assert(aborting_step()[0] == PhaseEffect::AbortTask);
    }
}

/// The job at the head of a queue takes over the rest of it: when each job hands
/// over to the next, they come in the order in which they were queued, and each
/// has behind it those that were queued after it.
pub proof fn law_jobs_follow_in_order<Next: DynJob<Next>>(queue: Seq<Next>, heads: Seq<Next>)
    requires
        heads.len() > 0 ==> hands_over(queue, Some(heads[0])),
        forall|i: int|
            #![trigger heads[i]]
            0 < i < heads.len() ==> hands_over(heads[i - 1].face().waiting, Some(heads[i])),
    ensures
        heads.len() <= queue.len(),
        forall|i: int|
            #![trigger heads[i]]
            0 <= i < heads.len() ==> heads[i].face() == (JobFace {
                waiting: queue.skip(i + 1),
                ..queue[i].face()
            }),
    decreases heads.len(),
{
    if heads.len() > 1 {
        let last: int = heads.len() - 1;
        let earlier = heads.drop_last();
        assert forall|i: int|
            #![trigger earlier[i]]
            0 < i < earlier.len() implies hands_over(
            earlier[i - 1].face().waiting,
            Some(earlier[i]),
        ) by {
            assert(earlier[i] == heads[i]);
        }
        law_jobs_follow_in_order(queue, earlier);
        assert(earlier[last - 1].face().waiting == queue.skip(last));
        assert(hands_over(heads[last - 1].face().waiting, Some(heads[last])));
        assert(queue.skip(last).skip(1) =~= queue.skip(last + 1));
        assert forall|i: int|
            #![trigger heads[i]]
            0 <= i < heads.len() implies heads[i].face() == (JobFace {
            waiting: queue.skip(i + 1),
            ..queue[i].face()
        }) by {
            if i < last {
                assert(earlier[i] == heads[i]);
            }
        }
    }
}

/// A queue has no job left to hand over to exactly when it has run out, so that
/// no job of it is passed over.
pub proof fn law_no_job_is_passed_over<Next: DynJob<Next>>(queue: Seq<Next>, next: Option<Next>)
    requires
        hands_over(queue, next),
    ensures
        next is None <==> queue.len() == 0,
{
}

/// Two jobs of a kind that takes its digest as the trait has it, and that feed
/// the same writes to a hasher, have one and the same digest: what a hasher makes
/// of the name of the kind and those writes. Nothing else has a part in it, and
/// so it is the same at every call.
pub proof fn law_alike_jobs_share_a_digest<SJob: StatefulJob>(
    a: &SJob,
    b: &SJob,
    writes: Seq<Seq<u8>>,
    digest_a: u64,
    digest_b: u64,
)
    requires
        forall|state: &mut DefaultHasher|
            #![trigger call_ensures(<SJob as Digestible>::feed, (a, state), ())]
            call_ensures(<SJob as Digestible>::feed, (a, state), ()) ==> final(state)@ == state@
                + writes,
        forall|state: &mut DefaultHasher|
            #![trigger call_ensures(<SJob as Digestible>::feed, (b, state), ())]
            call_ensures(<SJob as Digestible>::feed, (b, state), ()) ==> final(state)@ == state@
                + writes,
        forall|job: &SJob, digest: u64| #[trigger]
            call_ensures(<SJob as StatefulJob>::hash, (job,), digest) ==> exists|
                state: &mut DefaultHasher,
            |
                {
                    &&& state@ == str_hash_writes(SJob::NAME@)
                    &&& #[trigger] call_ensures(<SJob as Digestible>::feed, (job, state), ())
                    &&& digest == DefaultHasher::spec_finish(final(state)@)
                },
        call_ensures(<SJob as StatefulJob>::hash, (a,), digest_a),
        call_ensures(<SJob as StatefulJob>::hash, (b,), digest_b),
    ensures
        digest_a == digest_b,
        digest_a == DefaultHasher::spec_finish(str_hash_writes(SJob::NAME@) + writes),
{
}

/// A job that was built tells the identifier that it was built under.
pub proof fn law_built_job_tells_its_id<SJob: StatefulJob, Next>(
    builder: JobBuilder<SJob>,
    init: SJob,
    job: Job<SJob, Next>,
)
    requires
        builder.is_plain(init),
        builder.builds(job),
    ensures
        job.face().id == Some(builder.id),
        job.id == builder.id,
        job.face().parent is None,
        job.face().report->0.name@ == job.face().name,
{
}

/// A job that is queued behind another names it as its parent, and itself as
/// the identifier that it was built under.
pub proof fn law_child_names_its_parent<SJob: StatefulJob, NextSJob: StatefulJob, Next>(
    parent: Job<SJob, Next>,
    plain: JobBuilder<NextSJob>,
    init: NextSJob,
    child: JobBuilder<NextSJob>,
    job: Job<NextSJob, Next>,
)
    requires
        plain.is_plain(init),
        parent.adopts(plain, child),
        child.builds(job),
    ensures
        job.face().parent == Some(parent.id),
        job.face().id == Some(plain.id),
        job.id == plain.id,
        parent.action() is None ==> job.action() is None,
        parent.action() matches Some(action) ==> job.action() == Some(
            child_action(action, parent.next_jobs@.len() + 1),
        ),
{
}

/// A job that is brought back bears the identifier of its report, in its own
/// name and in its report, and keeps its parent.
pub proof fn law_restored_job_tells_its_id<SJob: StatefulJob, Next>(
    report: JobReport,
    state: JobState<SJob>,
    next_jobs: Seq<Next>,
    job: Job<SJob, Next>,
)
    requires
        job.is_restored(report, state, next_jobs),
    ensures
        job.face().id == Some(report.id),
        job.id == report.id,
        job.face().parent == report.parent_id,
        job.face().waiting == next_jobs,
{
}

/// The jobs that are queued behind one and the same job do not share an action:
/// different places in the queue make different actions.
pub proof fn law_child_actions_differ(action: Seq<char>, a: nat, b: nat)
    requires
        a != b,
    ensures
        child_action(action, a) != child_action(action, b),
{
    if child_action(action, a) == child_action(action, b) {
        let start: int = action.push('-').len() as int;
        assert(child_action(action, a).skip(start) =~= decimal(a));
        assert(child_action(action, b).skip(start) =~= decimal(b));
        lemma_decimal_is_unique(a, b);
    }
}

/// No two numbers look the same in decimal.
proof fn lemma_decimal_is_unique(a: nat, b: nat)
    requires
        decimal(a) == decimal(b),
    ensures
        a == b,
    decreases a,
{
    lemma_decimal_is_not_empty(a / 10);
    lemma_decimal_is_not_empty(b / 10);
    let text = decimal(a);
    if a < 10 {
        assert(text.len() == 1);
        assert(b < 10);
        assert(text[0] == digit(a) && text[0] == digit(b));
    } else {
        assert(text.len() > 1);
        assert(b >= 10);
        assert(text.drop_last() =~= decimal(a / 10));
        assert(text.drop_last() =~= decimal(b / 10));
        assert(text.last() == digit(a % 10) && text.last() == digit(b % 10));
        lemma_decimal_is_unique(a / 10, b / 10);
    }
}

/// A number has at least one digit.
proof fn lemma_decimal_is_not_empty(n: nat)
    ensures
        decimal(n).len() > 0,
{
}

/// Whether `after` is `before` once the report of the job at `place` has been
/// stored.
pub open spec fn stores<Next: DynJob<Next>>(
    before: Seq<Next>,
    after: Seq<Next>,
    place: usize,
) -> bool {
    &&& after.len() == before.len()
    &&& is_registered(after[place as int])
    &&& forall|k: int| 0 <= k < before.len() && k != place ==> #[trigger] after[k] == before[k]
}

/// Whether `child` has a report that is still to be stored.
pub open spec fn is_to_store<Next: DynJob<Next>>(child: Next) -> bool {
    child.face().report is Some && !is_registered(child)
}

/// How storing the reports goes when the first `count` of `places` have been
/// seen to.
pub open spec fn register_event(places: Seq<usize>, count: int) -> RegisterEvent {
    if count == 0 {
        RegisterEvent::Begun
    } else {
        RegisterEvent::Created(places[count - 1], Ok(()))
    }
}

/// Whether the reports of a queue are stored one after the other at `places`,
/// which takes the queue through `queues`, and `over` is what is to be done
/// after that.
pub open spec fn is_register_pass<Next: DynJob<Next>>(
    queues: Seq<Seq<Next>>,
    places: Seq<usize>,
    over: RegisterAction,
) -> bool {
    &&& queues.len() == places.len() + 1
    &&& forall|i: int|
        #![trigger places[i]]
        0 <= i < places.len() ==> {
            &&& is_register_turn(
                queues[i],
                register_event(places, i),
                RegisterAction::Create(places[i]),
            )
            &&& stores(queues[i], queues[i + 1], places[i])
        }
    &&& is_register_turn(queues.last(), register_event(places, places.len() as int), over)
}

/// Once the reports of a queue have been stored, every job in it is registered.
/// Each report that had not been stored before has been stored once, in the
/// order of the queue, and no other job has been touched.
pub proof fn law_every_report_is_stored_once<Next: DynJob<Next>>(
    queues: Seq<Seq<Next>>,
    places: Seq<usize>,
)
    requires
        is_register_pass(queues, places, RegisterAction::Return(Ok(()))),
    ensures
        queues.last().len() == queues[0].len(),
        all_registered(queues.last(), 0, queues.last().len() as int),
        forall|i: int, j: int| 0 <= i < j < places.len() ==> places[i] < places[j],
        forall|i: int|
            0 <= i < places.len() ==> is_to_store(queues[0][#[trigger] places[i] as int]),
        forall|k: int|
            0 <= k < queues[0].len() && #[trigger] is_to_store(queues[0][k])
                ==> exists|i: int| 0 <= i < places.len() && #[trigger] places[i] == k,
        forall|k: int|
            0 <= k < queues[0].len() && !is_to_store(queues[0][k]) ==> #[trigger] queues.last()[k]
                == queues[0][k],
{
    lemma_stored_so_far(queues, places, RegisterAction::Return(Ok(())), places.len());
    assert forall|k: int|
        0 <= k < queues[0].len() && #[trigger] is_to_store(
            queues[0][k],
        ) implies exists|i: int| 0 <= i < places.len() && #[trigger] places[i] == k by {
        assert(is_registered(queues.last()[k]));
    }
}

/// A queue in which a report is missing is not gone through to its end: the pass
/// returns an error that names a job without a report.
pub proof fn law_missing_report_ends_the_pass<Next: DynJob<Next>>(
    queues: Seq<Seq<Next>>,
    places: Seq<usize>,
    over: RegisterAction,
    missing: int,
)
    requires
        is_register_pass(queues, places, over),
        over is Return,
        0 <= missing < queues[0].len(),
        queues[0][missing].face().report is None,
    ensures
        over matches RegisterAction::Return(Err(error)) && exists|place: int|
            0 <= place <= missing && misses_report(#[trigger] queues[0][place], error),
{
    let n: int = places.len() as int;
    lemma_stored_so_far(queues, places, over, places.len());
    let from = register_event(places, n).from();
    assert(!is_to_store(queues[0][missing]));
    assert(queues[n][missing] == queues[0][missing]);
    assert(!is_registered(queues[n][missing]));
    assert(from <= missing);
    if let RegisterAction::Return(Err(error)) = over {
        let place = choose|place: int| #[trigger]
            is_next_unregistered(queues[n], from, place) && misses_report(
                queues[n][place],
                error,
            );
        assert(queues[n][place] == queues[0][place]);
        assert(misses_report(queues[0][place], error));
        if missing < place {
            assert(all_registered(queues[n], from, place));
        }
    }
}

/// What holds of `queue` when it has become `now` and the first `count` of
/// `places` have been seen to: before the place where the search goes on all jobs
/// are registered, and nothing has been touched but at the places, which come in
/// order and had a report to store.
spec fn is_stored_so_far<Next: DynJob<Next>>(
    queue: Seq<Next>,
    now: Seq<Next>,
    places: Seq<usize>,
    count: int,
) -> bool {
    let from = register_event(places, count).from();
    &&& now.len() == queue.len()
    &&& from <= queue.len()
    &&& all_registered(now, 0, from)
    &&& forall|k: int|
        0 <= k < queue.len() && #[trigger] now[k] != queue[k] ==> is_among(places, count, k)
    &&& forall|i: int| 0 <= i < count ==> #[trigger] places[i] < from
    &&& forall|i: int, j: int| 0 <= i < j < count ==> places[i] < places[j]
    &&& forall|i: int| 0 <= i < count ==> is_to_store(queue[#[trigger] places[i] as int])
}

/// Whether `place` is one of the first `count` of `places`.
spec fn is_among(places: Seq<usize>, count: int, place: int) -> bool {
    exists|i: int| 0 <= i < count && #[trigger] places[i] == place
}

/// To store one more report is to have stored one more.
proof fn lemma_stored_one_more<Next: DynJob<Next>>(
    queue: Seq<Next>,
    before: Seq<Next>,
    after: Seq<Next>,
    places: Seq<usize>,
    n: int,
)
    requires
        0 <= n < places.len(),
        is_stored_so_far(queue, before, places, n),
        is_register_turn(before, register_event(places, n), RegisterAction::Create(places[n])),
        stores(before, after, places[n]),
    ensures
        is_stored_so_far(queue, after, places, n + 1),
{
    let from = register_event(places, n).from();
    let place = places[n] as int;
    assert(is_next_unregistered(before, from, place));
    assert(before[place] == queue[place]) by {
        if before[place] != queue[place] {
            let i = choose|i: int| 0 <= i < n && #[trigger] places[i] == place;
            assert(places[i] < from);
        }
    }
    assert(all_registered(after, 0, place + 1)) by {
        assert forall|k: int| 0 <= k < place + 1 implies is_registered(#[trigger] after[k]) by {
            if k < place {
                assert(is_registered(before[k]));
                assert(after[k] == before[k]);
            }
        }
    }
    assert forall|k: int| 0 <= k < queue.len() && #[trigger] after[k] != queue[k] implies is_among(
        places,
        n + 1,
        k,
    ) by {
        if k == place {
            assert(places[n] == k);
        } else {
            assert(before[k] != queue[k]);
            let i = choose|i: int| 0 <= i < n && #[trigger] places[i] == k;
            assert(places[i] == k);
        }
    }
}

/// What holds after `count` reports have been stored.
proof fn lemma_stored_so_far<Next: DynJob<Next>>(
    queues: Seq<Seq<Next>>,
    places: Seq<usize>,
    over: RegisterAction,
    count: nat,
)
    requires
        is_register_pass(queues, places, over),
        count <= places.len(),
    ensures
        is_stored_so_far(queues[0], queues[count as int], places, count as int),
    decreases count,
{
    if count > 0 {
        let n: int = count - 1;
        lemma_stored_so_far(queues, places, over, n as nat);
        assert(stores(queues[n], queues[n + 1], places[n]));
        lemma_stored_one_more(queues[0], queues[n], queues[n + 1], places, n);
    }
}

/// How marking the jobs of a queue goes when the first `count` of `places` have
/// been seen to.
pub open spec fn mark_event(places: Seq<usize>, count: int) -> MarkEvent {
    if count == 0 {
        MarkEvent::Begun
    } else {
        MarkEvent::Updated(places[count - 1], Ok(()))
    }
}

/// Whether the jobs in the queue of a job are marked one after the other at
/// `places`, with `states` as their bytes, which takes the job through `jobs`, and
/// `next` is what is to be done after that.
pub open spec fn is_mark_pass<SJob: StatefulJob, Next: DynJob<Next>>(
    jobs: Seq<Job<SJob, Next>>,
    status: JobStatus,
    places: Seq<usize>,
    states: Seq<Vec<u8>>,
    next: MarkAction,
) -> bool {
    &&& jobs.len() == places.len() + 1
    &&& states.len() == places.len()
    &&& forall|i: int|
        #![trigger places[i]]
        0 <= i < places.len() ==> {
            &&& jobs[i].is_mark_turn(
                jobs[i],
                status,
                mark_event(places, i),
                MarkAction::Serialize(places[i]),
            )
            &&& jobs[i].is_mark_turn(
                jobs[i + 1],
                status,
                MarkEvent::Serialized(places[i], Ok(states[i])),
                MarkAction::Update(places[i]),
            )
        }
    &&& jobs.last().is_mark_turn(
        jobs.last(),
        status,
        mark_event(places, places.len() as int),
        next,
    )
}

/// Whether `after` is `before` once the first `count` jobs in its queue have the
/// status and their own of `states` in their reports, with everything else as it
/// was.
pub open spec fn is_marked<SJob: StatefulJob, Next: DynJob<Next>>(
    before: Job<SJob, Next>,
    after: Job<SJob, Next>,
    status: JobStatus,
    states: Seq<Vec<u8>>,
    count: int,
) -> bool {
    &&& after == (Job { next_jobs: after.next_jobs, ..before })
    &&& after.next_jobs@.len() == before.next_jobs@.len()
    &&& forall|i: int|
        #![trigger after.next_jobs@[i]]
        0 <= i < count ==> {
            &&& before.next_jobs@[i].face().report matches Some(report)
            &&& after.next_jobs@[i].face() == (JobFace {
                report: Some(JobReport { status, data: Some(states[i]), ..report }),
                ..before.next_jobs@[i].face()
            })
        }
    &&& forall|i: int|
        #![trigger after.next_jobs@[i]]
        count <= i < before.next_jobs@.len() ==> after.next_jobs@[i] == before.next_jobs@[i]
}

/// The jobs in a queue are marked in the order of the queue, each of them once,
/// and none is left out: there is an end to it only when all have been seen to.
/// Each that has been seen to has the status and its own state in its report, and
/// those that have not are as they were, and so is the job that they wait for.
pub proof fn law_every_child_is_marked<SJob: StatefulJob, Next: DynJob<Next>>(
    jobs: Seq<Job<SJob, Next>>,
    status: JobStatus,
    places: Seq<usize>,
    states: Seq<Vec<u8>>,
    next: MarkAction,
)
    requires
        is_mark_pass(jobs, status, places, states, next),
    ensures
        places.len() <= jobs[0].next_jobs@.len(),
        forall|i: int| 0 <= i < places.len() ==> #[trigger] places[i] == i,
        is_marked(jobs[0], jobs.last(), status, states, places.len() as int),
        next is Return <==> places.len() == jobs[0].next_jobs@.len(),
{
    let n: int = places.len() as int;
    lemma_marked_so_far(jobs, status, places, states, next, places.len());
    assert(n > 0 ==> places[n - 1] == n - 1);
    assert(jobs[n].serializes(n, next));
}

/// To mark one more job is to have marked one more.
#[verifier::spinoff_prover]
proof fn lemma_marked_one_more<SJob: StatefulJob, Next: DynJob<Next>>(
    first: Job<SJob, Next>,
    before: Job<SJob, Next>,
    after: Job<SJob, Next>,
    status: JobStatus,
    states: Seq<Vec<u8>>,
    place: usize,
)
    requires
        place < first.next_jobs@.len(),
        is_marked(first, before, status, states, place as int),
        before.marks(after, place, status, states[place as int]),
    ensures
        is_marked(first, after, status, states, place + 1),
{
    let at = place as int;
    let child = after.next_jobs@[at];
    let was = before.next_jobs@[at].face();
    assert(before.next_jobs@[at] == first.next_jobs@[at]);
    assert(child.face() == (JobFace {
        report: Some(JobReport { status, data: Some(states[at]), ..was.report->0 }),
        ..was
    }));
    assert forall|i: int|
        0 <= i < first.next_jobs@.len() && i != at implies #[trigger] after.next_jobs@[i]
        == before.next_jobs@[i] by {
        assert(before.next_jobs@.update(at, child)[i] == before.next_jobs@[i]);
    }
}

/// What holds after `count` jobs have been seen to: they are the first of the
/// queue, and nothing else has been touched.
proof fn lemma_marked_so_far<SJob: StatefulJob, Next: DynJob<Next>>(
    jobs: Seq<Job<SJob, Next>>,
    status: JobStatus,
    places: Seq<usize>,
    states: Seq<Vec<u8>>,
    next: MarkAction,
    count: nat,
)
    requires
        is_mark_pass(jobs, status, places, states, next),
        count <= places.len(),
    ensures
        count <= jobs[0].next_jobs@.len(),
        forall|i: int| 0 <= i < count ==> #[trigger] places[i] == i,
        is_marked(jobs[0], jobs[count as int], status, states, count as int),
    decreases count,
{
    if count > 0 {
        let n: int = count - 1;
        lemma_marked_so_far(jobs, status, places, states, next, n as nat);
        assert(n > 0 ==> places[n - 1] == n - 1);
        assert(jobs[n].serializes(n, MarkAction::Serialize(places[n])));
        lemma_marked_one_more(jobs[0], jobs[n], jobs[n + 1], status, states, places[n]);
    }
}

} // verus!
