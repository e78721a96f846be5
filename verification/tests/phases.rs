use job_engine::phase::{
    handle_init_phase, handle_single_step, suspended, InitTaskOutput, PhaseControl, PhaseEffect,
    PhaseEvent, PhaseStep, StepPhaseEnd, StepTaskOutput, StreamMessage,
};
use job_engine::{
    JobError, JobIdentity, JobInitOutput, JobRunErrors, JobRunWorkTable, JobStatus, JobStepOutput,
    LocationId, StatefulJob, WorkerCommand,
};
use std::time::{Duration, Instant};
use tokio::sync::oneshot;
use tokio::task::JoinError;
use uuid::Uuid;

#[derive(Hash)]
struct Indexer;

impl StatefulJob for Indexer {
    type Data = u8;
    type Step = u32;
    type RunMetadata = ();

    const NAME: &'static str = "indexer";

    fn target_location(&self) -> LocationId {
        7
    }
}

fn table() -> JobRunWorkTable {
    JobRunWorkTable {
        id: Uuid::from_u128(42),
        name: "indexer",
        target_location: 7,
    }
}

fn running() -> PhaseControl {
    PhaseControl::new()
}

fn paused() -> PhaseControl {
    PhaseControl {
        status: JobStatus::Paused,
        paused: true,
    }
}

fn join_error() -> JoinError {
    let runtime = tokio::runtime::Builder::new_current_thread()
        .build()
        .unwrap();
    runtime.block_on(async {
        let task = tokio::spawn(async { std::future::pending::<()>().await });
        task.abort();
        task.await.unwrap_err()
    })
}

type InitStep = PhaseStep<job_engine::phase::InitPhaseOutput<Indexer>>;

fn init_hears(control: PhaseControl, command: WorkerCommand) -> InitStep {
    let event: PhaseEvent<InitTaskOutput<Indexer>> = if control.paused {
        PhaseEvent::PausedCommand(command)
    } else {
        PhaseEvent::Message(StreamMessage::NewCommand(command))
    };
    handle_init_phase::<Indexer>(&table(), control, event)
}

fn step_hears(control: PhaseControl, command: WorkerCommand) -> PhaseStep<StepPhaseEnd<Indexer>> {
    let event: PhaseEvent<StepTaskOutput<Indexer>> = if control.paused {
        PhaseEvent::PausedCommand(command)
    } else {
        PhaseEvent::Message(StreamMessage::NewCommand(command))
    };
    handle_single_step::<Indexer>(&table(), control, event)
}

fn identity_of(mut effects: Vec<PhaseEffect>) -> JobIdentity {
    assert_eq!(effects.len(), 1);
    match effects.pop() {
        Some(PhaseEffect::Reply(tx, identity)) => {
            drop(tx);
            identity
        }
        _ => panic!("no reply"),
    }
}

#[test]
fn a_new_phase_is_running() {
    let control = PhaseControl::new();
    assert_eq!(control.status, JobStatus::Running);
    assert!(!control.paused);
}

#[test]
fn init_result_ends_the_init_phase() {
    let output = JobInitOutput::from(((), vec![1, 2, 3]));
    let r = handle_init_phase::<Indexer>(
        &table(),
        running(),
        PhaseEvent::Message(StreamMessage::TaskResult(Ok((Some(9), Ok(output))))),
    );
    assert!(r.effects.is_empty());
    match r.end {
        Some(Ok(phase)) => {
            assert_eq!(phase.maybe_data, Some(9));
            let output = phase.output.ok().unwrap();
            assert_eq!(output.steps, vec![1, 2, 3]);
        }
        _ => panic!("the phase goes on"),
    }
}

#[test]
fn init_result_with_an_error_is_handed_on() {
    let r = handle_init_phase::<Indexer>(
        &table(),
        running(),
        PhaseEvent::Message(StreamMessage::TaskResult(Ok((
            None,
            Err(JobError::Failed("no disk".to_string())),
        )))),
    );
    match r.end {
        Some(Ok(phase)) => {
            assert_eq!(phase.maybe_data, None);
            assert!(matches!(phase.output, Err(JobError::Failed(text)) if text == "no disk"));
        }
        _ => panic!("the phase goes on"),
    }
}

#[test]
fn a_broken_task_is_a_join_error() {
    let r = handle_init_phase::<Indexer>(
        &table(),
        running(),
        PhaseEvent::Message(StreamMessage::TaskResult(Err(join_error()))),
    );
    assert!(matches!(r.end, Some(Err(JobError::JoinTask(e))) if e.is_cancelled()));

    let r = handle_single_step::<Indexer>(
        &table(),
        running(),
        PhaseEvent::Message(StreamMessage::TaskResult(Err(join_error()))),
    );
    assert!(matches!(r.end, Some(Err(JobError::JoinTask(e))) if e.is_cancelled()));
}

#[test]
fn step_result_ends_the_step() {
    let output: JobStepOutput<u32, ()> = JobStepOutput::from(vec![5, 6]);
    let r = handle_single_step::<Indexer>(
        &table(),
        running(),
        PhaseEvent::Message(StreamMessage::TaskResult(Ok(Ok(output)))),
    );
    match r.end {
        Some(Ok(StepPhaseEnd::Finished(Ok(output)))) => {
            assert_eq!(output.maybe_more_steps, Some(vec![5, 6]));
        }
        _ => panic!("the step goes on"),
    }
}

#[test]
fn a_stream_that_ends_is_critical() {
    let r = handle_init_phase::<Indexer>(&table(), running(), PhaseEvent::MessagesEnded);
    assert!(matches!(
        r.end,
        Some(Err(JobError::Critical("unexpect job init end without result")))
    ));
    let r = handle_single_step::<Indexer>(&table(), running(), PhaseEvent::MessagesEnded);
    assert!(matches!(
        r.end,
        Some(Err(JobError::Critical("unexpect job step end without result")))
    ));
}

#[test]
fn pausing_notifies_the_worker_once() {
    let r = init_hears(running(), WorkerCommand::Pause(Instant::now()));
    assert!(r.end.is_none());
    assert!(r.control.paused);
    assert_eq!(r.control.status, JobStatus::Paused);
    assert!(matches!(r.effects.as_slice(), [PhaseEffect::NotifyPaused]));

    let r = init_hears(r.control, WorkerCommand::Pause(Instant::now()));
    assert!(r.end.is_none());
    assert!(r.control.paused);
    assert!(r.effects.is_empty());
}

#[test]
fn resume_undoes_pause() {
    let r = step_hears(running(), WorkerCommand::Pause(Instant::now()));
    let r = step_hears(r.control, WorkerCommand::Resume(Instant::now()));
    assert!(r.end.is_none());
    assert!(r.effects.is_empty());
    assert!(!r.control.paused);
    assert_eq!(r.control.status, JobStatus::Running);
}

#[test]
fn resume_of_a_running_job_is_ignored() {
    let r = step_hears(running(), WorkerCommand::Resume(Instant::now()));
    assert!(r.end.is_none());
    assert!(r.effects.is_empty());
    assert!(!r.control.paused);
    assert_eq!(r.control.status, JobStatus::Running);
}

#[test]
fn a_job_tells_who_it_is_and_where_it_stands() {
    let (tx, _rx) = oneshot::channel();
    let r = init_hears(running(), WorkerCommand::IdentifyYourself(tx));
    let identity = identity_of(r.effects);
    assert_eq!(identity.id, Uuid::from_u128(42));
    assert_eq!(identity.name, "indexer");
    assert_eq!(identity.target_location, 7);
    assert_eq!(identity.status, JobStatus::Running);

    let (tx, _rx) = oneshot::channel();
    let r = step_hears(paused(), WorkerCommand::IdentifyYourself(tx));
    assert!(r.end.is_none());
    assert_eq!(identity_of(r.effects).status, JobStatus::Paused);
}

#[test]
fn the_reply_goes_to_whoever_asked() {
    let (tx, mut rx) = oneshot::channel();
    let mut r = init_hears(running(), WorkerCommand::IdentifyYourself(tx));
    match r.effects.pop() {
        Some(PhaseEffect::Reply(tx, identity)) => tx.send(identity).unwrap(),
        _ => panic!("no reply"),
    }
    assert_eq!(rx.try_recv().unwrap().name, "indexer");
}

#[test]
fn a_paused_job_stays_paused_until_resumed() {
    let mut control = paused();
    for _ in 0..3 {
        control = step_hears(control, WorkerCommand::Pause(Instant::now())).control;
        let (tx, _rx) = oneshot::channel();
        control = step_hears(control, WorkerCommand::IdentifyYourself(tx)).control;
        assert!(control.paused);
        assert_eq!(control.status, JobStatus::Paused);
    }
}

#[test]
fn shutdown_cancels_a_job_in_its_first_part() {
    for control in [running(), paused()] {
        let (tx, mut rx) = oneshot::channel();
        let r = init_hears(control, WorkerCommand::Shutdown(Instant::now(), tx));
        assert!(matches!(r.effects.as_slice(), [PhaseEffect::AbortTask]));
        match r.end {
            Some(Err(JobError::Canceled(signal))) => signal.send(()).unwrap(),
            _ => panic!("not canceled"),
        }
        assert_eq!(rx.try_recv(), Ok(()));
    }
}

#[test]
fn shutdown_suspends_a_step() {
    for control in [running(), paused()] {
        let (tx, mut rx) = oneshot::channel();
        let r = step_hears(control, WorkerCommand::Shutdown(Instant::now(), tx));
        assert!(matches!(
            r.effects.as_slice(),
            [PhaseEffect::AbortTask, PhaseEffect::JoinTask]
        ));
        match r.end {
            Some(Ok(StepPhaseEnd::Suspend(signal))) => signal.send(()).unwrap(),
            _ => panic!("not suspended"),
        }
        assert_eq!(rx.try_recv(), Ok(()));
    }
}

#[test]
fn cancel_ends_either_part() {
    for control in [running(), paused()] {
        let (tx, mut rx) = oneshot::channel();
        let r = init_hears(control, WorkerCommand::Cancel(Instant::now(), tx));
        assert!(matches!(r.effects.as_slice(), [PhaseEffect::AbortTask]));
        match r.end {
            Some(Err(JobError::Canceled(signal))) => signal.send(()).unwrap(),
            _ => panic!("not canceled"),
        }
        assert_eq!(rx.try_recv(), Ok(()));

        let (tx, mut rx) = oneshot::channel();
        let r = step_hears(control, WorkerCommand::Cancel(Instant::now(), tx));
        assert!(matches!(
            r.effects.as_slice(),
            [PhaseEffect::AbortTask, PhaseEffect::JoinTask]
        ));
        match r.end {
            Some(Err(JobError::Canceled(signal))) => signal.send(()).unwrap(),
            _ => panic!("not canceled"),
        }
        assert_eq!(rx.try_recv(), Ok(()));
    }
}

#[test]
fn timeout_is_acknowledged_and_ends_the_job() {
    for control in [running(), paused()] {
        let (tx, mut rx) = oneshot::channel();
        let elapsed = Duration::from_secs(5);
        let mut r = step_hears(control, WorkerCommand::Timeout(elapsed, tx));
        assert!(matches!(r.end, Some(Err(JobError::Timeout(e))) if e == elapsed));
        assert_eq!(r.effects.len(), 1);
        match r.effects.pop() {
            Some(PhaseEffect::Acknowledge(signal)) => signal.send(()).unwrap(),
            _ => panic!("not acknowledged"),
        }
        assert_eq!(rx.try_recv(), Ok(()));
    }
    let (tx, _rx) = oneshot::channel();
    let r = init_hears(running(), WorkerCommand::Timeout(Duration::from_millis(3), tx));
    assert!(matches!(r.end, Some(Err(JobError::Timeout(e))) if e == Duration::from_millis(3)));
    assert!(matches!(r.effects.as_slice(), [PhaseEffect::Acknowledge(_)]));
}

#[test]
fn a_closed_channel_is_critical_for_a_paused_job() {
    let r = handle_init_phase::<Indexer>(
        &table(),
        paused(),
        PhaseEvent::PausedCommandsEnded { closed: true },
    );
    assert!(matches!(
        r.end,
        Some(Err(JobError::Critical(
            "worker command channel closed while job was paused"
        )))
    ));
    let r = handle_single_step::<Indexer>(
        &table(),
        paused(),
        PhaseEvent::PausedCommandsEnded { closed: true },
    );
    assert!(matches!(
        r.end,
        Some(Err(JobError::Critical(
            "worker command channel closed while job was paused"
        )))
    ));
}

#[test]
fn without_commands_a_paused_job_looks_for_messages_again() {
    let r = handle_single_step::<Indexer>(
        &table(),
        paused(),
        PhaseEvent::PausedCommandsEnded { closed: false },
    );
    assert!(r.end.is_none());
    assert!(!r.control.paused);
    assert_eq!(r.control.status, JobStatus::Paused);

    let r = step_hears(r.control, WorkerCommand::Resume(Instant::now()));
    assert_eq!(r.control.status, JobStatus::Paused);
}

#[test]
fn a_suspended_job_ends_with_its_state_or_the_reason_why_not() {
    let (tx, mut rx) = oneshot::channel();
    match suspended(Ok(vec![1, 2]), tx) {
        JobError::Paused(state, signal) => {
            assert_eq!(state, vec![1, 2]);
            signal.send(()).unwrap();
        }
        _ => panic!("not paused"),
    }
    assert_eq!(rx.try_recv(), Ok(()));

    let (tx, _rx) = oneshot::channel();
    assert!(matches!(
        suspended(Err(rmp_serde::encode::Error::UnknownLength), tx),
        JobError::StateEncode(rmp_serde::encode::Error::UnknownLength)
    ));
}

#[test]
fn outside_errors_become_job_errors() {
    assert!(matches!(JobError::from(join_error()), JobError::JoinTask(_)));
    assert!(matches!(
        JobError::from(rmp_serde::encode::Error::UnknownLength),
        JobError::StateEncode(_)
    ));
    let error = rmp_serde::from_slice::<u32>(&[]).unwrap_err();
    assert!(matches!(JobError::from(error), JobError::StateDecode(_)));
}

#[test]
fn errors_of_a_run_read_as_lines() {
    let none = JobRunErrors::default();
    assert!(none.is_empty());
    assert_eq!(none.to_string(), "");

    let one = JobRunErrors::from(vec!["a".to_string()]);
    assert!(!one.is_empty());
    assert_eq!(one.to_string(), "a");

    let three = JobRunErrors::from(vec!["a".to_string(), String::new(), "c".to_string()]);
    assert_eq!(three.to_string(), "a\n\nc");
}
