use job_engine::phase::{InitPhaseOutput, StepPhaseEnd};
use job_engine::run::RunningStep;
use job_engine::{
    DynJob, Job, JobError, JobInitOutput, JobReport, JobReportUpdate, JobRunErrors, JobState,
    JobStepOutput, LocationId, RunAction, RunEvent, StatefulJob,
};
use std::collections::VecDeque;
use tokio::sync::oneshot;
use uuid::Uuid;

#[derive(Hash, Debug, PartialEq)]
struct Sync;

impl StatefulJob for Sync {
    type Data = &'static str;
    type Step = u32;
    type RunMetadata = ();

    const NAME: &'static str = "sync";

    fn target_location(&self) -> LocationId {
        21
    }
}

/// What stands for a job in a queue that is always empty.
enum Nobody {}

impl DynJob<Nobody> for Nobody {
    fn id(&self) -> Uuid {
        unreachable!()
    }

    fn parent_id(&self) -> Option<Uuid> {
        unreachable!()
    }

    fn report(&self) -> &Option<JobReport> {
        unreachable!()
    }

    fn report_mut(&mut self) -> &mut Option<JobReport> {
        unreachable!()
    }

    fn name(&self) -> &'static str {
        unreachable!()
    }

    fn hash(&self) -> u64 {
        unreachable!()
    }

    fn set_next_jobs(&mut self, _next_jobs: VecDeque<Nobody>) {}
}

type Action = RunAction<Sync, Nobody>;

fn state(steps: Vec<u32>) -> JobState<Sync> {
    JobState {
        init: Sync,
        data: Some("d"),
        steps: VecDeque::from(steps),
        step_number: 2,
        run_metadata: (),
    }
}

fn under_way(steps: Vec<u32>) -> Box<Job<Sync, Nobody>> {
    let mut job: Box<Job<Sync, Nobody>> = Job::new(Sync);
    job.state = Some(state(steps));
    job
}

fn step_of(action: Action) -> RunningStep<Sync> {
    match action {
        RunAction::RunStep(running) => running,
        _ => panic!("no step to take"),
    }
}

fn early_finish() -> JobError {
    JobError::EarlyFinish {
        name: "sync".to_string(),
        reason: "nothing new".to_string(),
    }
}

#[test]
fn a_new_job_begins_with_its_first_part() {
    let mut job: Box<Job<Sync, Nobody>> = Job::new(Sync);
    let (table, action) = job.run();
    assert!(job.state.is_none());
    assert_eq!(table.id, job.id);
    assert_eq!(table.name, "sync");
    assert_eq!(table.target_location, 21);
    assert!(matches!(action, RunAction::RunInit(state) if state.data.is_none()));
}

#[test]
fn a_job_under_way_goes_on_with_its_steps() {
    let mut job = under_way(vec![4, 5]);
    let (_, action) = job.run();
    let running = step_of(action);
    assert_eq!(running.step, 4);
    assert_eq!(running.step_number, 2);

    let mut job = under_way(vec![]);
    let (_, action) = job.run();
    assert!(matches!(action, RunAction::RunFinalize(run) if run.step_number == 2));
}

#[test]
fn a_job_runs_from_its_first_part_to_its_last_word() {
    let mut job: Box<Job<Sync, Nobody>> = Job::new(Sync);
    let (_, mut action) = job.run();
    let mut told = Vec::new();
    let mut taken = Vec::new();
    let output = loop {
        let event = match action {
            RunAction::RunInit(state) => RunEvent::InitEnded(
                state,
                InitPhaseOutput {
                    maybe_data: Some("d"),
                    output: Ok(JobInitOutput::from((
                        (),
                        vec![1, 2],
                        JobRunErrors::from(vec!["init".to_string()]),
                    ))),
                },
            ),
            RunAction::RunStep(running) => {
                taken.push(running.step);
                let more = if running.step == 1 { vec![3] } else { vec![] };
                let trouble = JobRunErrors::from(vec![running.step.to_string()]);
                let output = JobStepOutput::from((more, (), trouble));
                RunEvent::StepEnded(running, StepPhaseEnd::Finished(Ok(output)))
            }
            RunAction::RunFinalize(run) => {
                assert_eq!(run.data, Some("d"));
                RunEvent::Finalized(run, Ok(Some(serde_json::Value::from(true))))
            }
            RunAction::EncodeState(_, _) => panic!("nobody cut the run short"),
            RunAction::Return(output) => break output,
        };
        let turn = job.advance(event);
        told.extend(turn.progress);
        action = turn.action;
    };
    assert_eq!(taken, vec![1, 2, 3]);
    assert_eq!(
        told,
        vec![
            vec![
                JobReportUpdate::CompletedTaskCount(1),
                JobReportUpdate::TaskCount(3)
            ],
            vec![
                JobReportUpdate::CompletedTaskCount(2),
                JobReportUpdate::TaskCount(2)
            ],
            vec![
                JobReportUpdate::CompletedTaskCount(3),
                JobReportUpdate::TaskCount(1)
            ],
        ]
    );
    let output = output.ok().unwrap();
    assert_eq!(output.errors.to_string(), "init\n1\n2\n3");
    assert_eq!(output.metadata, Some(serde_json::Value::from(true)));
    assert!(output.next_job.is_none());
}

#[test]
fn an_early_finish_leads_to_the_last_word() {
    let mut job: Box<Job<Sync, Nobody>> = Job::new(Sync);
    let turn = job.advance(RunEvent::InitEnded(
        state(vec![1]),
        InitPhaseOutput {
            maybe_data: Some("d"),
            output: Err(early_finish()),
        },
    ));
    assert!(matches!(turn.action, RunAction::RunFinalize(_)));

    let mut job = under_way(vec![4, 5]);
    let (_, action) = job.run();
    let running = step_of(action);
    let turn = job.advance(RunEvent::StepEnded(
        running,
        StepPhaseEnd::Finished(Err(early_finish())),
    ));
    assert!(turn.progress.is_none());
    assert!(matches!(turn.action, RunAction::RunFinalize(run) if run.step_number == 2));
}

#[test]
fn any_other_error_is_returned() {
    let mut job: Box<Job<Sync, Nobody>> = Job::new(Sync);
    let turn = job.advance(RunEvent::InitEnded(
        state(vec![1]),
        InitPhaseOutput {
            maybe_data: None,
            output: Err(JobError::Failed("a".to_string())),
        },
    ));
    assert!(matches!(turn.action, RunAction::Return(Err(JobError::Failed(text))) if text == "a"));

    let mut job = under_way(vec![4]);
    let (_, action) = job.run();
    let turn = job.advance(RunEvent::StepEnded(
        step_of(action),
        StepPhaseEnd::Finished(Err(JobError::Failed("b".to_string()))),
    ));
    assert!(matches!(turn.action, RunAction::Return(Err(JobError::Failed(text))) if text == "b"));

    let turn = job.advance(RunEvent::PhaseFailed(JobError::Critical("c")));
    assert!(matches!(
        turn.action,
        RunAction::Return(Err(JobError::Critical("c")))
    ));
}

#[test]
fn a_job_that_is_shut_down_goes_on_with_the_same_step() {
    let mut job = under_way(vec![4, 5]);
    let (_, action) = job.run();
    let (tx, mut rx) = oneshot::channel();
    let turn = job.advance(RunEvent::StepEnded(
        step_of(action),
        StepPhaseEnd::Suspend(tx),
    ));
    let (state, signal) = match turn.action {
        RunAction::EncodeState(state, signal) => (state, signal),
        _ => panic!("nothing to encode"),
    };
    assert_eq!(state.steps, vec![4, 5]);

    let turn = job.advance(RunEvent::StateEncoded(Ok(vec![7]), signal));
    match turn.action {
        RunAction::Return(Err(JobError::Paused(bytes, signal))) => {
            assert_eq!(bytes, vec![7]);
            signal.send(()).unwrap();
        }
        _ => panic!("not paused"),
    }
    assert_eq!(rx.try_recv(), Ok(()));

    job.state = Some(state);
    let (_, action) = job.run();
    let again = step_of(action);
    assert_eq!(again.step, 4);
    assert_eq!(again.step_number, 2);
    assert_eq!(again.rest, vec![5]);
}

#[test]
fn a_state_that_cannot_be_encoded_is_returned_as_such() {
    let mut job = under_way(vec![]);
    let (tx, _rx) = oneshot::channel();
    let turn = job.advance(RunEvent::StateEncoded(
        Err(rmp_serde::encode::Error::UnknownLength),
        tx,
    ));
    assert!(matches!(
        turn.action,
        RunAction::Return(Err(JobError::StateEncode(_)))
    ));
}
