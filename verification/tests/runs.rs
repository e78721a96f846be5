use job_engine::phase::InitPhaseOutput;
use job_engine::run::{init_progress, JobRun, NextStep, RunStart, RunningStep};
use job_engine::{
    JobError, JobInitOutput, JobReportUpdate, JobRunErrors, JobRunMetadata, JobState,
    JobStepOutput, LocationId, StatefulJob,
};
use std::collections::VecDeque;

#[derive(Default, Debug, PartialEq, Clone)]
struct Tally(u64);

impl JobRunMetadata for Tally {
    fn update(&mut self, new_data: Self) {
        self.0 += new_data.0;
    }
}

#[derive(Hash, Debug, PartialEq)]
struct Copier {
    target: u8,
}

impl StatefulJob for Copier {
    type Data = &'static str;
    type Step = u32;
    type RunMetadata = Tally;

    const NAME: &'static str = "copier";

    fn target_location(&self) -> LocationId {
        1
    }
}

#[derive(Hash)]
struct Batched;

impl StatefulJob for Batched {
    type Data = ();
    type Step = u32;
    type RunMetadata = ();

    const NAME: &'static str = "batched";
    const IS_BATCHED: bool = true;

    fn target_location(&self) -> LocationId {
        1
    }
}

fn state(data: Option<&'static str>, steps: Vec<u32>, step_number: usize) -> JobState<Copier> {
    JobState {
        init: Copier { target: 3 },
        data,
        steps: VecDeque::from(steps),
        step_number,
        run_metadata: Tally(10),
    }
}

fn ready(state: JobState<Copier>) -> JobRun<Copier> {
    match JobRun::start(state) {
        RunStart::Ready(run) => run,
        RunStart::Init(_) => panic!("the job is brand new"),
    }
}

fn execute<SJob: StatefulJob>(run: JobRun<SJob>) -> RunningStep<SJob> {
    match run.next_step() {
        NextStep::Execute(running) => running,
        NextStep::Finalize(_) => panic!("no step to take"),
    }
}

fn ends<SJob: StatefulJob>(run: JobRun<SJob>) -> JobRun<SJob> {
    match run.next_step() {
        NextStep::Execute(_) => panic!("a step to take"),
        NextStep::Finalize(run) => run,
    }
}

#[test]
fn a_job_without_data_is_brand_new() {
    match JobRun::start(state(None, vec![], 0)) {
        RunStart::Init(state) => assert_eq!(state.init, Copier { target: 3 }),
        RunStart::Ready(_) => panic!("it was never under way"),
    }
}

#[test]
fn a_job_with_data_goes_on_with_its_steps() {
    let run = ready(state(Some("d"), vec![4, 5], 2));
    assert_eq!(run.steps, vec![4, 5]);
    assert_eq!(run.step_number, 2);
    assert_eq!(run.run_metadata, Tally(10));
    assert!(run.errors.is_empty());
    let running = execute(run);
    assert_eq!(*running.current().step, 4);
    assert_eq!(running.current().step_number, 2);
    assert_eq!(running.rest, vec![5]);
}

#[test]
fn the_first_part_sets_the_steps() {
    let output = JobInitOutput::from((
        Tally(5),
        vec![7, 8],
        JobRunErrors::from(vec!["odd".to_string()]),
    ));
    let run = JobRun::after_init(
        state(None, vec![], 0),
        InitPhaseOutput {
            maybe_data: Some("d"),
            output: Ok(output),
        },
    )
    .ok()
    .unwrap();
    assert_eq!(run.data, Some("d"));
    assert_eq!(run.steps, vec![7, 8]);
    assert_eq!(run.run_metadata, Tally(15));
    assert_eq!(run.errors, vec!["odd".to_string()]);
    assert!(run.should_run);
    assert_eq!(execute(run).step, 7);
}

#[test]
fn an_early_finish_of_the_first_part_leaves_the_last_word() {
    let run = JobRun::after_init(
        state(None, vec![1], 0),
        InitPhaseOutput {
            maybe_data: Some("d"),
            output: Err(JobError::EarlyFinish {
                name: "copier".to_string(),
                reason: "nothing to copy".to_string(),
            }),
        },
    )
    .ok()
    .unwrap();
    let run = ends(run);
    assert_eq!(run.data, Some("d"));
    assert_eq!(run.run_metadata, Tally(10));
}

#[test]
fn another_error_of_the_first_part_ends_the_run() {
    let r = JobRun::after_init(
        state(None, vec![], 0),
        InitPhaseOutput {
            maybe_data: None,
            output: Err(JobError::Failed("x".to_string())),
        },
    );
    assert!(matches!(r, Err(JobError::Failed(text)) if text == "x"));
}

#[test]
fn a_job_without_data_takes_no_steps() {
    let run = JobRun::after_init(
        state(None, vec![], 0),
        InitPhaseOutput {
            maybe_data: None,
            output: Ok(JobInitOutput::from((Tally(0), vec![1, 2]))),
        },
    )
    .ok()
    .unwrap();
    assert_eq!(ends(run).steps, vec![1, 2]);
}

#[test]
fn a_run_without_steps_left_has_its_last_word() {
    assert!(ends(ready(state(Some("d"), vec![], 3))).steps.is_empty());
}

#[test]
fn a_step_that_asks_for_more_puts_them_last() {
    let running = execute(ready(state(Some("d"), vec![1, 2, 3], 4)));
    let done = running
        .complete_step(Ok(JobStepOutput::from((
            vec![8, 9],
            Tally(1),
            JobRunErrors::from(vec!["odd".to_string()]),
        ))))
        .ok()
        .unwrap();
    assert_eq!(done.run.steps, vec![2, 3, 8, 9]);
    assert_eq!(done.run.step_number, 5);
    assert_eq!(done.run.run_metadata, Tally(11));
    assert_eq!(done.run.errors, vec!["odd".to_string()]);
    assert_eq!(
        done.progress,
        Some(vec![
            JobReportUpdate::CompletedTaskCount(5),
            JobReportUpdate::TaskCount(5),
        ])
    );
}

#[test]
fn a_step_that_comes_up_with_nothing_only_counts() {
    let running = execute(ready(state(Some("d"), vec![1, 2], 0)));
    let done = running
        .complete_step(Ok(JobStepOutput::from(None::<()>)))
        .ok()
        .unwrap();
    assert_eq!(done.run.steps, vec![2]);
    assert_eq!(done.run.run_metadata, Tally(10));
    assert_eq!(
        done.progress,
        Some(vec![JobReportUpdate::CompletedTaskCount(1)])
    );
}

#[test]
fn an_early_finish_in_a_step_leaves_the_last_word() {
    let running = execute(ready(state(Some("d"), vec![1, 2], 6)));
    let done = running
        .complete_step(Err(JobError::EarlyFinish {
            name: "copier".to_string(),
            reason: "full".to_string(),
        }))
        .ok()
        .unwrap();
    assert_eq!(done.progress, None);
    let run = ends(done.run);
    assert_eq!(run.step_number, 6);
    assert_eq!(run.steps, vec![2]);
}

#[test]
fn another_error_in_a_step_ends_the_run() {
    let running = execute(ready(state(Some("d"), vec![1, 2], 6)));
    let r = running.complete_step(Err(JobError::Critical("gone")));
    assert!(matches!(r, Err(JobError::Critical("gone"))));
}

#[test]
fn a_batched_job_is_left_to_tell_for_itself() {
    let run = JobRun::<Batched> {
        init: Batched,
        data: Some(()),
        steps: VecDeque::from(vec![1]),
        step_number: 0,
        run_metadata: (),
        errors: Vec::new(),
        should_run: true,
    };
    let done = execute(run)
        .complete_step(Ok(JobStepOutput::from(vec![2])))
        .ok()
        .unwrap();
    assert_eq!(done.progress, None);
    assert_eq!(done.run.steps, vec![2]);

    let output = Ok(JobInitOutput::from(vec![1, 2]));
    assert_eq!(init_progress::<Batched>(&output), None);
}

#[test]
fn the_number_of_steps_is_told_once_they_are_known() {
    let output = Ok(JobInitOutput::from(vec![1, 2, 3]));
    assert_eq!(
        init_progress::<Copier>(&output),
        Some(vec![JobReportUpdate::TaskCount(3)])
    );
    assert_eq!(
        init_progress::<Copier>(&Err(JobError::Critical("gone"))),
        None
    );
}

#[test]
fn steps_run_in_order() {
    let mut run = ready(state(Some("d"), vec![1, 2], 0));
    let mut taken = Vec::new();
    let mut asked = VecDeque::from(vec![vec![3], vec![], vec![4, 5], vec![], vec![]]);
    loop {
        match run.next_step() {
            NextStep::Finalize(last) => {
                assert_eq!(last.step_number, 5);
                assert_eq!(last.errors, vec!["1", "2", "3", "4", "5"]);
                break;
            }
            NextStep::Execute(running) => {
                assert_eq!(running.step_number, taken.len());
                taken.push(running.step);
                let trouble = JobRunErrors::from(vec![running.step.to_string()]);
                let more = asked.pop_front().unwrap();
                let output = JobStepOutput::from((more, Tally(1), trouble));
                run = running.complete_step(Ok(output)).ok().unwrap().run;
            }
        }
    }
    assert_eq!(taken, vec![1, 2, 3, 4, 5]);
}

#[test]
fn an_interrupted_step_runs_again() {
    let running = execute(ready(state(Some("d"), vec![1, 2, 3], 4)));
    let state = running.interrupt();
    assert_eq!(state.steps, vec![1, 2, 3]);
    assert_eq!(state.step_number, 4);
    assert_eq!(state.data, Some("d"));
    assert_eq!(state.run_metadata, Tally(10));
    assert_eq!(state.init, Copier { target: 3 });

    let again = execute(ready(state));
    assert_eq!(again.step, 1);
    assert_eq!(again.rest, vec![2, 3]);
    assert_eq!(again.step_number, 4);
}

#[test]
fn outputs_of_the_first_part() {
    let output: JobInitOutput<Tally, u32> = JobInitOutput::from((Tally(2), vec![1, 2]));
    assert_eq!(output.run_metadata, Tally(2));
    assert_eq!(output.steps, vec![1, 2]);
    assert!(output.errors.is_empty());

    let output: JobInitOutput<Tally, u32> = JobInitOutput::from(vec![3]);
    assert_eq!(output.run_metadata, Tally(0));
    assert_eq!(output.steps, vec![3]);
    assert!(output.errors.is_empty());

    let errors = JobRunErrors::from(vec!["e".to_string()]);
    let output: JobInitOutput<Tally, u32> = JobInitOutput::from((Tally(2), vec![], errors));
    assert_eq!(output.errors.0, vec!["e".to_string()]);
}

#[test]
fn outputs_of_a_step() {
    let errors = || JobRunErrors::from(vec!["e".to_string()]);

    let output: JobStepOutput<u32, Tally> = JobStepOutput::from(vec![1]);
    assert_eq!(output.maybe_more_steps, Some(vec![1]));
    assert_eq!(output.maybe_more_metadata, None);
    assert!(output.errors.is_empty());

    let output: JobStepOutput<u32, Tally> = JobStepOutput::from(Tally(3));
    assert_eq!(output.maybe_more_steps, None);
    assert_eq!(output.maybe_more_metadata, Some(Tally(3)));
    assert!(output.errors.is_empty());

    let output: JobStepOutput<u32, Tally> = JobStepOutput::from(errors());
    assert_eq!(output.maybe_more_steps, None);
    assert_eq!(output.maybe_more_metadata, None);
    assert_eq!(output.errors.0, vec!["e".to_string()]);

    let output: JobStepOutput<u32, Tally> = JobStepOutput::from((vec![1], Tally(3)));
    assert_eq!(output.maybe_more_steps, Some(vec![1]));
    assert_eq!(output.maybe_more_metadata, Some(Tally(3)));
    assert!(output.errors.is_empty());

    let output: JobStepOutput<u32, Tally> = JobStepOutput::from((Tally(3), errors()));
    assert_eq!(output.maybe_more_steps, None);
    assert_eq!(output.maybe_more_metadata, Some(Tally(3)));
    assert_eq!(output.errors.0, vec!["e".to_string()]);

    let output: JobStepOutput<u32, Tally> = JobStepOutput::from((vec![1], Tally(3), errors()));
    assert_eq!(output.maybe_more_steps, Some(vec![1]));
    assert_eq!(output.maybe_more_metadata, Some(Tally(3)));
    assert_eq!(output.errors.0, vec!["e".to_string()]);

    let output: JobStepOutput<u32, Tally> = JobStepOutput::from(None::<()>);
    assert_eq!(output.maybe_more_steps, None);
    assert_eq!(output.maybe_more_metadata, None);
    assert!(output.errors.is_empty());
}

#[test]
fn nothing_to_learn_learns_nothing() {
    let mut nothing = ();
    nothing.update(());
    assert_eq!(nothing, ());
}
