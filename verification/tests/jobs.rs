use job_engine::run::JobRun;
use job_engine::{
    DynJob, Job, JobBuilder, JobError, JobReport, JobResult, JobRunOutput, JobState, JobStatus,
    LocationId, MarkAction, MarkEvent, RegisterAction, RegisterEvent, RunAction, RunEvent,
    StatefulJob,
};
use std::collections::hash_map::DefaultHasher;
use std::collections::VecDeque;
use std::hash::{Hash, Hasher};
use uuid::Uuid;

#[derive(Hash, Debug, PartialEq)]
struct Scan {
    path: String,
}

impl StatefulJob for Scan {
    type Data = u8;
    type Step = u32;
    type RunMetadata = ();

    const NAME: &'static str = "scan";

    fn target_location(&self) -> LocationId {
        11
    }
}

#[derive(Hash, Debug, PartialEq)]
struct Thumbnail;

impl StatefulJob for Thumbnail {
    type Data = u8;
    type Step = u32;
    type RunMetadata = ();

    const NAME: &'static str = "thumbnail";

    fn target_location(&self) -> LocationId {
        12
    }
}

enum Queued {
    Scan(Box<Job<Scan, Queued>>),
    Thumbnail(Box<Job<Thumbnail, Queued>>),
}

impl From<Box<Job<Scan, Queued>>> for Queued {
    fn from(job: Box<Job<Scan, Queued>>) -> Self {
        Queued::Scan(job)
    }
}

impl From<Box<Job<Thumbnail, Queued>>> for Queued {
    fn from(job: Box<Job<Thumbnail, Queued>>) -> Self {
        Queued::Thumbnail(job)
    }
}

impl DynJob<Queued> for Queued {
    fn id(&self) -> Uuid {
        match self {
            Queued::Scan(job) => job.id(),
            Queued::Thumbnail(job) => job.id(),
        }
    }

    fn parent_id(&self) -> Option<Uuid> {
        match self {
            Queued::Scan(job) => job.parent_id(),
            Queued::Thumbnail(job) => job.parent_id(),
        }
    }

    fn report(&self) -> &Option<JobReport> {
        match self {
            Queued::Scan(job) => job.report(),
            Queued::Thumbnail(job) => job.report(),
        }
    }

    fn report_mut(&mut self) -> &mut Option<JobReport> {
        match self {
            Queued::Scan(job) => job.report_mut(),
            Queued::Thumbnail(job) => job.report_mut(),
        }
    }

    fn name(&self) -> &'static str {
        match self {
            Queued::Scan(job) => job.name(),
            Queued::Thumbnail(job) => job.name(),
        }
    }

    fn hash(&self) -> u64 {
        match self {
            Queued::Scan(job) => DynJob::hash(job.as_ref()),
            Queued::Thumbnail(job) => DynJob::hash(job.as_ref()),
        }
    }

    fn set_next_jobs(&mut self, next_jobs: VecDeque<Queued>) {
        match self {
            Queued::Scan(job) => job.set_next_jobs(next_jobs),
            Queued::Thumbnail(job) => job.set_next_jobs(next_jobs),
        }
    }
}

impl Queued {
    fn waiting(&self) -> &VecDeque<Queued> {
        match self {
            Queued::Scan(job) => &job.next_jobs,
            Queued::Thumbnail(job) => &job.next_jobs,
        }
    }
}

/// A job without a report that can tell its identifier all the same.
struct Bare(Option<JobReport>);

impl DynJob<Bare> for Bare {
    fn id(&self) -> Uuid {
        Uuid::from_u128(99)
    }

    fn parent_id(&self) -> Option<Uuid> {
        None
    }

    fn report(&self) -> &Option<JobReport> {
        &self.0
    }

    fn report_mut(&mut self) -> &mut Option<JobReport> {
        &mut self.0
    }

    fn name(&self) -> &'static str {
        "bare"
    }

    fn hash(&self) -> u64 {
        0
    }

    fn set_next_jobs(&mut self, _next_jobs: VecDeque<Bare>) {}
}

fn scan(path: &str) -> Scan {
    Scan {
        path: path.to_string(),
    }
}

fn report(id: u128, data: Option<Vec<u8>>) -> JobReport {
    JobReport {
        id: Uuid::from_u128(id),
        name: "scan".to_string(),
        action: Some("scan-all".to_string()),
        data,
        metadata: None,
        created_at: Some(1),
        parent_id: Some(Uuid::from_u128(500)),
        status: JobStatus::Paused,
    }
}

fn state(steps: Vec<u32>) -> JobState<Scan> {
    JobState {
        init: scan("/a"),
        data: Some(1),
        steps: VecDeque::from(steps),
        step_number: 2,
        run_metadata: (),
    }
}

fn finished() -> JobRun<Scan> {
    JobRun {
        init: scan("/a"),
        data: Some(1),
        steps: VecDeque::new(),
        step_number: 3,
        run_metadata: (),
        errors: vec!["odd".to_string()],
        should_run: true,
    }
}

fn finish<Next: DynJob<Next>>(
    job: &mut Job<Scan, Next>,
    finalized: JobResult,
) -> Result<JobRunOutput<Next>, JobError> {
    let turn = job.advance(RunEvent::Finalized(finished(), finalized));
    assert!(turn.progress.is_none());
    match turn.action {
        RunAction::Return(output) => output,
        _ => panic!("the run goes on"),
    }
}

fn family() -> Box<Job<Scan, Queued>> {
    JobBuilder::new(scan("/a"))
        .with_action("scan-all")
        .build::<Queued>()
        .queue_next(Thumbnail)
        .queue_next(scan("/b"))
        .queue_next(Thumbnail)
}

#[test]
fn a_new_job_has_not_begun() {
    let job: Box<Job<Scan, Queued>> = Job::new(scan("/a"));
    let report = job.report().as_ref().unwrap();
    assert_eq!(report.id, job.id);
    assert_eq!(job.id(), job.id);
    assert_eq!(report.name, "scan");
    assert_eq!(report.action, None);
    assert_eq!(report.parent_id, None);
    assert_eq!(report.data, None);
    assert_eq!(report.metadata, None);
    assert_eq!(report.created_at, None);
    assert_eq!(report.status, JobStatus::Queued);
    assert_eq!(job.name(), "scan");
    assert_eq!(job.parent_id(), None);
    assert!(job.next_jobs.is_empty());
    let state = job.state.as_ref().unwrap();
    assert_eq!(state.init, scan("/a"));
    assert_eq!(state.data, None);
    assert!(state.steps.is_empty());
    assert_eq!(state.step_number, 0);
}

#[test]
fn a_new_identifier_is_a_random_one() {
    let one: Box<Job<Scan, Queued>> = Job::new(scan("/a"));
    let two: Box<Job<Scan, Queued>> = Job::new(scan("/a"));
    assert_eq!(one.id.get_version_num(), 4);
    assert_ne!(one.id, two.id);
}

#[test]
fn every_queued_job_has_an_identifier_of_its_own() {
    let job = family();
    let mut ids: Vec<Uuid> = job.next_jobs.iter().map(|child| child.id()).collect();
    assert!(ids.iter().all(|id| id.get_version_num() == 4));
    ids.push(job.id);
    ids.sort();
    ids.dedup();
    assert_eq!(ids.len(), 4);
}

#[test]
fn a_builder_gathers_what_is_said() {
    let job: Box<Job<Scan, Queued>> = JobBuilder::with_id(Uuid::from_u128(8), scan("/a"))
        .with_action("scan-all")
        .with_parent_id(Uuid::from_u128(9))
        .with_metadata(serde_json::Value::from(5))
        .build();
    assert_eq!(job.id, Uuid::from_u128(8));
    let report = job.report().as_ref().unwrap();
    assert_eq!(report.action.as_deref(), Some("scan-all"));
    assert_eq!(report.parent_id, Some(Uuid::from_u128(9)));
    assert_eq!(report.metadata, Some(serde_json::Value::from(5)));
    assert_eq!(job.parent_id(), Some(Uuid::from_u128(9)));
}

#[test]
fn the_digest_is_of_the_name_and_of_the_job() {
    let mut hasher = DefaultHasher::new();
    "scan".hash(&mut hasher);
    Hash::hash(&scan("/a"), &mut hasher);
    let expected = hasher.finish();

    assert_eq!(StatefulJob::hash(&scan("/a")), expected);
    let job: Box<Job<Scan, Queued>> = Job::new(scan("/a"));
    assert_eq!(DynJob::hash(job.as_ref()), expected);
    let other: Box<Job<Scan, Queued>> = Job::new(scan("/b"));
    assert_ne!(DynJob::hash(other.as_ref()), expected);
}

#[test]
fn alike_jobs_of_one_kind_share_a_digest() {
    let plain: Box<Job<Scan, Queued>> = Job::new(scan("/a"));
    let told: Box<Job<Scan, Queued>> = JobBuilder::with_id(Uuid::from_u128(8), scan("/a"))
        .with_action("scan-all")
        .build()
        .queue_next(Thumbnail);
    assert_ne!(plain.id, told.id);
    assert_eq!(plain.hash, told.hash);
    let again = Job::<Scan, Queued>::restore(report(3, None), state(vec![4]), None);
    assert_eq!(again.hash, plain.hash);
    let other: Box<Job<Thumbnail, Queued>> = Job::new(Thumbnail);
    assert_ne!(other.hash, plain.hash);
}

#[test]
fn queued_jobs_name_their_parent_and_their_place() {
    let job = family();
    assert_eq!(job.next_jobs.len(), 3);
    let names: Vec<&str> = job.next_jobs.iter().map(|child| child.name()).collect();
    assert_eq!(names, vec!["thumbnail", "scan", "thumbnail"]);
    for (i, child) in job.next_jobs.iter().enumerate() {
        assert_eq!(child.parent_id(), Some(job.id));
        let action = child.report().as_ref().unwrap().action.clone();
        assert_eq!(action, Some(format!("scan-all-{}", i + 1)));
    }
}

#[test]
fn the_place_is_written_in_decimal() {
    let mut job: Box<Job<Scan, Queued>> = JobBuilder::new(scan("/a")).with_action("x").build();
    for _ in 0..12 {
        job = job.queue_next(Thumbnail);
    }
    let action = |i: usize| job.next_jobs[i].report().as_ref().unwrap().action.clone();
    assert_eq!(action(8).as_deref(), Some("x-9"));
    assert_eq!(action(9).as_deref(), Some("x-10"));
    assert_eq!(action(11).as_deref(), Some("x-12"));
}

#[test]
fn a_child_of_a_job_without_an_action_has_none() {
    let job: Box<Job<Scan, Queued>> = Job::new(scan("/a"));
    let job = job.queue_next(Thumbnail);
    assert_eq!(job.next_jobs[0].report().as_ref().unwrap().action, None);
    assert_eq!(job.next_jobs[0].parent_id(), Some(job.id));

    let child = job.child_builder(JobBuilder::with_id(Uuid::from_u128(3), Thumbnail));
    assert_eq!(child.id, Uuid::from_u128(3));
    assert_eq!(child.report_builder.action, None);
    assert_eq!(child.report_builder.parent_id, Some(job.id));
}

#[test]
fn a_job_is_brought_back_from_its_report() {
    let decode = |data: Vec<u8>| Ok(state(data.into_iter().map(u32::from).collect()));
    let job: Box<Job<Scan, Queued>> =
        Job::new_from_report(report(6, Some(vec![4, 5])), None, decode)
            .ok()
            .unwrap();
    assert_eq!(job.id, Uuid::from_u128(6));
    assert_eq!(job.id(), Uuid::from_u128(6));
    assert_eq!(job.parent_id(), Some(Uuid::from_u128(500)));
    assert_eq!(DynJob::hash(job.as_ref()), StatefulJob::hash(&scan("/a")));
    assert_eq!(job.report().as_ref().unwrap().data, None);
    assert_eq!(job.report().as_ref().unwrap().status, JobStatus::Paused);
    assert_eq!(job.state.as_ref().unwrap().steps, vec![4, 5]);
    assert!(job.next_jobs.is_empty());
}

#[test]
fn a_job_is_brought_back_with_its_queue() {
    let next_jobs = family().next_jobs;
    let job: Box<Job<Scan, Queued>> =
        Job::new_from_report(report(6, Some(vec![])), Some(next_jobs), |_| {
            Ok(state(vec![]))
        })
        .ok()
        .unwrap();
    assert_eq!(job.next_jobs.len(), 3);
}

#[test]
fn a_report_without_a_state_brings_nothing_back() {
    let r: Result<Box<Job<Scan, Queued>>, JobError> =
        Job::new_from_report(report(6, None), None, |_| panic!("nothing to decode"));
    match r {
        Err(JobError::MissingJobDataState(id, name)) => {
            assert_eq!(id, Uuid::from_u128(6));
            assert_eq!(name, "scan");
        }
        _ => panic!("a state out of nothing"),
    }
}

#[test]
fn a_state_that_cannot_be_decoded_brings_nothing_back() {
    let r: Result<Box<Job<Scan, Queued>>, JobError> =
        Job::new_from_report(report(6, Some(vec![])), None, |data| {
            Err(rmp_serde::from_slice::<u32>(&data).unwrap_err())
        });
    assert!(matches!(r, Err(JobError::StateDecode(_))));
}

#[test]
fn a_state_is_encoded_as_it_stands() {
    let mut job: Box<Job<Scan, Queued>> = Job::new(scan("/a"));
    job.state = Some(state(vec![4, 5]));
    let bytes = job.serialize_state(|state| {
        let steps = &state.as_ref().unwrap().steps;
        Ok(steps.iter().map(|step| *step as u8).collect())
    });
    assert_eq!(bytes.ok(), Some(vec![4, 5]));
    let r = job.serialize_state(|_| Err(rmp_serde::encode::Error::UnknownLength));
    assert!(matches!(r, Err(JobError::StateEncode(_))));
}

#[test]
fn jobs_follow_in_the_order_in_which_they_were_queued() {
    let mut job = family();
    let output = finish(&mut job, Ok(Some(serde_json::Value::from("done"))))
        .ok()
        .unwrap();
    assert_eq!(output.metadata, Some(serde_json::Value::from("done")));
    assert_eq!(output.errors.0, vec!["odd".to_string()]);
    assert!(job.next_jobs.is_empty());

    let first = output.next_job.unwrap();
    assert_eq!(first.name(), "thumbnail");
    let action = |job: &Queued| job.report().as_ref().unwrap().action.clone().unwrap();
    assert_eq!(action(&first), "scan-all-1");
    let rest: Vec<String> = first.waiting().iter().map(action).collect();
    assert_eq!(rest, vec!["scan-all-2", "scan-all-3"]);
}

#[test]
fn the_next_job_is_the_queued_one_as_it_stood() {
    let mut job: Box<Job<Scan, Queued>> = Job::new(scan("/a"));
    let next = Job::<Scan, Queued>::restore(report(3, None), state(vec![4, 5]), None);
    job.next_jobs.push_back(Queued::from(next));
    let mut job = job.queue_next(Thumbnail);
    let next = match finish(&mut job, Ok(None)).ok().unwrap().next_job {
        Some(Queued::Scan(next)) => next,
        _ => panic!("another job"),
    };
    assert_eq!(next.id, Uuid::from_u128(3));
    assert_eq!(next.next_jobs.len(), 1);
    let state = next.state.as_ref().unwrap();
    assert_eq!(state.steps, vec![4, 5]);
    assert_eq!(state.step_number, 2);
    assert_eq!(state.data, Some(1));
}

#[test]
fn the_last_job_has_none_to_follow() {
    let mut job: Box<Job<Scan, Queued>> = Job::new(scan("/a"));
    let output = finish(&mut job, Ok(None)).ok().unwrap();
    assert!(output.next_job.is_none());
    assert_eq!(output.metadata, None);
}

#[test]
fn an_error_at_the_last_word_keeps_the_queue() {
    let mut job = family();
    let r = finish(&mut job, Err(JobError::Failed("late".to_string())));
    assert!(matches!(r, Err(JobError::Failed(text)) if text == "late"));
    assert_eq!(job.next_jobs.len(), 3);
}

fn store(job: &mut Job<Scan, Queued>, place: usize) {
    job.next_jobs[place].report_mut().as_mut().unwrap().created_at = Some(5);
}

#[test]
fn reports_are_stored_once_and_in_order() {
    let mut job = family();
    store(&mut job, 1);
    let mut event = RegisterEvent::Begun;
    let mut places = Vec::new();
    loop {
        match job.register_children(event) {
            RegisterAction::Create(place) => {
                places.push(place);
                store(&mut job, place);
                event = RegisterEvent::Created(place, Ok(()));
            }
            RegisterAction::Return(over) => {
                assert!(over.is_ok());
                break;
            }
        }
    }
    assert_eq!(places, vec![0, 2]);
    assert!(matches!(
        job.register_children(RegisterEvent::Begun),
        RegisterAction::Return(Ok(()))
    ));
}

#[test]
fn a_report_that_cannot_be_stored_is_the_last() {
    let job = family();
    let error = JobError::Failed("full".to_string());
    assert!(matches!(
        job.register_children(RegisterEvent::Created(0, Err(error))),
        RegisterAction::Return(Err(JobError::Failed(text))) if text == "full"
    ));
}

#[test]
fn a_queued_job_without_a_report_is_an_error() {
    let mut job: Box<Job<Scan, Bare>> = Job::new(scan("/a"));
    job.next_jobs.push_back(Bare(Some(report(1, None))));
    job.next_jobs.push_back(Bare(None));
    match job.register_children(RegisterEvent::Begun) {
        RegisterAction::Return(Err(JobError::MissingReport { id, name })) => {
            assert_eq!(id, Uuid::from_u128(99));
            assert_eq!(name, "bare");
        }
        _ => panic!("a report out of nothing"),
    }
    assert!(matches!(
        job.pause_children(MarkEvent::Serialized(1, Ok(vec![1]))),
        MarkAction::Return(Err(JobError::MissingReport { id, name }))
            if id == Uuid::from_u128(99) && name == "bare"
    ));
    assert!(matches!(
        job.cancel_children(MarkEvent::Serialized(1, Ok(vec![1]))),
        MarkAction::Return(Err(JobError::MissingReport { .. }))
    ));
}

#[test]
fn every_queued_job_is_paused_with_its_own_state() {
    let mut job = family();
    let ids: Vec<Uuid> = job.next_jobs.iter().map(|child| child.id()).collect();
    let mut event = MarkEvent::Begun;
    let mut told = Vec::new();
    loop {
        match job.pause_children(event) {
            MarkAction::Serialize(place) => {
                told.push(format!("serialize {place}"));
                event = MarkEvent::Serialized(place, Ok(vec![place as u8]));
            }
            MarkAction::Update(place) => {
                told.push(format!("update {place}"));
                event = MarkEvent::Updated(place, Ok(()));
            }
            MarkAction::Return(over) => {
                assert!(over.is_ok());
                break;
            }
        }
    }
    assert_eq!(
        told,
        vec![
            "serialize 0",
            "update 0",
            "serialize 1",
            "update 1",
            "serialize 2",
            "update 2"
        ]
    );
    for (i, child) in job.next_jobs.iter().enumerate() {
        let report = child.report().as_ref().unwrap();
        assert_eq!(child.id(), ids[i]);
        assert_eq!(child.parent_id(), Some(job.id));
        assert_eq!(report.status, JobStatus::Paused);
        assert_eq!(report.data, Some(vec![i as u8]));
        assert_eq!(report.action, Some(format!("scan-all-{}", i + 1)));
    }
}

#[test]
fn canceling_one_queued_job_leaves_the_others() {
    let mut job = family();
    assert!(matches!(
        job.cancel_children(MarkEvent::Serialized(1, Ok(vec![7]))),
        MarkAction::Update(1)
    ));
    let status = |i: usize| job.next_jobs[i].report().as_ref().unwrap().status;
    assert_eq!(status(0), JobStatus::Queued);
    assert_eq!(status(1), JobStatus::Canceled);
    assert_eq!(status(2), JobStatus::Queued);
    assert_eq!(
        job.next_jobs[1].report().as_ref().unwrap().data,
        Some(vec![7])
    );
}

#[test]
fn a_marked_job_keeps_its_state() {
    let mut job: Box<Job<Scan, Queued>> = Job::new(scan("/a"));
    let next = Job::<Scan, Queued>::restore(report(3, None), state(vec![4, 5]), None);
    job.next_jobs.push_back(Queued::from(next));
    assert!(matches!(
        job.pause_children(MarkEvent::Serialized(0, Ok(vec![7]))),
        MarkAction::Update(0)
    ));
    let next = match &job.next_jobs[0] {
        Queued::Scan(next) => next,
        _ => panic!("another job"),
    };
    assert_eq!(next.id, Uuid::from_u128(3));
    let state = next.state.as_ref().unwrap();
    assert_eq!(state.steps, vec![4, 5]);
    assert_eq!(state.step_number, 2);
}

#[test]
fn a_state_that_cannot_be_encoded_marks_nothing() {
    let mut job = family();
    let error = JobError::StateEncode(rmp_serde::encode::Error::UnknownLength);
    assert!(matches!(
        job.pause_children(MarkEvent::Serialized(0, Err(error))),
        MarkAction::Return(Err(JobError::StateEncode(_)))
    ));
    let report = job.next_jobs[0].report().as_ref().unwrap();
    assert_eq!(report.status, JobStatus::Queued);
    assert_eq!(report.data, None);
}

#[test]
fn a_report_that_cannot_be_stored_again_ends_the_pass() {
    let mut job = family();
    let error = JobError::Failed("full".to_string());
    assert!(matches!(
        job.cancel_children(MarkEvent::Updated(0, Err(error))),
        MarkAction::Return(Err(JobError::Failed(text))) if text == "full"
    ));
    assert!(matches!(
        job.cancel_children(MarkEvent::Updated(2, Ok(()))),
        MarkAction::Return(Ok(()))
    ));
    assert!(matches!(
        job.cancel_children(MarkEvent::Updated(1, Ok(()))),
        MarkAction::Serialize(2)
    ));
}

#[test]
fn nothing_is_to_be_done_for_an_empty_queue() {
    let mut job: Box<Job<Scan, Queued>> = Job::new(scan("/a"));
    assert!(matches!(
        job.pause_children(MarkEvent::Begun),
        MarkAction::Return(Ok(()))
    ));
    assert!(matches!(
        job.register_children(RegisterEvent::Begun),
        RegisterAction::Return(Ok(()))
    ));
}
