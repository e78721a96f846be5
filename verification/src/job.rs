//! A job: how it is built, queued behind another and brought back.

use crate::error::JobError;
use crate::metadata::JobMetadata;
use crate::outside::new_v4;
use crate::output::JobRunErrors;
use crate::report::{JobReport, JobReportBuilder};
use crate::stateful::{DynJob, JobFace, StatefulJob};
use crate::text::numbered;
use std::collections::VecDeque;
use uuid::Uuid;
use vstd::prelude::*;

verus! {

/// Everything that a job needs to go on from where it is.
pub struct JobState<Job: StatefulJob> {
    pub init: Job,
    pub data: Option<Job::Data>,
    pub steps: VecDeque<Job::Step>,
    pub step_number: usize,
    pub run_metadata: Job::RunMetadata,
}

impl<Job: StatefulJob> JobState<Job> {
    /// Whether this is the state of a job that has not begun.
    pub open spec fn is_fresh(self, init: Job) -> bool {
        &&& self.init == init
        &&& self.data is None
        &&& self.steps@ == Seq::<Job::Step>::empty()
        &&& self.step_number == 0
        &&& call_ensures(<Job::RunMetadata as Default>::default, (), self.run_metadata)
    }
}

/// A job of a known kind. `Next` is what stands for a job of any kind in the
/// queue of those that wait for this one.
pub struct Job<SJob: StatefulJob, Next> {
    pub id: Uuid,
    pub hash: u64,
    pub report: Option<JobReport>,
    pub state: Option<JobState<SJob>>,
    pub next_jobs: VecDeque<Next>,
}

/// What a run leaves behind.
pub struct JobRunOutput<Next> {
    pub metadata: JobMetadata,
    pub errors: JobRunErrors,
    pub next_job: Option<Next>,
}

/// Whether `id` is an identifier that was drawn for a new job.
pub closed spec fn is_drawn(id: Uuid) -> bool {
    call_ensures(new_v4, (), id)
}

/// An identifier that was drawn is one that `new_v4` gave, and no other.
pub(crate) proof fn law_drawn_identifiers_are_new_v4(id: Uuid)
    ensures
        is_drawn(id) <==> call_ensures(new_v4, (), id),
{
}

/// Gathers what a job starts out with.
pub struct JobBuilder<SJob: StatefulJob> {
    pub id: Uuid,
    pub init: SJob,
    pub report_builder: JobReportBuilder,
}

impl<SJob: StatefulJob> JobBuilder<SJob> {
    /// Whether `job` is what is built: it has not begun, and nothing waits for
    /// it.
    pub open spec fn builds<Next>(self, job: Job<SJob, Next>) -> bool {
        &&& job.id == self.id
        &&& call_ensures(<SJob as StatefulJob>::hash, (&self.init,), job.hash)
        &&& job.report == Some(self.report_builder.built())
        &&& job.state matches Some(state) && state.is_fresh(self.init)
        &&& job.next_jobs@ == Seq::<Next>::empty()
    }

    /// Whether this is what is gathered for a job before anything is said of
    /// it: a report under the same identifier, named after the kind.
    pub open spec fn is_plain(self, init: SJob) -> bool {
        &&& self.init == init
        &&& self.report_builder.id == self.id
        &&& self.report_builder.name@ == SJob::NAME@
        &&& self.report_builder.action is None
        &&& self.report_builder.metadata is None
        &&& self.report_builder.parent_id is None
    }

    pub fn build<Next>(self) -> (r: Box<Job<SJob, Next>>)
        ensures
            self.builds(*r),
    {
        let hash: u64 = StatefulJob::hash(&self.init);
        Box::new(
            Job {
                id: self.id,
                hash,
                report: Some(self.report_builder.build()),
                state: Some(
                    JobState {
                        init: self.init,
                        data: None,
                        steps: VecDeque::new(),
                        step_number: 0,
                        run_metadata: Default::default(),
                    },
                ),
                next_jobs: VecDeque::new(),
            },
        )
    }

    /// Begins to gather, for a job under an identifier that is drawn for it.
    pub fn new(init: SJob) -> (r: Self)
        ensures
            is_drawn(r.id),
            r.is_plain(init),
    {
        Self::with_id(new_v4(), init)
    }

    /// Begins to gather, for a job under the identifier `id`.
    pub fn with_id(id: Uuid, init: SJob) -> (r: Self)
        ensures
            r.id == id,
            r.is_plain(init),
    {
        JobBuilder {
            id,
            init,
            report_builder: JobReportBuilder::new(id, SJob::NAME.to_string()),
        }
    }

    pub fn with_action(self, action: &str) -> (r: Self)
        ensures
            r.report_builder.action matches Some(text) && text@ == action@,
            r == (JobBuilder {
                report_builder: JobReportBuilder {
                    action: r.report_builder.action,
                    ..self.report_builder
                },
                ..self
            }),
    {
        JobBuilder { report_builder: self.report_builder.with_action(action), ..self }
    }

    pub fn with_parent_id(self, parent_id: Uuid) -> (r: Self)
        ensures
            r == (JobBuilder {
                report_builder: JobReportBuilder {
                    parent_id: Some(parent_id),
                    ..self.report_builder
                },
                ..self
            }),
    {
        JobBuilder { report_builder: self.report_builder.with_parent_id(parent_id), ..self }
    }

    pub fn with_metadata(self, metadata: serde_json::Value) -> (r: Self)
        ensures
            r == (JobBuilder {
                report_builder: JobReportBuilder {
                    metadata: Some(metadata),
                    ..self.report_builder
                },
                ..self
            }),
    {
        JobBuilder { report_builder: self.report_builder.with_metadata(metadata), ..self }
    }
}

/// The action of the job that is queued as number `order` behind one that does
/// `action`.
pub open spec fn child_action(action: Seq<char>, order: nat) -> Seq<char> {
    action.push('-') + crate::text::decimal(order)
}

impl<SJob: StatefulJob, Next> Job<SJob, Next> {
    /// What this job does, as its report says.
    pub open spec fn action(self) -> Option<Seq<char>> {
        match self.report {
            Some(report) => match report.action {
                Some(action) => Some(action@),
                None => None,
            },
            None => None,
        }
    }

    /// Whether `child` is `builder`, made out for the next job to be queued
    /// behind this one: it names this job as its parent, and its action after
    /// the action of this job and its place in the queue.
    pub open spec fn adopts<NextSJob: StatefulJob>(
        self,
        builder: JobBuilder<NextSJob>,
        child: JobBuilder<NextSJob>,
    ) -> bool {
        &&& child.id == builder.id
        &&& child.init == builder.init
        &&& child.report_builder == (JobReportBuilder {
            parent_id: Some(self.id),
            action: child.report_builder.action,
            ..builder.report_builder
        })
        &&& match self.action() {
            Some(action) => child.report_builder.action matches Some(text) && text@
                == child_action(action, self.next_jobs@.len() + 1),
            None => child.report_builder.action == builder.report_builder.action,
        }
    }

    /// Whether this job is brought back from `report` and `state`: the state is
    /// the job's now, and its report holds it no more.
    pub open spec fn is_restored(
        self,
        report: JobReport,
        state: JobState<SJob>,
        next_jobs: Seq<Next>,
    ) -> bool {
        &&& self.id == report.id
        &&& call_ensures(<SJob as StatefulJob>::hash, (&state.init,), self.hash)
        &&& self.state == Some(state)
        &&& self.report == Some(JobReport { data: None, ..report })
        &&& self.next_jobs@ == next_jobs
    }

    /// A job under an identifier that is drawn for it.
    pub fn new(init: SJob) -> (r: Box<Self>)
        ensures
            exists|builder: JobBuilder<SJob>|
                #![trigger builder.builds(*r)]
                is_drawn(builder.id) && builder.is_plain(init) && builder.builds(*r),
    {
        JobBuilder::new(init).build()
    }

    /// Makes `builder` out for the next job to be queued behind this one.
    pub fn child_builder<NextSJob: StatefulJob>(&self, builder: JobBuilder<NextSJob>) -> (r:
        JobBuilder<NextSJob>)
        requires
            self.next_jobs@.len() < usize::MAX,
        ensures
            self.adopts(builder, r),
    {
        let next_job_order: usize = self.next_jobs.len() + 1;
        let mut child = builder.with_parent_id(self.id);
        if let Some(parent_report) = self.report() {
            if let Some(parent_action) = &parent_report.action {
                let action = numbered(parent_action.as_str(), next_job_order);
                child = child.with_action(action.as_str());
            }
        }
        child
    }

    /// Queues a job of another kind behind this one, under an identifier that is
    /// drawn for it.
    pub fn queue_next<NextSJob: StatefulJob>(self: Box<Self>, init: NextSJob) -> (r: Box<
        Self,
    >) where Next: From<Box<Job<NextSJob, Next>>>
        requires
            self.next_jobs@.len() < usize::MAX,
        ensures
            r.id == self.id,
            r.hash == self.hash,
            r.report == self.report,
            r.state == self.state,
            r.next_jobs@ == self.next_jobs@.push(r.next_jobs@.last()),
            exists|
                plain: JobBuilder<NextSJob>,
                child: JobBuilder<NextSJob>,
                job: Box<Job<NextSJob, Next>>,
            |
                {
                    &&& is_drawn(plain.id)
                    &&& plain.is_plain(init)
                    &&& #[trigger] self.adopts(plain, child)
                    &&& #[trigger] child.builds(*job)
                    &&& call_ensures(
                        <Next as From<Box<Job<NextSJob, Next>>>>::from,
                        (job,),
                        r.next_jobs@.last(),
                    )
                },
    {
        let mut this = self;
        let plain: JobBuilder<NextSJob> = JobBuilder::new(init);
        let ghost gathered = plain;
        let child = this.child_builder(plain);
        let ghost adopted = child;
        assert(self.adopts(gathered, adopted));
        let job: Box<Job<NextSJob, Next>> = child.build();
        let ghost built = job;
        assert(adopted.builds(*built));
        this.next_jobs.push_back(Next::from(job));
        this
    }

    /// Brings a job back from its report and the state that was in it.
    pub fn restore(
        report: JobReport,
        state: JobState<SJob>,
        next_jobs: Option<VecDeque<Next>>,
    ) -> (r: Box<Self>)
        ensures
            r.is_restored(
                report,
                state,
                match next_jobs {
                    Some(jobs) => jobs@,
                    None => Seq::empty(),
                },
            ),
    {
        let hash: u64 = StatefulJob::hash(&state.init);
        Box::new(
            Job {
                id: report.id,
                hash,
                state: Some(state),
                report: Some(JobReport { data: None, ..report }),
                next_jobs: match next_jobs {
                    Some(jobs) => jobs,
                    None => VecDeque::new(),
                },
            },
        )
    }

    /// This function returns an ingestible job instance from a job report. The
    /// state is taken out of the report and decoded by `decode`.
    pub fn new_from_report<
        F: FnOnce(Vec<u8>) -> Result<JobState<SJob>, rmp_serde::decode::Error>,
    >(report: JobReport, next_jobs: Option<VecDeque<Next>>, decode: F) -> (r: Result<
        Box<Self>,
        JobError,
    >)
        requires
            report.data matches Some(data) ==> call_requires(decode, (data,)),
        ensures
            match report.data {
                None => r matches Err(JobError::MissingJobDataState(id, name)) && id == report.id
                    && name@ == report.name@,
                Some(data) => exists|decoded: Result<JobState<SJob>, rmp_serde::decode::Error>|
                    {
                        &&& #[trigger] call_ensures(decode, (data,), decoded)
                        &&& match decoded {
                            Ok(state) => r matches Ok(job) && job.is_restored(
                                report,
                                state,
                                match next_jobs {
                                    Some(jobs) => jobs@,
                                    None => Seq::empty(),
                                },
                            ),
                            Err(error) => r == Err::<Box<Self>, JobError>(
                                JobError::StateDecode(error),
                            ),
                        }
                    },
            },
    {
        let mut report = report;
        match report.data.take() {
            None => Err(JobError::MissingJobDataState(report.id, report.name.clone())),
            Some(data) => match decode(data) {
                Ok(state) => Ok(Self::restore(report, state, next_jobs)),
                Err(error) => Err(JobError::StateDecode(error)),
            },
        }
    }

    /// The state of the job as bytes, as `encode` makes them.
    pub fn serialize_state<
        F: FnOnce(&Option<JobState<SJob>>) -> Result<Vec<u8>, rmp_serde::encode::Error>,
    >(&self, encode: F) -> (r: Result<Vec<u8>, JobError>)
        requires
            call_requires(encode, (&self.state,)),
        ensures
            exists|encoded: Result<Vec<u8>, rmp_serde::encode::Error>|
                {
                    &&& #[trigger] call_ensures(encode, (&self.state,), encoded)
                    &&& r == match encoded {
                        Ok(bytes) => Ok(bytes),
                        Err(error) => Err::<Vec<u8>, JobError>(JobError::StateEncode(error)),
                    }
                },
    {
        match encode(&self.state) {
            Ok(bytes) => Ok(bytes),
            Err(error) => Err(JobError::StateEncode(error)),
        }
    }
}

/// Whether `next` is the first job of `queue`, with all the others behind it
/// now, and nothing where `queue` is empty.
pub open spec fn hands_over<Next: DynJob<Next>>(queue: Seq<Next>, next: Option<Next>) -> bool {
    match next {
        None => queue.len() == 0,
        Some(job) => {
            &&& queue.len() > 0
            &&& job.face() == (JobFace { waiting: queue.skip(1), ..queue[0].face() })
        },
    }
}

/// Takes the first job out of `queue` and puts the others behind it: what comes
/// out is that job itself, told by `set_next_jobs` which jobs wait for it.
pub fn hand_over<Next: DynJob<Next>>(queue: VecDeque<Next>) -> (r: Option<Next>)
    ensures
        hands_over(queue@, r),
        r matches Some(job) ==> exists|head: &mut Next, rest: VecDeque<Next>|
            {
                &&& *head == queue@[0]
                &&& rest@ == queue@.skip(1)
                &&& *final(head) == job
                &&& #[trigger] call_ensures(
                    <Next as DynJob<Next>>::set_next_jobs,
                    (head, rest),
                    (),
                )
            },
{
    let mut next_jobs = queue;
    match next_jobs.pop_front() {
        None => None,
        Some(next_job) => {
            let mut next_job = next_job;
            assert(next_jobs@ =~= queue@.skip(1));
            next_job.set_next_jobs(next_jobs);
            Some(next_job)
        },
    }
}

impl<SJob: StatefulJob, Next> DynJob<Next> for Job<SJob, Next> {
    /// The job tells the identifier that its report bears.
    open spec fn face(&self) -> JobFace<Next> {
        JobFace {
            report: self.report,
            id: match self.report {
                Some(report) => Some(report.id),
                None => None,
            },
            parent: match self.report {
                Some(report) => report.parent_id,
                None => None,
            },
            name: SJob::NAME@,
            hash: self.hash,
            waiting: self.next_jobs@,
        }
    }

    fn id(&self) -> (r: Uuid) {
        self.report.as_ref().unwrap().id
    }

    fn parent_id(&self) -> (r: Option<Uuid>) {
        match &self.report {
            Some(report) => report.parent_id,
            None => None,
        }
    }

    fn report(&self) -> (r: &Option<JobReport>) {
        &self.report
    }

    fn report_mut(&mut self) -> (r: &mut Option<JobReport>)
        ensures
            *final(self) == (Job { report: *final(r), ..*old(self) }),
    {
        &mut self.report
    }

    fn name(&self) -> (r: &'static str) {
        SJob::NAME
    }

    fn hash(&self) -> (r: u64) {
        self.hash
    }

    fn set_next_jobs(&mut self, next_jobs: VecDeque<Next>)
        ensures
            *final(self) == (Job { next_jobs, ..*old(self) }),
    {
        self.next_jobs = next_jobs;
    }
}

} // verus!
