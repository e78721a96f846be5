//! What holds of jobs as they are built, queued and brought back, and of what they
//! are built from.

use crate::error::JobError;
use crate::job::{Job, JobBuilder, JobState};
use crate::metadata::JobRunMetadata;
use crate::output::{queue_of, JobInitOutput, JobRunErrors, JobStepOutput};
use crate::outside::{hash_value, str_hash_writes};
use crate::report::{JobReport, JobReportBuilder, JobStatus};
use crate::stateful::{Digestible, DynJob, LocationId, StatefulJob};
use crate::text::{decimal, digit, join_lines, joined, numbered};
use std::collections::hash_map::DefaultHasher;
use std::collections::VecDeque;
use std::hash::Hash;
use tokio::task::JoinError;
use uuid::Uuid;
use vstd::prelude::*;
use vstd::std_specs::hash::DefaultHasherAdditionalSpecFns;

verus! {

/// Whether `job` has not begun: it has no data and no steps, and has learned
/// nothing.
pub open spec fn has_not_begun<SJob: StatefulJob, Next>(job: Job<SJob, Next>, init: SJob) -> bool {
    &&& job.state matches Some(state)
    &&& state.init == init
    &&& state.data is None
    &&& state.steps@.len() == 0
    &&& state.step_number == 0
    &&& call_ensures(<SJob::RunMetadata as Default>::default, (), state.run_metadata)
    &&& job.next_jobs@.len() == 0
    &&& call_ensures(<SJob as StatefulJob>::hash, (&init,), job.hash)
}

/// Whether `report` is that of a job that waits for its turn and is stored nowhere.
pub open spec fn is_new_report(
    report: JobReport,
    id: Uuid,
    name: Seq<char>,
    action: Option<Seq<char>>,
    metadata: Option<serde_json::Value>,
    parent_id: Option<Uuid>,
) -> bool {
    &&& report.id == id
    &&& report.name@ == name
    &&& text_of(report.action) == action
    &&& report.data is None
    &&& report.metadata == metadata
    &&& report.created_at is None
    &&& report.parent_id == parent_id
    &&& report.status == JobStatus::Queued
}

/// The characters of a text, where there is one.
pub open spec fn text_of(text: Option<String>) -> Option<Seq<char>> {
    match text {
        Some(text) => Some(text@),
        None => None,
    }
}

/// A job is built as it was said: it has not begun, bears the identifier of its
/// builder, and its report says all that was said of it and nothing else.
pub proof fn law_jobs_are_built_as_said<SJob: StatefulJob, Next>(builder: JobBuilder<SJob>)
    ensures
        forall|job: Box<Job<SJob, Next>>| #[trigger]
            call_ensures(JobBuilder::<SJob>::build::<Next>, (builder,), job) ==> {
                &&& job.id == builder.id
                &&& has_not_begun(*job, builder.init)
                &&& job.report matches Some(report)
                &&& is_new_report(
                    report,
                    builder.report_builder.id,
                    builder.report_builder.name@,
                    text_of(builder.report_builder.action),
                    builder.report_builder.metadata,
                    builder.report_builder.parent_id,
                )
            },
        forall|report: JobReport| #[trigger]
            call_ensures(JobReportBuilder::build, (builder.report_builder,), report)
                ==> is_new_report(
                report,
                builder.report_builder.id,
                builder.report_builder.name@,
                text_of(builder.report_builder.action),
                builder.report_builder.metadata,
                builder.report_builder.parent_id,
            ),
{
}

/// A new job has a report under its own identifier and the name of its kind, with
/// nothing said of it: no action, no metadata and no parent.
pub proof fn law_new_jobs_are_plain<SJob: StatefulJob, Next>(id: Uuid, init: SJob)
    ensures
        forall|job: Box<Job<SJob, Next>>| #[trigger]
            call_ensures(Job::<SJob, Next>::new, (init,), job) ==> {
                &&& crate::job::is_drawn(job.id)
                &&& has_not_begun(*job, init)
                &&& job.report matches Some(report)
                &&& is_new_report(report, job.id, SJob::NAME@, None, None, None)
            },
        forall|builder: JobBuilder<SJob>| #[trigger]
            call_ensures(JobBuilder::<SJob>::new, (init,), builder) ==> {
                &&& crate::job::is_drawn(builder.id)
                &&& is_bare(builder, builder.id, init)
            },
        forall|builder: JobBuilder<SJob>| #[trigger]
            call_ensures(JobBuilder::<SJob>::with_id, (id, init), builder) ==> is_bare(
                builder,
                id,
                init,
            ),
        forall|name: String, builder: JobReportBuilder| #[trigger]
            call_ensures(JobReportBuilder::new, (id, name), builder) ==> {
                &&& builder.id == id
                &&& builder.name@ == name@
                &&& builder.action is None
                &&& builder.metadata is None
                &&& builder.parent_id is None
            },
{
}

/// Whether nothing has been said of the job that `builder` is for.
pub open spec fn is_bare<SJob: StatefulJob>(
    builder: JobBuilder<SJob>,
    id: Uuid,
    init: SJob,
) -> bool {
    &&& builder.id == id
    &&& builder.init == init
    &&& builder.report_builder.id == id
    &&& builder.report_builder.name@ == SJob::NAME@
    &&& builder.report_builder.action is None
    &&& builder.report_builder.metadata is None
    &&& builder.report_builder.parent_id is None
}

/// What is said of a job is what its builder holds, whatever was said before, and
/// nothing else is changed by it.
pub proof fn law_what_is_said_last_holds<SJob: StatefulJob>(
    builder: JobBuilder<SJob>,
    action: &str,
    parent_id: Uuid,
    metadata: serde_json::Value,
)
    ensures
        forall|r: JobBuilder<SJob>| #[trigger]
            call_ensures(JobBuilder::<SJob>::with_action, (builder, action), r) ==> {
                &&& r.id == builder.id
                &&& r.init == builder.init
                &&& text_of(r.report_builder.action) == Some(action@)
                &&& r.report_builder.id == builder.report_builder.id
                &&& r.report_builder.name == builder.report_builder.name
                &&& r.report_builder.metadata == builder.report_builder.metadata
                &&& r.report_builder.parent_id == builder.report_builder.parent_id
            },
        forall|r: JobBuilder<SJob>| #[trigger]
            call_ensures(JobBuilder::<SJob>::with_parent_id, (builder, parent_id), r) ==> {
                &&& r.id == builder.id
                &&& r.init == builder.init
                &&& r.report_builder.parent_id == Some(parent_id)
                &&& r.report_builder.id == builder.report_builder.id
                &&& r.report_builder.name == builder.report_builder.name
                &&& r.report_builder.action == builder.report_builder.action
                &&& r.report_builder.metadata == builder.report_builder.metadata
            },
        forall|r: JobBuilder<SJob>| #[trigger]
            call_ensures(JobBuilder::<SJob>::with_metadata, (builder, metadata), r) ==> {
                &&& r.id == builder.id
                &&& r.init == builder.init
                &&& r.report_builder.metadata == Some(metadata)
                &&& r.report_builder.id == builder.report_builder.id
                &&& r.report_builder.name == builder.report_builder.name
                &&& r.report_builder.action == builder.report_builder.action
                &&& r.report_builder.parent_id == builder.report_builder.parent_id
            },
{
}

/// The action of the job that is queued as number `order` behind one with an
/// action, and none behind one without.
pub open spec fn action_in_queue<SJob: StatefulJob, Next>(
    parent: Job<SJob, Next>,
) -> Option<Seq<char>> {
    match parent.report {
        Some(report) => match report.action {
            Some(action) => Some(action@ + seq!['-'] + decimal(parent.next_jobs@.len() + 1)),
            None => None,
        },
        None => None,
    }
}

/// To queue a job behind another puts it last in the queue and leaves the other as
/// it was. The job that is queued is a new one under an identifier drawn for it,
/// that has not begun; its report names the job that it waits for as its parent,
/// whether or not that has a report, and has an action made of that job's action
/// and its place in the queue, where that job has an action.
pub proof fn law_queued_jobs_come_last<
    SJob: StatefulJob,
    Next: From<Box<Job<NextSJob, Next>>>,
    NextSJob: StatefulJob,
>(this: Box<Job<SJob, Next>>, init: NextSJob)
    ensures
        forall|r: Box<Job<SJob, Next>>| #[trigger]
            call_ensures(Job::<SJob, Next>::queue_next::<NextSJob>, (this, init), r) ==> {
                &&& r.id == this.id
                &&& r.hash == this.hash
                &&& r.report == this.report
                &&& r.state == this.state
                &&& r.next_jobs@.len() == this.next_jobs@.len() + 1
                &&& r.next_jobs@.drop_last() == this.next_jobs@
                &&& exists|job: Box<Job<NextSJob, Next>>|
                    {
                        &&& #[trigger] call_ensures(
                            <Next as From<Box<Job<NextSJob, Next>>>>::from,
                            (job,),
                            r.next_jobs@.last(),
                        )
                        &&& is_queued_behind(*this, *job, init)
                    }
            },
        this.next_jobs@.len() < usize::MAX ==> call_requires(
            Job::<SJob, Next>::queue_next::<NextSJob>,
            (this, init),
        ),
{
    assert forall|r: Box<Job<SJob, Next>>| #[trigger]
        call_ensures(
            Job::<SJob, Next>::queue_next::<NextSJob>,
            (this, init),
            r,
        ) implies r.next_jobs@.drop_last() == this.next_jobs@ && exists|
        job: Box<Job<NextSJob, Next>>,
    |
        {
            &&& #[trigger] call_ensures(
                <Next as From<Box<Job<NextSJob, Next>>>>::from,
                (job,),
                r.next_jobs@.last(),
            )
            &&& is_queued_behind(*this, *job, init)
        } by {
        assert(r.next_jobs@.drop_last() =~= this.next_jobs@);
        let (plain, child, job) = choose|
            plain: JobBuilder<NextSJob>,
            child: JobBuilder<NextSJob>,
            job: Box<Job<NextSJob, Next>>,
        |
            {
                &&& crate::job::is_drawn(plain.id)
                &&& plain.is_plain(init)
                &&& #[trigger] this.adopts(plain, child)
                &&& #[trigger] child.builds(*job)
                &&& call_ensures(
                    <Next as From<Box<Job<NextSJob, Next>>>>::from,
                    (job,),
                    r.next_jobs@.last(),
                )
            };
        assert(is_queued_behind(*this, *job, init)) by {
            if let Some(action) = this.action() {
                assert(action.push('-') =~= action + seq!['-']);
            }
        }
    }
}

/// Whether `job` is a new one, made out to be queued behind `parent`.
pub open spec fn is_queued_behind<SJob: StatefulJob, NextSJob: StatefulJob, Next>(
    parent: Job<SJob, Next>,
    job: Job<NextSJob, Next>,
    init: NextSJob,
) -> bool {
    &&& crate::job::is_drawn(job.id)
    &&& has_not_begun(job, init)
    &&& job.report matches Some(report)
    &&& is_new_report(
        report,
        job.id,
        NextSJob::NAME@,
        action_in_queue(parent),
        None,
        Some(parent.id),
    )
}

/// A builder that is made out for a job to be queued keeps all that was said but
/// for the parent, and but for the action where the parent has one.
pub proof fn law_child_builder_names_the_parent<
    SJob: StatefulJob,
    NextSJob: StatefulJob,
    Next,
>(parent: Job<SJob, Next>, builder: JobBuilder<NextSJob>)
    ensures
        forall|child: JobBuilder<NextSJob>| #[trigger]
            call_ensures(
                Job::<SJob, Next>::child_builder::<NextSJob>,
                (&parent, builder),
                child,
            ) ==> {
                &&& child.id == builder.id
                &&& child.init == builder.init
                &&& child.report_builder.id == builder.report_builder.id
                &&& child.report_builder.name == builder.report_builder.name
                &&& child.report_builder.metadata == builder.report_builder.metadata
                &&& child.report_builder.parent_id == Some(parent.id)
                &&& match action_in_queue(parent) {
                    Some(action) => text_of(child.report_builder.action) == Some(action),
                    None => child.report_builder.action == builder.report_builder.action,
                }
            },
{
    if let Some(action) = parent.action() {
        assert(action.push('-') =~= action + seq!['-']);
    }
}

/// Whether `job` is what `report` and `state` were kept of.
pub open spec fn is_brought_back<SJob: StatefulJob, Next>(
    job: Job<SJob, Next>,
    report: JobReport,
    state: JobState<SJob>,
    next_jobs: Option<VecDeque<Next>>,
) -> bool {
    &&& job.id == report.id
    &&& call_ensures(<SJob as StatefulJob>::hash, (&state.init,), job.hash)
    &&& job.state == Some(state)
    &&& job.report matches Some(kept)
    &&& kept.data is None
    &&& kept.id == report.id
    &&& kept.name == report.name
    &&& kept.action == report.action
    &&& kept.metadata == report.metadata
    &&& kept.created_at == report.created_at
    &&& kept.parent_id == report.parent_id
    &&& kept.status == report.status
    &&& match next_jobs {
        Some(jobs) => job.next_jobs@ == jobs@,
        None => job.next_jobs@.len() == 0,
    }
}

/// A job is brought back just as its report and its state say, with the jobs that
/// waited for it.
pub proof fn law_jobs_are_brought_back<SJob: StatefulJob, Next>(
    report: JobReport,
    state: JobState<SJob>,
    next_jobs: Option<VecDeque<Next>>,
)
    ensures
        forall|job: Box<Job<SJob, Next>>| #[trigger]
            call_ensures(Job::<SJob, Next>::restore, (report, state, next_jobs), job)
                ==> is_brought_back(*job, report, state, next_jobs),
{
}

/// A report without a state is an error that names its job. Any other is decoded,
/// and what comes of that decides: the job is brought back from the state, or the
/// reason why there is none is returned.
pub proof fn law_reports_bring_jobs_back<
    SJob: StatefulJob,
    Next,
    F: FnOnce(Vec<u8>) -> Result<JobState<SJob>, rmp_serde::decode::Error>,
>(report: JobReport, next_jobs: Option<VecDeque<Next>>, decode: F)
    ensures
        forall|r: Result<Box<Job<SJob, Next>>, JobError>| #[trigger]
            call_ensures(
                Job::<SJob, Next>::new_from_report::<F>,
                (report, next_jobs, decode),
                r,
            ) ==> match report.data {
                None => {
                    &&& r matches Err(JobError::MissingJobDataState(id, name))
                    &&& id == report.id
                    &&& name@ == report.name@
                },
                Some(data) => exists|decoded: Result<JobState<SJob>, rmp_serde::decode::Error>|
                    {
                        &&& #[trigger] call_ensures(decode, (data,), decoded)
                        &&& match decoded {
                            Ok(state) => r matches Ok(job) && is_brought_back(
                                *job,
                                report,
                                state,
                                next_jobs,
                            ),
                            Err(error) => r matches Err(returned) && returned
                                == JobError::StateDecode(error),
                        }
                    },
            },
{
}

/// The state of a job is what is encoded, and what comes of that is returned.
pub proof fn law_state_is_encoded_as_it_stands<
    SJob: StatefulJob,
    Next,
    F: FnOnce(&Option<JobState<SJob>>) -> Result<Vec<u8>, rmp_serde::encode::Error>,
>(job: Job<SJob, Next>, encode: F)
    ensures
        forall|r: Result<Vec<u8>, JobError>| #[trigger]
            call_ensures(Job::<SJob, Next>::serialize_state::<F>, (&job, encode), r) ==> exists|
                encoded: Result<Vec<u8>, rmp_serde::encode::Error>,
            |
                {
                    &&& #[trigger] call_ensures(encode, (&job.state,), encoded)
                    &&& match encoded {
                        Ok(bytes) => r matches Ok(returned) && returned == bytes,
                        Err(error) => r matches Err(returned) && returned == JobError::StateEncode(
                            error,
                        ),
                    }
                },
{
}

/// A job whose kind has been forgotten tells the identifier and the parent that
/// its report bears, the name of its kind and its digest; it shows its report as it
/// is, lets that be changed and nothing else with it, and takes over the jobs that
/// are to wait for it, and changes nothing else for them.
pub proof fn law_jobs_tell_what_they_are<SJob: StatefulJob, Next>(job: Job<SJob, Next>)
    ensures
        forall|id: Uuid| #[trigger]
            call_ensures(<Job<SJob, Next> as DynJob<Next>>::id, (&job,), id) ==> (
            job.report matches Some(report) ==> id == report.id),
        forall|parent: Option<Uuid>| #[trigger]
            call_ensures(<Job<SJob, Next> as DynJob<Next>>::parent_id, (&job,), parent)
                ==> match job.report {
                Some(report) => parent == report.parent_id,
                None => parent is None,
            },
        forall|report: &Option<JobReport>| #[trigger]
            call_ensures(<Job<SJob, Next> as DynJob<Next>>::report, (&job,), report) ==> *report
                == job.report,
        forall|name: &'static str| #[trigger]
            call_ensures(<Job<SJob, Next> as DynJob<Next>>::name, (&job,), name) ==> name@
                == SJob::NAME@,
        forall|hash: u64| #[trigger]
            call_ensures(<Job<SJob, Next> as DynJob<Next>>::hash, (&job,), hash) ==> hash
                == job.hash,
        forall|this: &mut Job<SJob, Next>, report: &mut Option<JobReport>| #[trigger]
            call_ensures(<Job<SJob, Next> as DynJob<Next>>::report_mut, (this,), report) ==> {
                &&& *report == this.report
                &&& final(this).report == *final(report)
                &&& final(this).id == this.id
                &&& final(this).hash == this.hash
                &&& final(this).state == this.state
                &&& final(this).next_jobs == this.next_jobs
            },
        forall|this: &mut Job<SJob, Next>, next_jobs: VecDeque<Next>| #[trigger]
            call_ensures(
                <Job<SJob, Next> as DynJob<Next>>::set_next_jobs,
                (this, next_jobs),
                (),
            ) ==> {
                &&& final(this).next_jobs == next_jobs
                &&& final(this).id == this.id
                &&& final(this).hash == this.hash
                &&& final(this).report == this.report
                &&& final(this).state == this.state
            },
        job.report is Some ==> call_requires(<Job<SJob, Next> as DynJob<Next>>::id, (&job,)),
        job.face().report == job.report,
        job.face().waiting == job.next_jobs@,
        job.face().hash == job.hash,
        job.face().name == SJob::NAME@,
        job.report matches Some(report) ==> job.face().id == Some(report.id)
            && job.face().parent == report.parent_id,
        job.report is None ==> job.face().id is None && job.face().parent is None,
{
}

/// A kind of job that does nothing of note and takes its digest as the trait has
/// it, whatever it is about.
#[derive(Hash)]
pub struct PlainKind<T>(pub T);

impl<T: Hash> StatefulJob for PlainKind<T> {
    type Data = ();

    type Step = ();

    type RunMetadata = ();

    const NAME: &'static str = "plain";

    fn target_location(&self) -> (r: LocationId) {
        0
    }
}

/// The digest that the trait has for a job is what a new hasher makes of the name
/// of its kind and, after that, of what the job's own `Hash` writes.
pub proof fn law_digest_is_of_the_name_and_the_job<T: Hash>(job: &PlainKind<T>)
    ensures
        forall|digest: u64| #[trigger]
            call_ensures(<PlainKind<T> as StatefulJob>::hash, (job,), digest) ==> exists|
                state: &mut DefaultHasher,
            |
                {
                    &&& state@ == str_hash_writes("plain"@)
                    &&& #[trigger] call_ensures(hash_value::<PlainKind<T>>, (job, state), ())
                    &&& digest == DefaultHasher::spec_finish(final(state)@)
                },
{
    assert forall|digest: u64| #[trigger]
        call_ensures(<PlainKind<T> as StatefulJob>::hash, (job,), digest) implies exists|
        state: &mut DefaultHasher,
    |
        {
            &&& state@ == str_hash_writes("plain"@)
            &&& #[trigger] call_ensures(hash_value::<PlainKind<T>>, (job, state), ())
            &&& digest == DefaultHasher::spec_finish(final(state)@)
        } by {
        let fed = choose|state: &mut DefaultHasher|
            {
                &&& state@ == str_hash_writes("plain"@)
                &&& #[trigger] call_ensures(<PlainKind<T> as Digestible>::feed, (job, state), ())
                &&& digest == DefaultHasher::spec_finish(final(state)@)
            };
        assert(call_ensures(<PlainKind<T> as Digestible>::feed, (job, fed), ()));
    }
}

/// What the first part of a job hands back is the steps, what it learned and its
/// troubles, as they were given; what was not given is nothing.
pub proof fn law_init_outputs_hold_what_they_are_made_of<RunMetadata: Default, Step>(
    metadata: RunMetadata,
    steps: Vec<Step>,
    errors: JobRunErrors,
)
    ensures
        forall|r: JobInitOutput<RunMetadata, Step>| #[trigger]
            call_ensures(
                <JobInitOutput<RunMetadata, Step> as From<(RunMetadata, Vec<Step>)>>::from,
                ((metadata, steps),),
                r,
            ) ==> {
                &&& r.run_metadata == metadata
                &&& r.steps@ == steps@
                &&& r.errors.0@.len() == 0
            },
        forall|r: JobInitOutput<RunMetadata, Step>| #[trigger]
            call_ensures(
                <JobInitOutput<RunMetadata, Step> as From<Vec<Step>>>::from,
                (steps,),
                r,
            ) ==> {
                &&& call_ensures(<RunMetadata as Default>::default, (), r.run_metadata)
                &&& r.steps@ == steps@
                &&& r.errors.0@.len() == 0
            },
        forall|r: JobInitOutput<RunMetadata, Step>| #[trigger]
            call_ensures(
                <JobInitOutput<RunMetadata, Step> as From<
                    (RunMetadata, Vec<Step>, JobRunErrors),
                >>::from,
                ((metadata, steps, errors),),
                r,
            ) ==> {
                &&& r.run_metadata == metadata
                &&& r.steps@ == steps@
                &&& r.errors.0@ == errors.0@
            },
        forall|r: VecDeque<Step>| #[trigger]
            call_ensures(queue_of::<Step>, (steps,), r) ==> r@ == steps@,
{
}

/// Whether `output` asks for `steps`, has learned `metadata` and had `errors`.
pub open spec fn holds<Step, RunMetadata>(
    output: JobStepOutput<Step, RunMetadata>,
    steps: Option<Vec<Step>>,
    metadata: Option<RunMetadata>,
    errors: Seq<String>,
) -> bool {
    &&& output.maybe_more_steps == steps
    &&& output.maybe_more_metadata == metadata
    &&& output.errors.0@ == errors
}

/// What a step hands back is the steps that it asks for, what it learned and its
/// troubles, as they were given; what was not given is nothing.
pub proof fn law_step_outputs_hold_what_they_are_made_of<Step, RunMetadata: JobRunMetadata>(
    steps: Vec<Step>,
    metadata: RunMetadata,
    errors: JobRunErrors,
    nothing: Option<()>,
)
    ensures
        forall|r: JobStepOutput<Step, RunMetadata>| #[trigger]
            call_ensures(
                <JobStepOutput<Step, RunMetadata> as From<Vec<Step>>>::from,
                (steps,),
                r,
            ) ==> holds(r, Some(steps), None, seq![]),
        forall|r: JobStepOutput<Step, RunMetadata>| #[trigger]
            call_ensures(
                <JobStepOutput<Step, RunMetadata> as From<RunMetadata>>::from,
                (metadata,),
                r,
            ) ==> holds(r, None, Some(metadata), seq![]),
        forall|r: JobStepOutput<Step, RunMetadata>| #[trigger]
            call_ensures(
                <JobStepOutput<Step, RunMetadata> as From<JobRunErrors>>::from,
                (errors,),
                r,
            ) ==> holds(r, None, None, errors.0@),
        forall|r: JobStepOutput<Step, RunMetadata>| #[trigger]
            call_ensures(
                <JobStepOutput<Step, RunMetadata> as From<(Vec<Step>, RunMetadata)>>::from,
                ((steps, metadata),),
                r,
            ) ==> holds(r, Some(steps), Some(metadata), seq![]),
        forall|r: JobStepOutput<Step, RunMetadata>| #[trigger]
            call_ensures(
                <JobStepOutput<Step, RunMetadata> as From<(RunMetadata, JobRunErrors)>>::from,
                ((metadata, errors),),
                r,
            ) ==> holds(r, None, Some(metadata), errors.0@),
        forall|r: JobStepOutput<Step, RunMetadata>| #[trigger]
            call_ensures(
                <JobStepOutput<Step, RunMetadata> as From<
                    (Vec<Step>, RunMetadata, JobRunErrors),
                >>::from,
                ((steps, metadata, errors),),
                r,
            ) ==> holds(r, Some(steps), Some(metadata), errors.0@),
        forall|r: JobStepOutput<Step, RunMetadata>| #[trigger]
            call_ensures(
                <JobStepOutput<Step, RunMetadata> as From<Option<()>>>::from,
                (nothing,),
                r,
            ) ==> holds(r, None, None, seq![]),
{
}

/// An error from outside is kept as it is, under what it is an error of.
pub proof fn law_outside_errors_are_kept(
    join: JoinError,
    encode: rmp_serde::encode::Error,
    decode: rmp_serde::decode::Error,
)
    ensures
        forall|r: JobError| #[trigger]
            call_ensures(<JobError as From<JoinError>>::from, (join,), r) ==> r
                == JobError::JoinTask(join),
        forall|r: JobError| #[trigger]
            call_ensures(<JobError as From<rmp_serde::encode::Error>>::from, (encode,), r) ==> r
                == JobError::StateEncode(encode),
        forall|r: JobError| #[trigger]
            call_ensures(<JobError as From<rmp_serde::decode::Error>>::from, (decode,), r) ==> r
                == JobError::StateDecode(decode),
{
}

/// All of `lines`, each but the last with a line break after it.
pub open spec fn as_lines(lines: Seq<String>) -> Seq<char>
    decreases lines.len(),
{
    if lines.len() == 0 {
        seq![]
    } else if lines.len() == 1 {
        lines[0]@
    } else {
        lines[0]@ + seq!['\n'] + as_lines(lines.skip(1))
    }
}

/// The troubles of a run read as lines, one each and in order, and are kept as they
/// came.
pub proof fn law_troubles_read_as_lines(errors: JobRunErrors, lines: Vec<String>)
    ensures
        forall|text: String| #[trigger]
            call_ensures(JobRunErrors::to_string, (&errors,), text) ==> text@ == as_lines(
                errors.0@,
            ),
        forall|text: String| #[trigger]
            call_ensures(join_lines, (&lines,), text) ==> text@ == as_lines(lines@),
        forall|empty: bool| #[trigger]
            call_ensures(JobRunErrors::is_empty, (&errors,), empty) ==> empty == (errors.0@.len()
                == 0),
        forall|r: JobRunErrors| #[trigger]
            call_ensures(<JobRunErrors as From<Vec<String>>>::from, (lines,), r) ==> r.0@
                == lines@,
        forall|r: JobRunErrors| #[trigger]
            call_ensures(<JobRunErrors as Default>::default, (), r) ==> r.0@.len() == 0,
{
    lemma_lines(errors.0@, errors.0@.len());
    lemma_lines(lines@, lines@.len());
    assert(errors.0@.take(errors.0@.len() as int) =~= errors.0@);
    assert(lines@.take(lines@.len() as int) =~= lines@);
}

/// The first lines read the same from either end.
proof fn lemma_lines(lines: Seq<String>, count: nat)
    requires
        count <= lines.len(),
    ensures
        joined(lines, count) == as_lines(lines.take(count as int)),
    decreases count,
{
    if count > 1 {
        let some = lines.take(count as int);
        let fewer = lines.take(count - 1);
        lemma_lines(lines, (count - 1) as nat);
        lemma_one_more_line(fewer, lines[count - 1]);
        assert(fewer.push(lines[count - 1]) =~= some);
        assert(as_lines(fewer).push('\n') =~= as_lines(fewer) + seq!['\n']);
    }
}

/// One more line comes after a line break.
proof fn lemma_one_more_line(lines: Seq<String>, line: String)
    requires
        lines.len() > 0,
    ensures
        as_lines(lines.push(line)) == as_lines(lines) + seq!['\n'] + line@,
    decreases lines.len(),
{
    let more = lines.push(line);
    assert(more.skip(1) =~= lines.skip(1).push(line));
    if lines.len() == 1 {
        assert(more.skip(1) =~= seq![line]);
        assert(as_lines(more.skip(1)) == line@);
    } else {
        lemma_one_more_line(lines.skip(1), line);
        assert(as_lines(more) =~= as_lines(lines) + seq!['\n'] + line@);
    }
}

/// The number that a text of digits stands for.
pub open spec fn number_of(text: Seq<char>) -> int
    decreases text.len(),
{
    if text.len() == 0 {
        0
    } else {
        10 * number_of(text.drop_last()) + (text.last() as int - '0' as int)
    }
}

/// Whether `text` is made of digits, with none too many at the front.
pub open spec fn is_number(text: Seq<char>) -> bool {
    &&& text.len() > 0
    &&& forall|i: int| 0 <= i < text.len() ==> '0' as int <= #[trigger] text[i] as int <= '9' as int
    &&& text.len() > 1 ==> text[0] != '0'
}

/// A text is numbered by a dash and the number in decimal: digits alone, without
/// zeros in front, that stand for the number.
pub proof fn law_numbers_are_decimal(prefix: &str, n: usize)
    ensures
        forall|text: String| #[trigger]
            call_ensures(numbered, (prefix, n), text) ==> {
                let number = text@.skip(prefix@.len() as int + 1);
                &&& text@.len() > prefix@.len() + 1
                &&& text@.take(prefix@.len() as int) == prefix@
                &&& text@[prefix@.len() as int] == '-'
                &&& is_number(number)
                &&& number_of(number) == n
            },
        is_number(decimal(n as nat)),
        number_of(decimal(n as nat)) == n,
{
    lemma_decimal_is_number(n as nat);
    assert forall|text: String| #[trigger] call_ensures(numbered, (prefix, n), text) implies {
        let number = text@.skip(prefix@.len() as int + 1);
        &&& text@.len() > prefix@.len() + 1
        &&& text@.take(prefix@.len() as int) == prefix@
        &&& text@[prefix@.len() as int] == '-'
        &&& is_number(number)
        &&& number_of(number) == n
    } by {
        assert(text@.skip(prefix@.len() as int + 1) =~= decimal(n as nat));
        assert(text@.take(prefix@.len() as int) =~= prefix@);
    }
}

/// What `decimal` writes stands for the number.
proof fn lemma_decimal_is_number(n: nat)
    ensures
        is_number(decimal(n)),
        number_of(decimal(n)) == n,
        n > 0 ==> decimal(n)[0] != '0',
    decreases n,
{
    let text = decimal(n);
    assert(text.last() == digit(n % 10));
    if n < 10 {
        assert(text.drop_last().len() == 0);
        assert(number_of(text.drop_last()) == 0);
    } else {
        lemma_decimal_is_number(n / 10);
        assert(text.drop_last() =~= decimal(n / 10));
    }
}

} // verus!
