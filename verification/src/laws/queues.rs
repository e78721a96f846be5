//! What holds of the jobs in a queue when their reports are stored, and when they
//! are paused or canceled together.

use crate::children::{MarkAction, MarkEvent, RegisterAction, RegisterEvent};
use crate::error::JobError;
use crate::job::Job;
use crate::report::{JobReport, JobStatus};
use crate::stateful::{DynJob, StatefulJob};
use vstd::prelude::*;

verus! {

/// Whether `child` has a report that says when it was stored.
pub open spec fn is_on_record<Next: DynJob<Next>>(child: Next) -> bool {
    &&& child.face().report is Some
    &&& child.face().report->0.created_at is Some
}

/// Whether `error` says that `child`, by its identifier and name, has no report.
pub open spec fn reports_missing<Next: DynJob<Next>>(child: Next, error: JobError) -> bool {
    &&& child.face().report is None
    &&& error matches JobError::MissingReport { id, name }
    &&& child.face().id == Some(id)
    &&& name@ == child.face().name
}

/// Whether `action` is right for `queue` where it has been seen to up to `from`:
/// the first job after that without a stored report is the one that it is about,
/// and there is nothing left to do only where there is no such job.
pub open spec fn is_about_the_next<Next: DynJob<Next>>(
    queue: Seq<Next>,
    from: int,
    action: RegisterAction,
) -> bool {
    match action {
        RegisterAction::Create(place) => {
            &&& from <= place < queue.len()
            &&& queue[place as int].face().report matches Some(report)
            &&& report.created_at is None
            &&& forall|k: int| from <= k < place ==> is_on_record(#[trigger] queue[k])
        },
        RegisterAction::Return(Ok(_)) => forall|k: int|
            from <= k < queue.len() ==> is_on_record(#[trigger] queue[k]),
        RegisterAction::Return(Err(error)) => exists|place: int|
            {
                &&& from <= place < queue.len()
                &&& reports_missing(#[trigger] queue[place], error)
                &&& forall|k: int| from <= k < place ==> is_on_record(#[trigger] queue[k])
            },
    }
}

/// To have the reports of a queue stored, the first that has not been stored is the
/// one to store, from the head of the queue on and then from behind the last that
/// was stored; a job without a report is an error that names it, and there is
/// nothing left to do only when all that follow are stored. An error of storing
/// ends it.
pub proof fn law_next_report_is_the_first_unstored<SJob: StatefulJob, Next: DynJob<Next>>(
    job: Job<SJob, Next>,
    place: usize,
    error: JobError,
)
    ensures
        forall|action: RegisterAction| #[trigger]
            call_ensures(
                Job::<SJob, Next>::register_children,
                (&job, RegisterEvent::Begun),
                action,
            ) ==> is_about_the_next(job.next_jobs@, 0, action),
        forall|action: RegisterAction| #[trigger]
            call_ensures(
                Job::<SJob, Next>::register_children,
                (&job, RegisterEvent::Created(place, Ok(()))),
                action,
            ) ==> is_about_the_next(job.next_jobs@, place + 1, action),
        forall|action: RegisterAction| #[trigger]
            call_ensures(
                Job::<SJob, Next>::register_children,
                (&job, RegisterEvent::Created(place, Err(error))),
                action,
            ) ==> (action matches RegisterAction::Return(Err(returned)) && returned == error),
{
    assert forall|action: RegisterAction| #[trigger]
        call_ensures(
            Job::<SJob, Next>::register_children,
            (&job, RegisterEvent::Begun),
            action,
        ) implies is_about_the_next(job.next_jobs@, 0, action) by {
        lemma_about_the_next(job.next_jobs@, RegisterEvent::Begun, action);
    }
    assert forall|action: RegisterAction| #[trigger]
        call_ensures(
            Job::<SJob, Next>::register_children,
            (&job, RegisterEvent::Created(place, Ok(()))),
            action,
        ) implies is_about_the_next(job.next_jobs@, place + 1, action) by {
        lemma_about_the_next(job.next_jobs@, RegisterEvent::Created(place, Ok(())), action);
    }
}

/// What a turn is about where nothing has gone wrong.
proof fn lemma_about_the_next<Next: DynJob<Next>>(
    queue: Seq<Next>,
    event: RegisterEvent,
    action: RegisterAction,
)
    requires
        !(event matches RegisterEvent::Created(_, Err(_))),
        crate::children::is_register_turn(queue, event, action),
    ensures
        is_about_the_next(queue, event.from(), action),
{
    let from = event.from();
    if let RegisterAction::Return(Err(error)) = action {
        let place = choose|place: int| #[trigger]
            crate::children::is_next_unregistered(queue, from, place)
                && crate::children::misses_report(queue[place], error);
        assert(reports_missing(queue[place], error));
        assert forall|k: int| from <= k < place implies is_on_record(#[trigger] queue[k]) by {
            assert(crate::children::is_registered(queue[k]));
        }
    } else {
        assert forall|k: int|
            crate::children::is_registered(queue[k]) implies #[trigger] is_on_record(queue[k]) by {}
    }
}

/// A queue whose jobs all have reports can be gone through, to have the reports
/// stored and to have the jobs paused or canceled, whatever is heard on the way.
pub proof fn law_queues_can_be_gone_through<SJob: StatefulJob, Next: DynJob<Next>>(
    job: Job<SJob, Next>,
    place: usize,
)
    requires
        place < job.next_jobs@.len(),
        forall|k: int|
            0 <= k < job.next_jobs@.len() ==> (#[trigger] job.next_jobs@[k]).face().report is Some,
    ensures
        call_requires(Job::<SJob, Next>::register_children, (&job, RegisterEvent::Begun)),
        forall|stored: Result<(), JobError>| #[trigger]
            call_requires(
                Job::<SJob, Next>::register_children,
                (&job, RegisterEvent::Created(place, stored)),
            ),
        forall|this: &mut Job<SJob, Next>, event: MarkEvent|
            *this == job && is_about(event, place) ==> #[trigger] call_requires(
                Job::<SJob, Next>::pause_children,
                (this, event),
            ),
        forall|this: &mut Job<SJob, Next>, event: MarkEvent|
            *this == job && is_about(event, place) ==> #[trigger] call_requires(
                Job::<SJob, Next>::cancel_children,
                (this, event),
            ),
{
}

/// Whether `event` is about the job at `place`, if it is about a job.
pub open spec fn is_about(event: MarkEvent, place: usize) -> bool {
    match event {
        MarkEvent::Begun => true,
        MarkEvent::Serialized(at, _) => at == place,
        MarkEvent::Updated(at, _) => at == place,
    }
}

/// Whether `after` is `before`, but for the report of the job at `place` in its
/// queue, which is `report` with `status` and `state` in it.
pub open spec fn is_marked_at<SJob: StatefulJob, Next: DynJob<Next>>(
    before: Job<SJob, Next>,
    after: Job<SJob, Next>,
    place: int,
    report: JobReport,
    status: JobStatus,
    state: Vec<u8>,
) -> bool {
    let was = before.next_jobs@[place].face();
    let is = after.next_jobs@[place].face();
    &&& is.report matches Some(marked)
    &&& marked.status == status
    &&& marked.data == Some(state)
    &&& marked.id == report.id
    &&& marked.name == report.name
    &&& marked.action == report.action
    &&& marked.metadata == report.metadata
    &&& marked.created_at == report.created_at
    &&& marked.parent_id == report.parent_id
    &&& is.id == was.id
    &&& is.parent == was.parent
    &&& is.name == was.name
    &&& is.hash == was.hash
    &&& is.waiting == was.waiting
    &&& after.next_jobs@.len() == before.next_jobs@.len()
    &&& forall|k: int|
        0 <= k < before.next_jobs@.len() && k != place ==> #[trigger] after.next_jobs@[k]
            == before.next_jobs@[k]
    &&& after.id == before.id
    &&& after.hash == before.hash
    &&& after.report == before.report
    &&& after.state == before.state
}

/// Whether the jobs from `place` on are still to be seen to, the first of them
/// next, and there is nothing left to do only where there are none.
pub open spec fn turns_to<SJob: StatefulJob, Next>(
    job: Job<SJob, Next>,
    place: int,
    action: MarkAction,
) -> bool {
    match action {
        MarkAction::Serialize(at) => at == place && place < job.next_jobs@.len(),
        MarkAction::Return(Ok(_)) => place >= job.next_jobs@.len(),
        _ => false,
    }
}

/// A queued job whose state has been turned into bytes, and that has a report, is
/// marked and its report is to be stored again: whichever place it has in the
/// queue, the last one among them, and whether the jobs are paused or canceled. A
/// job without a report is an error that names it, and nothing is touched.
pub proof fn law_every_serialized_child_is_marked<SJob: StatefulJob, Next: DynJob<Next>>(
    place: usize,
    state: Vec<u8>,
)
    ensures
        forall|job: &mut Job<SJob, Next>, action: MarkAction|
            place < job.next_jobs@.len() && #[trigger] call_ensures(
                Job::<SJob, Next>::pause_children,
                (job, MarkEvent::Serialized(place, Ok(state))),
                action,
            ) ==> match job.next_jobs@[place as int].face().report {
                Some(report) => {
                    &&& action matches MarkAction::Update(at)
                    &&& at == place
                    &&& is_marked_at(
                        *job,
                        *final(job),
                        place as int,
                        report,
                        JobStatus::Paused,
                        state,
                    )
                },
                None => {
                    &&& action matches MarkAction::Return(Err(error))
                    &&& reports_missing(job.next_jobs@[place as int], error)
                    &&& *final(job) == *job
                },
            },
        forall|job: &mut Job<SJob, Next>, action: MarkAction|
            place < job.next_jobs@.len() && #[trigger] call_ensures(
                Job::<SJob, Next>::cancel_children,
                (job, MarkEvent::Serialized(place, Ok(state))),
                action,
            ) ==> match job.next_jobs@[place as int].face().report {
                Some(report) => {
                    &&& action matches MarkAction::Update(at)
                    &&& at == place
                    &&& is_marked_at(
                        *job,
                        *final(job),
                        place as int,
                        report,
                        JobStatus::Canceled,
                        state,
                    )
                },
                None => {
                    &&& action matches MarkAction::Return(Err(error))
                    &&& reports_missing(job.next_jobs@[place as int], error)
                    &&& *final(job) == *job
                },
            },
{
}

/// To mark the jobs of a queue begins with the first and goes on with the next
/// whenever a report has been stored again, until there are no more; the first
/// error on the way is returned. None of that touches a job.
pub proof fn law_marking_goes_through_the_queue<SJob: StatefulJob, Next: DynJob<Next>>(
    place: usize,
    error: JobError,
)
    ensures
        forall|job: &mut Job<SJob, Next>, action: MarkAction| #[trigger]
            call_ensures(Job::<SJob, Next>::pause_children, (job, MarkEvent::Begun), action)
                ==> turns_to(*job, 0, action) && *final(job) == *job,
        forall|job: &mut Job<SJob, Next>, action: MarkAction| #[trigger]
            call_ensures(Job::<SJob, Next>::cancel_children, (job, MarkEvent::Begun), action)
                ==> turns_to(*job, 0, action) && *final(job) == *job,
        forall|job: &mut Job<SJob, Next>, action: MarkAction| #[trigger]
            call_ensures(
                Job::<SJob, Next>::pause_children,
                (job, MarkEvent::Updated(place, Ok(()))),
                action,
            ) ==> turns_to(*job, place + 1, action) && *final(job) == *job,
        forall|job: &mut Job<SJob, Next>, action: MarkAction| #[trigger]
            call_ensures(
                Job::<SJob, Next>::cancel_children,
                (job, MarkEvent::Updated(place, Ok(()))),
                action,
            ) ==> turns_to(*job, place + 1, action) && *final(job) == *job,
        forall|job: &mut Job<SJob, Next>, event: MarkEvent, action: MarkAction|
            (event == MarkEvent::Updated(place, Err(error)) || event == MarkEvent::Serialized(
                place,
                Err(error),
            )) && #[trigger] call_ensures(
                Job::<SJob, Next>::pause_children,
                (job, event),
                action,
            ) ==> action == MarkAction::Return(Err(error)) && *final(job) == *job,
        forall|job: &mut Job<SJob, Next>, event: MarkEvent, action: MarkAction|
            (event == MarkEvent::Updated(place, Err(error)) || event == MarkEvent::Serialized(
                place,
                Err(error),
            )) && #[trigger] call_ensures(
                Job::<SJob, Next>::cancel_children,
                (job, event),
                action,
            ) ==> action == MarkAction::Return(Err(error)) && *final(job) == *job,
{
}

/// A job in a queue is marked by `report_mut` alone, so that what its report does
/// not show stays as it was.
pub proof fn law_marking_asks_for_the_report_alone<SJob: StatefulJob, Next: DynJob<Next>>(
    place: usize,
    state: Vec<u8>,
)
    ensures
        forall|job: &mut Job<SJob, Next>| #[trigger]
            call_ensures(
                Job::<SJob, Next>::pause_children,
                (job, MarkEvent::Serialized(place, Ok(state))),
                MarkAction::Update(place),
            ) ==> exists|child: &mut Next, report: &mut Option<JobReport>|
                {
                    &&& *child == job.next_jobs@[place as int]
                    &&& *final(child) == final(job).next_jobs@[place as int]
                    &&& #[trigger] call_ensures(
                        <Next as DynJob<Next>>::report_mut,
                        (child,),
                        report,
                    )
                },
        forall|job: &mut Job<SJob, Next>| #[trigger]
            call_ensures(
                Job::<SJob, Next>::cancel_children,
                (job, MarkEvent::Serialized(place, Ok(state))),
                MarkAction::Update(place),
            ) ==> exists|child: &mut Next, report: &mut Option<JobReport>|
                {
                    &&& *child == job.next_jobs@[place as int]
                    &&& *final(child) == final(job).next_jobs@[place as int]
                    &&& #[trigger] call_ensures(
                        <Next as DynJob<Next>>::report_mut,
                        (child,),
                        report,
                    )
                },
{
}

/// Whether `event` tells how `action` went.
pub open spec fn reports_on(action: MarkAction, event: MarkEvent) -> bool {
    match action {
        MarkAction::Serialize(place) => event matches MarkEvent::Serialized(at, _) && at == place,
        MarkAction::Update(place) => event matches MarkEvent::Updated(at, _) && at == place,
        MarkAction::Return(_) => false,
    }
}

/// Whether a queue is gone through to mark its jobs, which takes the job that they
/// wait for from each of `jobs` to the next: `events` are what is heard, each of
/// them about the action before, and `actions` what is answered.
pub open spec fn is_marking<SJob: StatefulJob, Next: DynJob<Next>>(
    jobs: Seq<Job<SJob, Next>>,
    status: JobStatus,
    events: Seq<MarkEvent>,
    actions: Seq<MarkAction>,
) -> bool {
    &&& events.len() == actions.len()
    &&& jobs.len() == events.len() + 1
    &&& events.len() > 0
    &&& events[0] == MarkEvent::Begun
    &&& forall|i: int|
        #![trigger events[i]]
        0 <= i < events.len() ==> jobs[i].is_mark_turn(jobs[i + 1], status, events[i], actions[i])
    &&& forall|i: int|
        #![trigger events[i]]
        0 < i < events.len() ==> reports_on(actions[i - 1], events[i])
}

/// The bytes that were made of the state of the job at `place`.
pub open spec fn bytes_of(events: Seq<MarkEvent>, place: int) -> Vec<u8> {
    match events[2 * place + 1] {
        MarkEvent::Serialized(_, Ok(bytes)) => bytes,
        _ => arbitrary(),
    }
}

/// Whether the job at `place` has been marked with its own bytes and its report
/// stored again.
pub open spec fn is_seen_to<SJob: StatefulJob, Next: DynJob<Next>>(
    before: Job<SJob, Next>,
    after: Job<SJob, Next>,
    status: JobStatus,
    events: Seq<MarkEvent>,
    place: int,
) -> bool {
    &&& before.next_jobs@[place].face().report is Some
    &&& after.next_jobs@[place].face().report matches Some(report)
    &&& report.status == status
    &&& report.data == Some(bytes_of(events, place))
    &&& 2 * place + 2 < events.len()
    &&& events[2 * place + 1] matches MarkEvent::Serialized(at, Ok(_)) && at == place
    &&& events[2 * place + 2] matches MarkEvent::Updated(at, Ok(_)) && at == place
}

/// A queue has been gone through with success only when every job in it has been
/// marked, with the bytes that were made of its own state, and its report has been
/// stored again with success: whatever is heard on the way.
pub proof fn law_success_means_all_are_marked<SJob: StatefulJob, Next: DynJob<Next>>(
    jobs: Seq<Job<SJob, Next>>,
    status: JobStatus,
    events: Seq<MarkEvent>,
    actions: Seq<MarkAction>,
)
    requires
        is_marking(jobs, status, events, actions),
        actions.last() matches MarkAction::Return(Ok(_)),
        jobs[0].next_jobs@.len() <= usize::MAX,
    ensures
        jobs.last().next_jobs@.len() == jobs[0].next_jobs@.len(),
        forall|place: int|
            0 <= place < jobs[0].next_jobs@.len() ==> #[trigger] is_seen_to(
                jobs[0],
                jobs.last(),
                status,
                events,
                place,
            ),
{
    let last: int = events.len() - 1;
    lemma_marking(jobs, status, events, actions, last as nat);
    assert(jobs[last].is_mark_turn(jobs[last + 1], status, events[last], actions[last]));
    assert(jobs.last() == jobs[last + 1]);
    assert forall|place: int| 0 <= place < jobs[0].next_jobs@.len() implies #[trigger] is_seen_to(
        jobs[0],
        jobs.last(),
        status,
        events,
        place,
    ) by {
        assert(is_done_with(jobs[0], jobs[last], status, events, last, place));
    }
}

/// Whether the job at `place` has been marked, and its report stored again where
/// `turn` is far enough along.
spec fn is_done_with<SJob: StatefulJob, Next: DynJob<Next>>(
    before: Job<SJob, Next>,
    now: Job<SJob, Next>,
    status: JobStatus,
    events: Seq<MarkEvent>,
    turn: int,
    place: int,
) -> bool {
    &&& before.next_jobs@[place].face().report is Some
    &&& now.next_jobs@[place].face().report matches Some(report)
    &&& report.status == status
    &&& report.data == Some(bytes_of(events, place))
    &&& events[2 * place + 1] matches MarkEvent::Serialized(at, Ok(_)) && at == place
    &&& 2 * place + 2 <= turn ==> (events[2 * place + 2] matches MarkEvent::Updated(at, _) && at
        == place)
    &&& 2 * place + 2 < turn ==> (events[2 * place + 2] matches MarkEvent::Updated(_, Ok(_)))
}

/// Where the pass stands before turn `turn`: an event about a report comes at every
/// second turn, and so many jobs have been marked.
proof fn lemma_marking<SJob: StatefulJob, Next: DynJob<Next>>(
    jobs: Seq<Job<SJob, Next>>,
    status: JobStatus,
    events: Seq<MarkEvent>,
    actions: Seq<MarkAction>,
    turn: nat,
)
    requires
        is_marking(jobs, status, events, actions),
        turn < events.len(),
        jobs[0].next_jobs@.len() <= usize::MAX,
    ensures
        turn / 2 <= jobs[0].next_jobs@.len(),
        jobs[turn as int].next_jobs@.len() == jobs[0].next_jobs@.len(),
        turn % 2 == 1 ==> (events[turn as int] matches MarkEvent::Serialized(at, _) && at == turn
            / 2 && at < jobs[0].next_jobs@.len()),
        turn % 2 == 0 && turn > 0 ==> (events[turn as int] matches MarkEvent::Updated(at, _) && at
            == turn / 2 - 1),
        forall|place: int|
            0 <= place < turn / 2 ==> #[trigger] is_done_with(
                jobs[0],
                jobs[turn as int],
                status,
                events,
                turn as int,
                place,
            ),
        forall|place: int|
            turn / 2 <= place < jobs[0].next_jobs@.len() ==> #[trigger] jobs[turn as
                int].next_jobs@[place] == jobs[0].next_jobs@[place],
    decreases turn,
{
    if turn > 0 {
        let t: int = turn - 1;
        lemma_marking(jobs, status, events, actions, t as nat);
        let before = jobs[t];
        let after = jobs[t + 1];
        assert(before.is_mark_turn(after, status, events[t], actions[t]));
        assert(reports_on(actions[t], events[t + 1]));
        if t % 2 == 0 {
            assert(after == before);
            assert(turn / 2 == t / 2);
            assert forall|place: int| 0 <= place < turn / 2 implies #[trigger] is_done_with(
                jobs[0],
                after,
                status,
                events,
                turn as int,
                place,
            ) by {
                assert(is_done_with(jobs[0], before, status, events, t, place));
            }
        } else {
            let at: int = t / 2;
            assert(turn / 2 == at + 1);
            assert(2 * at + 1 == t);
            let state = bytes_of(events, at);
            assert(before.marks(after, at as usize, status, state));
            assert(before.next_jobs@[at] == jobs[0].next_jobs@[at]);
            assert forall|place: int| 0 <= place < turn / 2 implies #[trigger] is_done_with(
                jobs[0],
                after,
                status,
                events,
                turn as int,
                place,
            ) by {
                if place < at {
                    assert(is_done_with(jobs[0], before, status, events, t, place));
                    assert(after.next_jobs@[place] == before.next_jobs@[place]);
                }
            }
            assert forall|place: int|
                turn / 2 <= place < jobs[0].next_jobs@.len() implies (
            #[trigger] after.next_jobs@[place]) == jobs[0].next_jobs@[place] by {
                assert(after.next_jobs@[place] == before.next_jobs@[place]);
            }
        }
    }
}

} // verus!
