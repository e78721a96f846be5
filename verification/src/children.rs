//! The jobs that wait for a job, on the occasions that concern them all: when
//! their reports are stored for the first time, and when they are paused or
//! canceled together with the job that they wait for.
//!
//! Each occasion goes through the queue from its head. Whoever sees to it does
//! what it is told, says how that went, and is told what is to be done next,
//! until there is something to return. The first error is the last word.

use crate::error::JobError;
use crate::job::Job;
use crate::report::{JobReport, JobStatus};
use crate::stateful::{DynJob, StatefulJob};
use vstd::prelude::*;

verus! {

/// What is to be done next to have all reports stored.
pub enum RegisterAction {
    /// Store the report of the job at this place in the queue.
    Create(usize),
    /// There is nothing left to do.
    Return(Result<(), JobError>),
}

/// How storing the reports goes.
pub enum RegisterEvent {
    /// Nothing has been done yet.
    Begun,
    /// This has come of storing the report of the job at this place.
    Created(usize, Result<(), JobError>),
}

/// What is to be done next to have all jobs paused or canceled.
pub enum MarkAction {
    /// Turn the state of the job at this place in the queue into bytes.
    Serialize(usize),
    /// Store the report of the job at this place again.
    Update(usize),
    /// There is nothing left to do.
    Return(Result<(), JobError>),
}

/// How pausing or canceling the jobs goes.
pub enum MarkEvent {
    /// Nothing has been done yet.
    Begun,
    /// This has come of turning the state of the job at this place into bytes.
    Serialized(usize, Result<Vec<u8>, JobError>),
    /// This has come of storing the report of the job at this place again.
    Updated(usize, Result<(), JobError>),
}

/// Whether `child` has a report that has been stored.
pub open spec fn is_registered<Next: DynJob<Next>>(child: Next) -> bool {
    child.face().report matches Some(report) && report.created_at is Some
}

/// Whether all the jobs of `queue` from `from` up to `to` are registered.
pub open spec fn all_registered<Next: DynJob<Next>>(queue: Seq<Next>, from: int, to: int) -> bool {
    forall|i: int| from <= i < to ==> is_registered(#[trigger] queue[i])
}

/// Whether `place` is that of the first job of `queue`, from `from` on, that is
/// not registered.
pub open spec fn is_next_unregistered<Next: DynJob<Next>>(
    queue: Seq<Next>,
    from: int,
    place: int,
) -> bool {
    &&& from <= place < queue.len()
    &&& !is_registered(queue[place])
    &&& all_registered(queue, from, place)
}

/// Whether a job without a report can at least tell its identifier.
pub open spec fn can_be_named<Next: DynJob<Next>>(child: Next) -> bool {
    child.face().report is None ==> child.face().id is Some
}

/// Whether `error` says that `child` has no report.
pub open spec fn misses_report<Next: DynJob<Next>>(child: Next, error: JobError) -> bool {
    &&& child.face().report is None
    &&& error matches JobError::MissingReport { id, name }
    &&& Some(id) == child.face().id
    &&& name@ == child.face().name
}

impl RegisterEvent {
    /// The place from which the search for a report to store goes on.
    pub open spec fn from(self) -> int {
        match self {
            RegisterEvent::Begun => 0,
            RegisterEvent::Created(place, _) => place + 1,
        }
    }
}

/// Whether `action` is what is to be done for `queue` after `event`: to store the
/// report of the first job that is still unregistered, if it has one, and
/// nothing where there is no such job.
pub open spec fn is_register_turn<Next: DynJob<Next>>(
    queue: Seq<Next>,
    event: RegisterEvent,
    action: RegisterAction,
) -> bool {
    match (event, action) {
        (RegisterEvent::Created(_, Err(error)), _) => action == RegisterAction::Return(
            Err(error),
        ),
        (_, RegisterAction::Create(place)) => {
            &&& is_next_unregistered(queue, event.from(), place as int)
            &&& queue[place as int].face().report is Some
        },
        (_, RegisterAction::Return(Ok(_))) => all_registered(
            queue,
            event.from(),
            queue.len() as int,
        ),
        (_, RegisterAction::Return(Err(error))) => exists|place: int| #[trigger]
            is_next_unregistered(queue, event.from(), place) && misses_report(queue[place], error),
    }
}

/// The trouble with a job that has no report.
fn missing_report<Next: DynJob<Next>>(child: &Next) -> (r: JobError)
    requires
        child.face().report is None,
        child.face().id is Some,
    ensures
        misses_report(*child, r),
{
    JobError::MissingReport { id: child.id(), name: child.name().to_string() }
}

impl<SJob: StatefulJob, Next: DynJob<Next>> Job<SJob, Next> {
    /// Whether this is an event that can come to pass: it is about a job in the
    /// queue, and the next that is not registered can at least be named.
    pub open spec fn can_register(self, event: RegisterEvent) -> bool {
        &&& event matches RegisterEvent::Created(place, _) ==> place < self.next_jobs@.len()
        &&& !(event matches RegisterEvent::Created(_, Err(_))) ==> forall|place: int| #[trigger]
            is_next_unregistered(self.next_jobs@, event.from(), place) ==> can_be_named(
                self.next_jobs@[place],
            )
    }

    /// Goes on storing the reports of the jobs in the queue, those that have
    /// not been stored before, after `event`.
    pub fn register_children(&self, event: RegisterEvent) -> (r: RegisterAction)
        requires
            self.can_register(event),
        ensures
            is_register_turn(self.next_jobs@, event, r),
    {
        let queued: usize = self.next_jobs.len();
        let from: usize = match event {
            RegisterEvent::Begun => 0,
            RegisterEvent::Created(place, Ok(_)) => place + 1,
            RegisterEvent::Created(_, Err(error)) => {
                return RegisterAction::Return(Err(error));
            },
        };
        let mut place: usize = from;
        while place < queued
            invariant
                queued == self.next_jobs@.len(),
                from <= place <= self.next_jobs@.len(),
                from == event.from(),
                !(event matches RegisterEvent::Created(_, Err(_))),
                forall|place: int| #[trigger]
                    is_next_unregistered(self.next_jobs@, from as int, place) ==> can_be_named(
                        self.next_jobs@[place],
                    ),
                all_registered(self.next_jobs@, from as int, place as int),
            decreases self.next_jobs@.len() - place,
        {
            let child = &self.next_jobs[place];
            match child.report() {
                Some(report) => {
                    if report.created_at.is_none() {
                        return RegisterAction::Create(place);
                    }
                },
                None => {
                    assert(is_next_unregistered(self.next_jobs@, from as int, place as int));
                    return RegisterAction::Return(Err(missing_report(child)));
                },
            }
            place += 1;
        }
        RegisterAction::Return(Ok(()))
    }

    /// Whether `after` is this job once the report of the job at `place` in its
    /// queue says `status` and holds `state`, with everything else as it was.
    pub open spec fn marks(
        self,
        after: Self,
        place: usize,
        status: JobStatus,
        state: Vec<u8>,
    ) -> bool {
        let before = self.next_jobs@[place as int];
        let child = after.next_jobs@[place as int];
        &&& before.face().report matches Some(report)
        &&& child.face().report == Some(JobReport { status, data: Some(state), ..report })
        &&& child.face().id == before.face().id
        &&& child.face().parent == before.face().parent
        &&& child.face().name == before.face().name
        &&& child.face().hash == before.face().hash
        &&& child.face().waiting == before.face().waiting
        &&& after.next_jobs@ == self.next_jobs@.update(place as int, child)
        &&& after == (Job { next_jobs: after.next_jobs, ..self })
    }

    /// What is to be done about the job at `place` in the queue, and nothing
    /// where the queue does not reach that far.
    pub open spec fn serializes(self, place: int, action: MarkAction) -> bool {
        if place < self.next_jobs@.len() {
            action matches MarkAction::Serialize(at) && at == place
        } else {
            action matches MarkAction::Return(Ok(_))
        }
    }

    /// Whether `after` and `action` are what comes of `event` where all jobs in
    /// the queue are to be marked with `status`: the states are turned into
    /// bytes one after the other, and each report is marked and stored before
    /// the next.
    pub open spec fn is_mark_turn(
        self,
        after: Self,
        status: JobStatus,
        event: MarkEvent,
        action: MarkAction,
    ) -> bool {
        match event {
            MarkEvent::Begun => after == self && self.serializes(0, action),
            MarkEvent::Serialized(place, Ok(state)) => match action {
                MarkAction::Update(at) => at == place && self.marks(after, place, status, state),
                MarkAction::Return(Err(error)) => after == self && misses_report(
                    self.next_jobs@[place as int],
                    error,
                ),
                _ => false,
            },
            MarkEvent::Serialized(_, Err(error)) => after == self && action == MarkAction::Return(
                Err(error),
            ),
            MarkEvent::Updated(place, Ok(_)) => after == self && self.serializes(
                place + 1,
                action,
            ),
            MarkEvent::Updated(_, Err(error)) => after == self && action == MarkAction::Return(
                Err(error),
            ),
        }
    }

    /// Whether this is an event that can come to pass: it is about a job in the
    /// queue, and one whose report is to be marked can at least be named.
    pub open spec fn can_mark(self, event: MarkEvent) -> bool {
        match event {
            MarkEvent::Begun => true,
            MarkEvent::Serialized(place, serialized) => {
                &&& place < self.next_jobs@.len()
                &&& serialized is Ok ==> can_be_named(self.next_jobs@[place as int])
            },
            MarkEvent::Updated(place, _) => place < self.next_jobs@.len(),
        }
    }

    /// Says what is to be done about the job at `place` in the queue.
    fn serialize_child(&self, place: usize) -> (r: MarkAction)
        ensures
            self.serializes(place as int, r),
    {
        if place < self.next_jobs.len() {
            MarkAction::Serialize(place)
        } else {
            MarkAction::Return(Ok(()))
        }
    }

    /// Goes on marking the jobs in the queue with `status` after `event`.
    fn mark_children(&mut self, status: JobStatus, event: MarkEvent) -> (r: MarkAction)
        requires
            old(self).can_mark(event),
        ensures
            old(self).is_mark_turn(*final(self), status, event, r),
            r matches MarkAction::Update(place) ==> exists|
                child: &mut Next,
                report: &mut Option<JobReport>,
            |
                {
                    &&& *child == old(self).next_jobs@[place as int]
                    &&& *final(child) == final(self).next_jobs@[place as int]
                    &&& #[trigger] call_ensures(
                        <Next as DynJob<Next>>::report_mut,
                        (child,),
                        report,
                    )
                    &&& *report matches Some(was)
                    &&& *final(report) == Some(
                        JobReport { status, data: Some(event->Serialized_1->Ok_0), ..was },
                    )
                },
    {
        match event {
            MarkEvent::Begun => self.serialize_child(0),
            MarkEvent::Updated(place, Ok(_)) => {
                let queued: usize = self.next_jobs.len();
                assert(place < queued);
                self.serialize_child(place + 1)
            },
            MarkEvent::Updated(_, Err(error)) => MarkAction::Return(Err(error)),
            MarkEvent::Serialized(_, Err(error)) => MarkAction::Return(Err(error)),
            MarkEvent::Serialized(place, Ok(state)) => {
                let child = &self.next_jobs[place];
                if child.report().is_none() {
                    return MarkAction::Return(Err(missing_report(child)));
                }
                if let Some(child) = self.next_jobs.remove(place) {
                    let mut child = child;
                    if let Some(report) = child.report_mut() {
                        report.status = status;
                        report.data = Some(state);
                    }
                    self.next_jobs.insert(place, child);
                    assert(self.next_jobs@ =~= old(self).next_jobs@.update(place as int, child));
                }
                MarkAction::Update(place)
            },
        }
    }

    /// Goes on pausing the jobs in the queue after `event`: each report says
    /// that its job is paused and holds its state, and is stored again. Nothing
    /// but `report_mut` is asked of the jobs to have them marked.
    pub fn pause_children(&mut self, event: MarkEvent) -> (r: MarkAction)
        requires
            old(self).can_mark(event),
        ensures
            old(self).is_mark_turn(*final(self), JobStatus::Paused, event, r),
            r matches MarkAction::Update(place) ==> exists|
                child: &mut Next,
                report: &mut Option<JobReport>,
            |
                {
                    &&& *child == old(self).next_jobs@[place as int]
                    &&& *final(child) == final(self).next_jobs@[place as int]
                    &&& #[trigger] call_ensures(
                        <Next as DynJob<Next>>::report_mut,
                        (child,),
                        report,
                    )
                    &&& *report matches Some(was)
                    &&& *final(report) == Some(
                        JobReport {
                            status: JobStatus::Paused,
                            data: Some(event->Serialized_1->Ok_0),
                            ..was
                        },
                    )
                },
    {
        self.mark_children(JobStatus::Paused, event)
    }

    /// Goes on canceling the jobs in the queue after `event`: each report says
    /// that its job is canceled and holds its state, and is stored again. Nothing
    /// but `report_mut` is asked of the jobs to have them marked.
    pub fn cancel_children(&mut self, event: MarkEvent) -> (r: MarkAction)
        requires
            old(self).can_mark(event),
        ensures
            old(self).is_mark_turn(*final(self), JobStatus::Canceled, event, r),
            r matches MarkAction::Update(place) ==> exists|
                child: &mut Next,
                report: &mut Option<JobReport>,
            |
                {
                    &&& *child == old(self).next_jobs@[place as int]
                    &&& *final(child) == final(self).next_jobs@[place as int]
                    &&& #[trigger] call_ensures(
                        <Next as DynJob<Next>>::report_mut,
                        (child,),
                        report,
                    )
                    &&& *report matches Some(was)
                    &&& *final(report) == Some(
                        JobReport {
                            status: JobStatus::Canceled,
                            data: Some(event->Serialized_1->Ok_0),
                            ..was
                        },
                    )
                },
    {
        self.mark_children(JobStatus::Canceled, event)
    }
}

} // verus!
