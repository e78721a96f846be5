//! What a kind of job says of itself, and what is known of a job whose kind
//! has been forgotten.

use crate::metadata::JobRunMetadata;
use crate::outside::{hash_str, hash_value};
use crate::report::JobReport;
use std::collections::hash_map::DefaultHasher;
use std::collections::VecDeque;
use std::hash::{Hash, Hasher};
use uuid::Uuid;
use vstd::prelude::*;
use vstd::std_specs::hash::DefaultHasherAdditionalSpecFns;

verus! {

/// The location that a job acts upon.
pub type LocationId = i32;

/// What can be fed to a hasher, write by write.
pub trait Digestible {
    /// Feeds this value to `state`.
    fn feed(&self, state: &mut DefaultHasher)
        ensures
            exists|writes: Seq<Seq<u8>>| final(state)@ == #[trigger] (old(state)@ + writes),
    ;
}

/// What can be hashed is fed as its own `Hash` has it.
impl<T: Hash> Digestible for T {
    fn feed(&self, state: &mut DefaultHasher)
        ensures
            exists|hasher: &mut DefaultHasher|
                {
                    &&& *hasher == *old(state)
                    &&& *final(hasher) == *final(state)
                    &&& #[trigger] call_ensures(hash_value::<T>, (self, hasher), ())
                },
    {
        hash_value(self, state)
    }
}

/// A kind of job: what it works on, the steps it takes, what it learns.
pub trait StatefulJob: Sized + Digestible {
    type Data;

    type Step;

    type RunMetadata: JobRunMetadata;

    /// The name of the job is a unique human readable identifier for the job.
    const NAME: &'static str;

    const IS_BACKGROUND: bool = false;

    /// A batched job counts its own tasks: the engine tells nothing for it.
    const IS_BATCHED: bool = false;

    /// The location id where this job will act upon.
    fn target_location(&self) -> (r: LocationId);

    /// The digest of the job: the name of its kind is fed to a hasher first, and
    /// the job itself after it.
    fn hash(&self) -> (r: u64)
        default_ensures
            exists|state: &mut DefaultHasher|
                {
                    &&& state@ == crate::outside::str_hash_writes(Self::NAME@)
                    &&& #[trigger] call_ensures(<Self as Digestible>::feed, (self, state), ())
                    &&& r == DefaultHasher::spec_finish(final(state)@)
                },
    {
        let mut state: DefaultHasher = DefaultHasher::new();
        hash_str(Self::NAME, &mut state);
        assert(state@ =~= crate::outside::str_hash_writes(Self::NAME@));
        self.feed(&mut state);
        state.finish()
    }
}

/// What there is to know of a job whose kind has been forgotten. `Next` is what
/// stands for a job of any kind in a queue.
pub struct JobFace<Next> {
    /// The report of the job, as long as it has one.
    pub report: Option<JobReport>,
    /// The identifier that the job tells; nothing where it cannot tell one.
    pub id: Option<Uuid>,
    /// The identifier of the job that it was queued behind.
    pub parent: Option<Uuid>,
    /// The name of its kind.
    pub name: Seq<char>,
    /// The digest of the job.
    pub hash: u64,
    /// The jobs that wait for this one.
    pub waiting: Seq<Next>,
}

/// Whether there is a report before and after, under the same identifier.
pub open spec fn tells_same_id(before: Option<JobReport>, after: Option<JobReport>) -> bool {
    before is Some && after is Some && before->0.id == after->0.id
}

/// Whether there is a report before and after, and both name the same parent.
pub open spec fn tells_same_parent(before: Option<JobReport>, after: Option<JobReport>) -> bool {
    before is Some && after is Some && before->0.parent_id == after->0.parent_id
}

/// A job of any kind, as the queue that it stands in sees it.
pub trait DynJob<Next> {
    /// What there is to know of the job.
    open spec fn face(&self) -> JobFace<Next> {
        arbitrary()
    }

    fn id(&self) -> (r: Uuid)
        requires
            self.face().id is Some,
        ensures
            Some(r) == self.face().id,
    ;

    fn parent_id(&self) -> (r: Option<Uuid>)
        ensures
            r == self.face().parent,
    ;

    fn report(&self) -> (r: &Option<JobReport>)
        ensures
            *r == self.face().report,
    ;

    fn report_mut(&mut self) -> (r: &mut Option<JobReport>)
        ensures
            *r == old(self).face().report,
            final(self).face().report == *final(r),
            tells_same_id(old(self).face().report, *final(r)) ==> final(self).face().id == old(
                self,
            ).face().id,
            tells_same_parent(old(self).face().report, *final(r)) ==> final(self).face().parent
                == old(self).face().parent,
            final(self).face().name == old(self).face().name,
            final(self).face().hash == old(self).face().hash,
            final(self).face().waiting == old(self).face().waiting,
    ;

    fn name(&self) -> (r: &'static str)
        ensures
            r@ == self.face().name,
    ;

    fn hash(&self) -> (r: u64)
        ensures
            r == self.face().hash,
    ;

    fn set_next_jobs(&mut self, next_jobs: VecDeque<Next>)
        ensures
            final(self).face() == (JobFace { waiting: next_jobs@, ..old(self).face() }),
    ;
}

} // verus!
