//! What a job says of itself while it runs, and once it has run.

use crate::error::JobError;
use vstd::prelude::*;

verus! {

/// What a job leaves behind once it has run.
pub type JobMetadata = Option<serde_json::Value>;

/// How the last word of a job comes out.
pub type JobResult = Result<JobMetadata, JobError>;

/// What a job learns as it runs. Each part of the run may add to it.
pub trait JobRunMetadata: Default {
    /// Whether `update` may make `after` of `before`, given `new_data`. Each
    /// implementation says for itself what its `update` does; one that says
    /// nothing promises nothing.
    open spec fn updates(before: Self, new_data: Self, after: Self) -> bool {
        true
    }

    /// Takes in what a part of the run has learned.
    fn update(&mut self, new_data: Self)
        ensures
            Self::updates(*old(self), new_data, *final(self)),
    ;
}

/// For jobs that have nothing to learn.
impl JobRunMetadata for () {
    open spec fn updates(before: Self, new_data: Self, after: Self) -> bool {
        after == before
    }

    fn update(&mut self, _new_data: Self) {
    }
}

} // verus!
