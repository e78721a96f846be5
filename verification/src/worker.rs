//! What the worker that looks after a job asks of it, and learns from it.

use crate::report::JobStatus;
use crate::stateful::LocationId;
use std::time::{Duration, Instant};
use tokio::sync::oneshot;
use uuid::Uuid;
use vstd::prelude::*;

verus! {

/// Which job this is, and where it stands.
#[derive(Debug)]
pub struct JobIdentity {
    pub id: Uuid,
    pub name: &'static str,
    pub target_location: LocationId,
    pub status: JobStatus,
}

/// A word from the worker to the job it looks after.
#[derive(Debug)]
pub enum WorkerCommand {
    Pause(Instant),
    Resume(Instant),
    IdentifyYourself(oneshot::Sender<JobIdentity>),
    Shutdown(Instant, oneshot::Sender<()>),
    Cancel(Instant, oneshot::Sender<()>),
    Timeout(Duration, oneshot::Sender<()>),
}

/// Which job is at work, for as long as it runs.
#[derive(Debug, Clone, Copy)]
pub struct JobRunWorkTable {
    pub id: Uuid,
    pub name: &'static str,
    pub target_location: LocationId,
}

impl JobRunWorkTable {
    /// The job as it shows itself when it stands at `status`.
    pub open spec fn identity(self, status: JobStatus) -> JobIdentity {
        JobIdentity {
            id: self.id,
            name: self.name,
            target_location: self.target_location,
            status,
        }
    }

    /// How the job answers when it is asked who it is.
    pub fn identify(&self, status: JobStatus) -> (r: JobIdentity)
        ensures
            r == self.identity(status),
    {
        JobIdentity {
            id: self.id,
            name: self.name,
            target_location: self.target_location,
            status,
        }
    }
}

} // verus!
