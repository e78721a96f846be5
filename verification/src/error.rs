//! How a job can end other than well.

use std::time::Duration;
use tokio::sync::oneshot;
use tokio::task::JoinError;
use uuid::Uuid;
use vstd::prelude::*;

verus! {

/// Why a job stopped, or could not be brought back.
#[derive(Debug)]
pub enum JobError {
    /// The task that ran a part of the job broke off.
    JoinTask(JoinError),
    /// The job was canceled; the signal tells whoever asked that it has ended.
    Canceled(oneshot::Sender<()>),
    /// The job was shut down; the bytes hold its state, from which it goes on
    /// later, and the signal tells whoever asked that it has ended.
    Paused(Vec<u8>, oneshot::Sender<()>),
    /// The job gave no sign of life for this long.
    Timeout(Duration),
    /// The job found that there was nothing left to do.
    EarlyFinish { name: String, reason: String },
    /// A queued job has no report.
    MissingReport { id: Uuid, name: String },
    /// The report of this job holds no state to bring it back from.
    MissingJobDataState(Uuid, String),
    /// A state could not be encoded.
    StateEncode(rmp_serde::encode::Error),
    /// A state could not be decoded.
    StateDecode(rmp_serde::decode::Error),
    /// The engine itself went wrong.
    Critical(&'static str),
    /// The job failed for a reason of its own.
    Failed(String),
}

impl From<JoinError> for JobError {
    fn from(error: JoinError) -> (r: Self) {
        JobError::JoinTask(error)
    }
}

impl vstd::std_specs::convert::FromSpecImpl<JoinError> for JobError {
    open spec fn obeys_from_spec() -> bool {
        true
    }

    open spec fn from_spec(error: JoinError) -> JobError {
        JobError::JoinTask(error)
    }
}

impl From<rmp_serde::encode::Error> for JobError {
    fn from(error: rmp_serde::encode::Error) -> (r: Self) {
        JobError::StateEncode(error)
    }
}

impl vstd::std_specs::convert::FromSpecImpl<rmp_serde::encode::Error> for JobError {
    open spec fn obeys_from_spec() -> bool {
        true
    }

    open spec fn from_spec(error: rmp_serde::encode::Error) -> JobError {
        JobError::StateEncode(error)
    }
}

impl From<rmp_serde::decode::Error> for JobError {
    fn from(error: rmp_serde::decode::Error) -> (r: Self) {
        JobError::StateDecode(error)
    }
}

impl vstd::std_specs::convert::FromSpecImpl<rmp_serde::decode::Error> for JobError {
    open spec fn obeys_from_spec() -> bool {
        true
    }

    open spec fn from_spec(error: rmp_serde::decode::Error) -> JobError {
        JobError::StateDecode(error)
    }
}

} // verus!
