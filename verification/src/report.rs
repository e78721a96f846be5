//! The report of a job: what is kept of it, and what it tells as it goes.

use uuid::Uuid;
use vstd::prelude::*;

verus! {

/// Where a job stands.
#[derive(Debug, Clone, Copy, PartialEq, Eq, Structural)]
pub enum JobStatus {
    Queued,
    Running,
    Paused,
    Canceled,
}

/// The record of a job.
#[derive(Debug)]
pub struct JobReport {
    pub id: Uuid,
    pub name: String,
    pub action: Option<String>,
    /// The encoded state to bring the job back from.
    pub data: Option<Vec<u8>>,
    pub metadata: Option<serde_json::Value>,
    /// When the record was stored, in milliseconds since the epoch.
    pub created_at: Option<i64>,
    pub parent_id: Option<Uuid>,
    pub status: JobStatus,
}

/// What a running job tells of its progress.
#[derive(Debug, Clone, Copy, PartialEq, Eq, Structural)]
pub enum JobReportUpdate {
    TaskCount(usize),
    CompletedTaskCount(usize),
}

/// Gathers what a report starts out with.
#[derive(Debug)]
pub struct JobReportBuilder {
    pub id: Uuid,
    pub name: String,
    pub action: Option<String>,
    pub metadata: Option<serde_json::Value>,
    pub parent_id: Option<Uuid>,
}

impl JobReportBuilder {
    /// The report that is built: what was gathered, of a job that waits for its
    /// turn, has no state to go back to and is stored nowhere yet.
    pub open spec fn built(self) -> JobReport {
        JobReport {
            id: self.id,
            name: self.name,
            action: self.action,
            data: None,
            metadata: self.metadata,
            created_at: None,
            parent_id: self.parent_id,
            status: JobStatus::Queued,
        }
    }

    pub fn new(id: Uuid, name: String) -> (r: Self)
        ensures
            r == (JobReportBuilder { id, name, action: None, metadata: None, parent_id: None }),
    {
        JobReportBuilder { id, name, action: None, metadata: None, parent_id: None }
    }

    pub fn with_action(self, action: &str) -> (r: Self)
        ensures
            r.action matches Some(text) && text@ == action@,
            r == (JobReportBuilder { action: r.action, ..self }),
    {
        JobReportBuilder { action: Some(action.to_string()), ..self }
    }

    pub fn with_parent_id(self, parent_id: Uuid) -> (r: Self)
        ensures
            r == (JobReportBuilder { parent_id: Some(parent_id), ..self }),
    {
        JobReportBuilder { parent_id: Some(parent_id), ..self }
    }

    pub fn with_metadata(self, metadata: serde_json::Value) -> (r: Self)
        ensures
            r == (JobReportBuilder { metadata: Some(metadata), ..self }),
    {
        JobReportBuilder { metadata: Some(metadata), ..self }
    }

    pub fn build(self) -> (r: JobReport)
        ensures
            r == self.built(),
    {
        JobReport {
            id: self.id,
            name: self.name,
            action: self.action,
            data: None,
            metadata: self.metadata,
            created_at: None,
            parent_id: self.parent_id,
            status: JobStatus::Queued,
        }
    }
}

} // verus!
