//! The job engine: how a stateful job is built, queued, run step by step,
//! paused, interrupted and picked up again.
//!
//! The library holds every decision of a run and none of its waiting. A caller
//! spawns tasks, reads channels and encodes bytes; it hands what happened to
//! the functions here and carries out what they answer.

pub mod children;
pub mod engine;
pub mod error;
pub mod job;
pub mod laws;
pub mod metadata;
pub mod outside;
pub mod output;
pub mod phase;
pub mod report;
pub mod run;
pub mod stateful;
pub mod text;
pub mod worker;

pub use children::{MarkAction, MarkEvent, RegisterAction, RegisterEvent};
pub use engine::{RunAction, RunEvent, RunTurn};
pub use error::JobError;
pub use job::{Job, JobBuilder, JobRunOutput, JobState};
pub use metadata::{JobMetadata, JobResult, JobRunMetadata};
pub use output::{CurrentStep, JobInitOutput, JobRunErrors, JobStepOutput};
pub use report::{JobReport, JobReportBuilder, JobReportUpdate, JobStatus};
pub use stateful::{DynJob, LocationId, StatefulJob};
pub use worker::{JobIdentity, JobRunWorkTable, WorkerCommand};
