//! Jobs and batches: requests that are answered later.
use vstd::prelude::*;
use crate::ids::Timestamp;
use crate::gateway::responses::{CreateResponseBody, ResponseResource};

verus! {

/// One request that is answered later.
#[derive(Clone, Debug, PartialEq)]
pub struct Job {
    pub id: String,
    pub status: JobStatus,
    pub request: CreateResponseBody,
    pub result: Option<ResponseResource>,
    pub error: Option<AsyncError>,
    pub created_at: Timestamp,
    pub expires_at: Timestamp,
}

/// How far a job is.
#[derive(Clone, Copy, Debug, PartialEq, Eq, Structural)]
pub enum JobStatus {
    Pending,
    Running,
    Completed,
    Failed,
    Cancelled,
}

/// Several requests that are answered later.
#[derive(Clone, Debug, PartialEq)]
pub struct Batch {
    pub id: String,
    pub status: BatchStatus,
    pub requests: Vec<BatchRequest>,
    pub created_at: Timestamp,
}

/// One request of a batch.
#[derive(Clone, Debug, PartialEq)]
pub struct BatchRequest {
    pub custom_id: String,
    pub request: CreateResponseBody,
    pub result: Option<ResponseResource>,
    pub error: Option<AsyncError>,
}

/// How far a batch is.
#[derive(Clone, Copy, Debug, PartialEq, Eq, Structural)]
pub enum BatchStatus {
    Pending,
    InProgress,
    Completed,
    Failed,
    Cancelled,
}

/// Why a request that is answered later failed.
#[derive(Clone, Debug, PartialEq, Eq)]
pub struct AsyncError {
    pub code: String,
    pub message: String,
}

} // verus!
