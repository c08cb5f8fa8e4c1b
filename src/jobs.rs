//! What the library hands to the object store and the message queue.
use vstd::prelude::*;

verus! {

/// Message that hands one analysis job to the external worker.
#[derive(Clone, Debug)]
pub struct AnalysisJobMessage {
    pub job_id: i64,
    pub image_id: i64,
    pub s3_key: String,
    pub model_version: String,
    pub created_at: String,
}

#[derive(Clone, Debug)]
pub enum RabbitmqError {
    Connection(String),
    Channel(String),
    QueueDeclare(String),
    NotConnected,
    Serialize(String),
    Publish(String),
}

#[derive(Clone, Debug)]
pub enum S3Error {
    CredentialsError(String),
    BucketError(String),
    UploadError(String),
    DownloadError(String),
    DeleteError(String),
    NotFound(String),
}

} // verus!
