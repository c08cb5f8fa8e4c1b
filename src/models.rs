//! Records that the stores hand to the library.
use crate::time::Timestamp;
use vstd::prelude::*;

verus! {

/// A user as the user store holds it: identifier, username and the stored
/// credential (a self-describing PHC hash string, never sent outward).
#[derive(Clone, Debug)]
pub struct User {
    pub user_id: u128,
    pub username: String,
    pub password_hash: String,
    pub created_at: Option<Timestamp>,
}

/// State of an analysis job.
#[derive(Clone, Copy, Debug, PartialEq, Eq, Structural)]
pub enum JobStatus {
    Pending,
    Processing,
    Completed,
    Failed,
}

impl JobStatus {
    /// The status as the store and the API write it.
    pub fn as_str(&self) -> (r: &'static str)
        ensures
            r@ == match *self {
                JobStatus::Pending => "pending"@,
                JobStatus::Processing => "processing"@,
                JobStatus::Completed => "completed"@,
                JobStatus::Failed => "failed"@,
            },
    {
        match self {
            JobStatus::Pending => "pending",
            JobStatus::Processing => "processing",
            JobStatus::Completed => "completed",
            JobStatus::Failed => "failed",
        }
    }
}

} // verus!
