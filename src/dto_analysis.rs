//! Request and response bodies of the analysis endpoints.
use vstd::prelude::*;

verus! {

/// The model version that analysis uses unless a request names one.
pub fn default_model_version() -> (r: String)
    ensures
        r@ == "v1.0.0"@,
{
    "v1.0.0".to_string()
}

#[derive(Clone, Debug)]
pub struct AnalyzeImageRequest {
    pub model_version: String,
}

impl Default for AnalyzeImageRequest {
    fn default() -> (r: AnalyzeImageRequest)
        ensures
            r.model_version@ == "v1.0.0"@,
    {
        AnalyzeImageRequest { model_version: default_model_version() }
    }
}

#[derive(Clone, Debug)]
pub struct AnalyzeImageResponse {
    pub job_id: i64,
    pub image_id: i64,
    pub status: String,
    pub ai_model_version: String,
    pub status_url: String,
    pub created_at: String,
}

#[derive(Clone, Debug)]
pub struct JobStatusResponse {
    pub job_id: i64,
    pub image_id: i64,
    pub status: String,
    pub ai_model_version: Option<String>,
    pub started_at: Option<String>,
    pub finished_at: Option<String>,
    pub error_message: Option<String>,
    pub result_url: Option<String>,
}

#[derive(Clone, Copy, Debug, PartialEq, Eq, Structural)]
pub struct CellCounts {
    pub viable: i32,
    pub apoptosis: i32,
    pub other: i32,
}

} // verus!
