//! The local transcription service (a Whisper server on port 8765): its
//! endpoints and the answers that the app gives about transcription jobs.
use vstd::prelude::*;

verus! {

/// What is known of a transcription job.
#[derive(Debug, Clone)]
pub struct TranscribeJobResponse {
    pub job_id: Option<String>,
    pub status: String,
    pub transcript: Option<String>,
    pub error: Option<String>,
}

pub open spec fn service_base() -> Seq<char> {
    "http://localhost:8765"@
}

/// The endpoint that starts a transcription job.
pub fn transcribe_url() -> (r: String)
    ensures
        r@ == service_base() + "/transcribe"@,
{
    let mut r = "http://localhost:8765".to_owned();
    r.append("/transcribe");
    r
}

/// The endpoint that answers whether the service is up.
pub fn health_url() -> (r: String)
    ensures
        r@ == service_base() + "/health"@,
{
    let mut r = "http://localhost:8765".to_owned();
    r.append("/health");
    r
}

/// The endpoint that reports on the job `job_id`.
pub fn job_status_url(job_id: &str) -> (r: String)
    ensures
        r@ == service_base() + "/jobs/"@ + job_id@,
{
    let mut r = "http://localhost:8765".to_owned();
    r.append("/jobs/");
    r.append(job_id);
    r
}

/// The answer about job `job_id`, given the status, the transcript of the
/// result (where the job has one) and the error that the service reported.
pub fn job_status_response(
    job_id: String,
    status: String,
    transcript: Option<String>,
    error: Option<String>,
) -> (r: TranscribeJobResponse)
    ensures
        r.job_id == Some(job_id),
        r.status == status,
        r.transcript == transcript,
        r.error == error,
{
    TranscribeJobResponse { job_id: Some(job_id), status, transcript, error }
}

/// The error when the transcription service cannot be reached to start a job.
pub fn service_not_running_message(error: &str) -> (r: String)
    ensures
        r@ == "Whisper service not running: "@ + error@,
{
    let mut r = "Whisper service not running: ".to_owned();
    r.append(error);
    r
}

/// The error when the service cannot be reached to report on a job.
pub fn service_error_message(error: &str) -> (r: String)
    ensures
        r@ == "Whisper service error: "@ + error@,
{
    let mut r = "Whisper service error: ".to_owned();
    r.append(error);
    r
}

/// The error when the service's answer cannot be read.
pub fn invalid_response_message(error: &str) -> (r: String)
    ensures
        r@ == "Invalid response: "@ + error@,
{
    let mut r = "Invalid response: ".to_owned();
    r.append(error);
    r
}

} // verus!
