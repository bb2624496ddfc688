use clippa::paths::downloads_dir;
use clippa::transcription::{
    health_url, invalid_response_message, job_status_response, job_status_url,
    service_error_message, service_not_running_message, transcribe_url,
};

#[test]
fn service_endpoints() {
    assert_eq!(transcribe_url(), "http://localhost:8765/transcribe");
    assert_eq!(health_url(), "http://localhost:8765/health");
    assert_eq!(job_status_url("job-42"), "http://localhost:8765/jobs/job-42");
}

#[test]
fn job_status_answer() {
    let r = job_status_response(
        "job-42".to_string(),
        "completed".to_string(),
        Some("hello there".to_string()),
        None,
    );
    assert_eq!(r.job_id.as_deref(), Some("job-42"));
    assert_eq!(r.status, "completed");
    assert_eq!(r.transcript.as_deref(), Some("hello there"));
    assert!(r.error.is_none());
    let r = job_status_response("j".to_string(), "failed".to_string(), None, Some("boom".to_string()));
    assert_eq!(r.error.as_deref(), Some("boom"));
    assert!(r.transcript.is_none());
}

#[test]
fn service_error_messages() {
    assert_eq!(service_not_running_message("refused"), "Whisper service not running: refused");
    assert_eq!(service_error_message("timeout"), "Whisper service error: timeout");
    assert_eq!(invalid_response_message("eof"), "Invalid response: eof");
}

#[test]
fn downloads_directory_choice() {
    assert_eq!(
        downloads_dir(Some("/home/a/Downloads".to_string()), Some("/home/a/x".to_string())),
        Ok("/home/a/Downloads".to_string())
    );
    assert_eq!(downloads_dir(None, Some("/home/a/Downloads".to_string())), Ok("/home/a/Downloads".to_string()));
    assert_eq!(downloads_dir(None, None), Err("Could not find downloads directory".to_string()));
}
