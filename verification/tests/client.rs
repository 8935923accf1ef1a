use media_manager_client::client::{cleanup_outcome, download_url, poll_found_job, status_is_error, upload_url, Removal};
use media_manager_client::job::Job;
use media_manager_client::pipeline::StepOutcome;

#[test]
fn poll_statuses() {
    assert!(!poll_found_job(204));
    assert!(!poll_found_job(404));
    assert!(poll_found_job(200));
    assert!(poll_found_job(500));
}

#[test]
fn error_statuses() {
    assert!(!status_is_error(200));
    assert!(!status_is_error(302));
    assert!(status_is_error(400));
    assert!(status_is_error(404));
    assert!(status_is_error(599));
    assert!(!status_is_error(600));
}

#[test]
fn transfer_urls_come_from_the_job() {
    let j = Job {
        id: "123".to_string(),
        input_url: "HTTP://LocalHost:8000/api/media/jobs/job-123/input".to_string(),
        transcode: None,
        output_url: "http://localhost:8000/api/worker/jobs/job-123/output".to_string(),
    };
    assert_eq!(download_url(&j).unwrap(), "http://localhost:8000/api/media/jobs/job-123/input");
    assert_eq!(upload_url(&j).unwrap(), "http://localhost:8000/api/worker/jobs/job-123/output");
    let bad = Job { input_url: "job-123/input".to_string(), output_url: String::new(), ..j };
    assert!(download_url(&bad).is_err());
    assert!(upload_url(&bad).is_err());
}

#[test]
fn cleanup_outcomes() {
    assert_eq!(cleanup_outcome(Removal::Removed), StepOutcome::Succeeded);
    assert_eq!(cleanup_outcome(Removal::NotFound), StepOutcome::Succeeded);
    assert_eq!(cleanup_outcome(Removal::Failed("denied".to_string())), StepOutcome::Failed("denied".to_string()));
}
