use media_manager_client::job::Job;
use media_manager_client::pipeline::{JobStep, StepOutcome};

fn job() -> Job {
    Job { id: "42".to_string(), input_url: "http://h/in".to_string(), transcode: None, output_url: "http://h/out".to_string() }
}

fn failed(s: &str) -> StepOutcome {
    StepOutcome::Failed(s.to_string())
}

#[test]
fn success_path() {
    let j = job();
    let mut step = JobStep::first();
    let mut seen = vec![step.clone()];
    while !step.is_done() {
        step = step.next(&j, StepOutcome::Succeeded);
        seen.push(step.clone());
    }
    assert_eq!(seen, vec![JobStep::Download, JobStep::Transcode, JobStep::Upload, JobStep::ReportComplete, JobStep::Done]);
}

#[test]
fn download_failure_is_reported_with_context() {
    let j = job();
    let step = JobStep::Download.next(&j, failed("connection refused"));
    assert_eq!(step, JobStep::ReportFailed("Failed to download job 42 from http://h/in".to_string()));
    let step = step.next(&j, StepOutcome::Succeeded);
    assert_eq!(step, JobStep::Cleanup);
    assert_eq!(step.next(&j, failed("busy")), JobStep::Done);
}

#[test]
fn transcode_failure_is_reported_with_context() {
    let j = job();
    assert_eq!(
        JobStep::Transcode.next(&j, failed("FFmpeg exited with error")),
        JobStep::ReportFailed("Failed to transcode job 42 from http://h/in ".to_string())
    );
}

#[test]
fn upload_and_report_failures_keep_their_text() {
    let j = job();
    assert_eq!(JobStep::Upload.next(&j, failed("output upload rejected for job 42")), JobStep::ReportFailed("output upload rejected for job 42".to_string()));
    assert_eq!(JobStep::ReportComplete.next(&j, failed("x")), JobStep::ReportFailed("x".to_string()));
}

#[test]
fn failed_failure_report_skips_cleanup() {
    let j = job();
    assert_eq!(JobStep::ReportFailed("e".to_string()).next(&j, failed("down")), JobStep::Done);
    assert_eq!(JobStep::Done.next(&j, StepOutcome::Succeeded), JobStep::Done);
}
