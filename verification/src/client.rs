//! The decisions of the worker's exchanges with the server: how a response
//! status is read, where files are fetched from and sent to, and when a
//! cleanup counts as done.

use vstd::prelude::*;

use crate::job::Job;
use crate::pipeline::StepOutcome;
use crate::urls::{parsed_url, url_parse};

verus! {

/// HTTP 204 No Content.
pub const NO_CONTENT: u16 = 204;

/// HTTP 404 Not Found.
pub const NOT_FOUND: u16 = 404;

/// Whether a reply of the job claim endpoint carries a job: a 204 (no job
/// available) and a 404 (read the same way) carry none; any other reply is
/// read as a job payload.
pub fn poll_found_job(status: u16) -> (res: bool)
    ensures
        res == !(status == 204 || status == 404),
{
    !(status == NO_CONTENT || status == NOT_FOUND)
}

/// Whether a status is an error: a client error (4xx) or a server error
/// (5xx), as `reqwest::Response::error_for_status` decides.
pub fn status_is_error(status: u16) -> (res: bool)
    ensures
        res == (400 <= status && status < 600),
{
    400 <= status && status < 600
}

/// Where a job's input is downloaded from: its `input_url`, parsed.
pub fn download_url(job: &Job) -> (res: Result<String, url::ParseError>)
    ensures
        res is Ok <==> parsed_url(job.input_url@) is Some,
        res matches Ok(u) ==> u@ == parsed_url(job.input_url@)->0,
{
    url_parse(job.input_url.as_str())
}

/// Where a job's output is uploaded to: its `output_url`, parsed.
pub fn upload_url(job: &Job) -> (res: Result<String, url::ParseError>)
    ensures
        res is Ok <==> parsed_url(job.output_url@) is Some,
        res matches Ok(u) ==> u@ == parsed_url(job.output_url@)->0,
{
    url_parse(job.output_url.as_str())
}

/// What removing a job's work directory came to.
#[derive(Debug, Clone, PartialEq, Eq)]
pub enum Removal {
    Removed,
    /// The directory was not there.
    NotFound,
    /// Removal failed, with this error text.
    Failed(String),
}

/// How a cleanup went: a directory that is gone, or was never there, is
/// cleaned up; any other failure is a failure.
pub fn cleanup_outcome(removal: Removal) -> (res: StepOutcome)
    ensures
        match removal {
            Removal::Failed(e) => res == StepOutcome::Failed(e),
            _ => res == StepOutcome::Succeeded,
        },
{
    match removal {
        Removal::Removed => StepOutcome::Succeeded,
        Removal::NotFound => StepOutcome::Succeeded,
        Removal::Failed(e) => StepOutcome::Failed(e),
    }
}

} // verus!
