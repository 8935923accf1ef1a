//! The steps of processing one job: download, transcode, upload, report
//! completion; on a failure, report it and clean the job's files up.

use vstd::prelude::*;
use vstd::string::StringExecFns;

use crate::job::Job;

verus! {

/// The step that is due next for a job.
#[derive(Debug, Clone, PartialEq, Eq)]
pub enum JobStep {
    /// Download the input file.
    Download,
    /// Run ffmpeg on it.
    Transcode,
    /// Upload the output file.
    Upload,
    /// Tell the server that the job is complete.
    ReportComplete,
    /// Tell the server that the job failed, with this error text.
    ReportFailed(String),
    /// Remove the job's local files.
    Cleanup,
    /// Nothing is left to do.
    Done,
}

/// How the last step went; a failure carries the text of its error.
#[derive(Debug, Clone, PartialEq, Eq)]
pub enum StepOutcome {
    Succeeded,
    Failed(String),
}

pub enum JobStepView {
    Download,
    Transcode,
    Upload,
    ReportComplete,
    ReportFailed(Seq<char>),
    Cleanup,
    Done,
}

pub enum OutcomeView {
    Succeeded,
    Failed(Seq<char>),
}

impl View for JobStep {
    type V = JobStepView;

    open spec fn view(&self) -> JobStepView {
        match self {
            JobStep::Download => JobStepView::Download,
            JobStep::Transcode => JobStepView::Transcode,
            JobStep::Upload => JobStepView::Upload,
            JobStep::ReportComplete => JobStepView::ReportComplete,
            JobStep::ReportFailed(e) => JobStepView::ReportFailed(e@),
            JobStep::Cleanup => JobStepView::Cleanup,
            JobStep::Done => JobStepView::Done,
        }
    }
}

impl View for StepOutcome {
    type V = OutcomeView;

    open spec fn view(&self) -> OutcomeView {
        match self {
            StepOutcome::Succeeded => OutcomeView::Succeeded,
            StepOutcome::Failed(e) => OutcomeView::Failed(e@),
        }
    }
}

/// The error reported when a job's input could not be downloaded.
pub open spec fn download_failure_text(id: Seq<char>, input_url: Seq<char>) -> Seq<char> {
    "Failed to download job "@ + id + " from "@ + input_url
}

/// The error reported when a job could not be transcoded.
pub open spec fn transcode_failure_text(id: Seq<char>, input_url: Seq<char>) -> Seq<char> {
    "Failed to transcode job "@ + id + " from "@ + input_url + " "@
}

/// The step after `step`, given how it went, for the job with this id and
/// input URL.  A failed download or transcode is reported with its own text;
/// a failed upload or completion callback with the error's text.  A failure
/// report that went through is followed by the cleanup; one that failed ends
/// the job.
pub open spec fn next_step(
    id: Seq<char>,
    input_url: Seq<char>,
    step: JobStepView,
    outcome: OutcomeView,
) -> JobStepView {
    match step {
        JobStepView::Download => match outcome {
            OutcomeView::Succeeded => JobStepView::Transcode,
            OutcomeView::Failed(_) => JobStepView::ReportFailed(
                download_failure_text(id, input_url),
            ),
        },
        JobStepView::Transcode => match outcome {
            OutcomeView::Succeeded => JobStepView::Upload,
            OutcomeView::Failed(_) => JobStepView::ReportFailed(
                transcode_failure_text(id, input_url),
            ),
        },
        JobStepView::Upload => match outcome {
            OutcomeView::Succeeded => JobStepView::ReportComplete,
            OutcomeView::Failed(e) => JobStepView::ReportFailed(e),
        },
        JobStepView::ReportComplete => match outcome {
            OutcomeView::Succeeded => JobStepView::Done,
            OutcomeView::Failed(e) => JobStepView::ReportFailed(e),
        },
        JobStepView::ReportFailed(_) => match outcome {
            OutcomeView::Succeeded => JobStepView::Cleanup,
            OutcomeView::Failed(_) => JobStepView::Done,
        },
        JobStepView::Cleanup => JobStepView::Done,
        JobStepView::Done => JobStepView::Done,
    }
}

fn failure_message(prefix: &str, id: &str, input_url: &str) -> (res: String)
    ensures
        res@ == prefix@ + id@ + " from "@ + input_url@,
{
    let mut text = String::from_str(prefix);
    text.append(id);
    text.append(" from ");
    text.append(input_url);
    text
}

impl JobStep {
    /// The first step of every job.
    pub fn first() -> (res: JobStep)
        ensures
            res@ == JobStepView::Download,
    {
        JobStep::Download
    }

    /// Whether the job is finished.
    pub fn is_done(&self) -> (res: bool)
        ensures
            res == (self@ is Done),
    {
        match self {
            JobStep::Done => true,
            _ => false,
        }
    }

    /// The step that follows this one for `job`, given how this one went.
    pub fn next(self, job: &Job, outcome: StepOutcome) -> (res: JobStep)
        ensures
            res@ == next_step(job.id@, job.input_url@, self@, outcome@),
    {
        match self {
            JobStep::Download => match outcome {
                StepOutcome::Succeeded => JobStep::Transcode,
                StepOutcome::Failed(_) => JobStep::ReportFailed(
                    failure_message("Failed to download job ", job.id.as_str(), job.input_url.as_str()),
                ),
            },
            JobStep::Transcode => match outcome {
                StepOutcome::Succeeded => JobStep::Upload,
                StepOutcome::Failed(_) => {
                    let mut text = failure_message(
                        "Failed to transcode job ",
                        job.id.as_str(),
                        job.input_url.as_str(),
                    );
                    text.append(" ");
                    JobStep::ReportFailed(text)
                },
            },
            JobStep::Upload => match outcome {
                StepOutcome::Succeeded => JobStep::ReportComplete,
                StepOutcome::Failed(e) => JobStep::ReportFailed(e),
            },
            JobStep::ReportComplete => match outcome {
                StepOutcome::Succeeded => JobStep::Done,
                StepOutcome::Failed(e) => JobStep::ReportFailed(e),
            },
            JobStep::ReportFailed(_) => match outcome {
                StepOutcome::Succeeded => JobStep::Cleanup,
                StepOutcome::Failed(_) => JobStep::Done,
            },
            JobStep::Cleanup => JobStep::Done,
            JobStep::Done => JobStep::Done,
        }
    }
}

/// The step reached from `step` after the given outcomes, one per step.
pub open spec fn run_steps(
    id: Seq<char>,
    input_url: Seq<char>,
    step: JobStepView,
    outcomes: Seq<OutcomeView>,
) -> JobStepView
    decreases outcomes.len(),
{
    if outcomes.len() == 0 {
        step
    } else {
        run_steps(id, input_url, next_step(id, input_url, step, outcomes[0]), outcomes.drop_first())
    }
}

/// How many steps are left at most.
pub open spec fn steps_left(step: JobStepView) -> nat {
    match step {
        JobStepView::Download => 6,
        JobStepView::Transcode => 5,
        JobStepView::Upload => 4,
        JobStepView::ReportComplete => 3,
        JobStepView::ReportFailed(_) => 2,
        JobStepView::Cleanup => 1,
        JobStepView::Done => 0,
    }
}

/// Every step that is not the end brings the end nearer, whatever its
/// outcome; the end stays the end.
pub proof fn lemma_step_progress(
    id: Seq<char>,
    input_url: Seq<char>,
    step: JobStepView,
    outcome: OutcomeView,
)
    ensures
        step is Done ==> next_step(id, input_url, step, outcome) is Done,
        !(step is Done) ==> steps_left(next_step(id, input_url, step, outcome)) < steps_left(step),
{
}

/// Every job is finished after at most six steps, whatever their outcomes.
pub proof fn lemma_job_finishes(
    id: Seq<char>,
    input_url: Seq<char>,
    step: JobStepView,
    outcomes: Seq<OutcomeView>,
)
    requires
        outcomes.len() >= steps_left(step),
    ensures
        run_steps(id, input_url, step, outcomes) is Done,
    decreases outcomes.len(),
{
    if outcomes.len() > 0 {
        lemma_step_progress(id, input_url, step, outcomes[0]);
        lemma_job_finishes(
            id,
            input_url,
            next_step(id, input_url, step, outcomes[0]),
            outcomes.drop_first(),
        );
    }
}

/// When every step succeeds, the job goes download, transcode, upload,
/// completion report, and is finished, without a failure report or a
/// cleanup.
pub proof fn lemma_success_path(id: Seq<char>, input_url: Seq<char>)
    ensures
        next_step(id, input_url, JobStepView::Download, OutcomeView::Succeeded)
            == JobStepView::Transcode,
        next_step(id, input_url, JobStepView::Transcode, OutcomeView::Succeeded)
            == JobStepView::Upload,
        next_step(id, input_url, JobStepView::Upload, OutcomeView::Succeeded)
            == JobStepView::ReportComplete,
        next_step(id, input_url, JobStepView::ReportComplete, OutcomeView::Succeeded)
            == JobStepView::Done,
        run_steps(
            id,
            input_url,
            JobStepView::Download,
            seq![
                OutcomeView::Succeeded,
                OutcomeView::Succeeded,
                OutcomeView::Succeeded,
                OutcomeView::Succeeded,
            ],
        ) == JobStepView::Done,
{
    let s = seq![
        OutcomeView::Succeeded,
        OutcomeView::Succeeded,
        OutcomeView::Succeeded,
        OutcomeView::Succeeded,
    ];
    assert(s.drop_first().drop_first().drop_first().drop_first() =~= Seq::<OutcomeView>::empty());
    reveal_with_fuel(run_steps, 5);
}

/// A failure of any work step or of the completion report is always
/// followed by a failure report (never by the end or another work step), and
/// the cleanup only ever follows a failure report that went through.
pub proof fn lemma_failures_are_reported(
    id: Seq<char>,
    input_url: Seq<char>,
    step: JobStepView,
    error: Seq<char>,
    outcome: OutcomeView,
)
    ensures
        (step is Download || step is Transcode || step is Upload || step is ReportComplete)
            ==> next_step(id, input_url, step, OutcomeView::Failed(error)) is ReportFailed,
        next_step(id, input_url, step, outcome) is Cleanup ==> step is ReportFailed
            && outcome is Succeeded,
{
}

/// A failure report that goes through is always followed by the cleanup of
/// the job's files, whatever the error it reported; so every failed work step
/// or completion report whose failure is then reported gets cleaned up, and
/// the cleanup ends the job.
pub proof fn lemma_reported_failures_are_cleaned_up(
    id: Seq<char>,
    input_url: Seq<char>,
    step: JobStepView,
    error: Seq<char>,
    outcome: OutcomeView,
)
    ensures
        next_step(id, input_url, JobStepView::ReportFailed(error), OutcomeView::Succeeded)
            == JobStepView::Cleanup,
        (step is Download || step is Transcode || step is Upload || step is ReportComplete)
            ==> next_step(
            id,
            input_url,
            next_step(id, input_url, step, OutcomeView::Failed(error)),
            OutcomeView::Succeeded,
        ) == JobStepView::Cleanup,
        next_step(id, input_url, JobStepView::Cleanup, outcome) == JobStepView::Done,
{
}

} // verus!
