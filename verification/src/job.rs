//! The job payload that the server hands out, and the callback bodies that
//! the worker sends back.

use vstd::prelude::*;
use vstd::string::StringExecFns;

use crate::text::{join_seqs, join_strings};

verus! {

/// The job claim response: either the job itself, or the job wrapped in an
/// object under the key `job`.
#[derive(Debug, Clone, PartialEq, Eq)]
pub enum JobResponse {
    Direct(Job),
    Wrapped { job: Job },
}

/// One transcoding job.
#[derive(Debug, Clone, PartialEq, Eq)]
pub struct Job {
    /// Job identifier; also the name of the job's local work directory.
    pub id: String,
    pub input_url: String,
    pub transcode: Option<TranscodeSpec>,
    pub output_url: String,
}

/// The transcoding instructions of a job.
#[derive(Debug, Clone, PartialEq, Eq)]
pub struct TranscodeSpec {
    pub quality: Option<String>,
    pub video_codec: Option<String>,
    pub audio_codec: Option<String>,
    pub bitrate: Option<u64>,
}

/// Body of the completion callback.
#[derive(Debug, Clone, Copy, PartialEq, Eq)]
pub struct JobCompleteRequest<'a> {
    pub hostname: &'a str,
    pub job_id: &'a str,
}

/// Body of the failure callback.
#[derive(Debug, Clone, Copy, PartialEq, Eq)]
pub struct JobFailedRequest<'a> {
    pub job_id: &'a str,
    pub error: &'a str,
}

/// The summary line used when a job carries no transcode instructions.
pub open spec fn no_spec_text() -> Seq<char> {
    "no transcode spec"@
}

/// One `label=value` part for a present value, none for an absent one.
pub open spec fn labelled(label: Seq<char>, value: Option<String>) -> Seq<Seq<char>> {
    match value {
        Some(v) => seq![label + v@],
        None => Seq::empty(),
    }
}

impl JobResponse {
    /// The job that the response carries.
    pub open spec fn job_of(self) -> Job {
        match self {
            JobResponse::Direct(job) => job,
            JobResponse::Wrapped { job } => job,
        }
    }

    /// The job, whichever shape the response had.
    pub fn into_job(self) -> (job: Job)
        ensures
            job == self.job_of(),
    {
        match self {
            Self::Direct(job) => job,
            Self::Wrapped { job } => job,
        }
    }
}

impl TranscodeSpec {
    /// The `label=value` parts of the present fields, in the order quality,
    /// video codec, audio codec.
    pub open spec fn summary_parts(self) -> Seq<Seq<char>> {
        labelled("quality="@, self.quality) + labelled("video_codec="@, self.video_codec)
            + labelled("audio_codec="@, self.audio_codec)
    }

    /// The parts joined with `, `, or the no-spec text when there are none.
    pub open spec fn summary_text(self) -> Seq<char> {
        if self.summary_parts().len() == 0 {
            no_spec_text()
        } else {
            join_seqs(self.summary_parts(), ", "@)
        }
    }

    /// A one-line description of the instructions, for the log.
    pub fn summary(&self) -> (res: String)
        ensures
            res@ == self.summary_text(),
    {
        let mut parts: Vec<String> = Vec::new();
        if let Some(value) = &self.quality {
            let mut part = String::from_str("quality=");
            part.append(value.as_str());
            parts.push(part);
        }
        assert(parts@.map_values(|p: String| p@) =~= labelled("quality="@, self.quality));
        if let Some(value) = &self.video_codec {
            let mut part = String::from_str("video_codec=");
            part.append(value.as_str());
            parts.push(part);
        }
        assert(parts@.map_values(|p: String| p@) =~= labelled("quality="@, self.quality)
            + labelled("video_codec="@, self.video_codec));
        if let Some(value) = &self.audio_codec {
            let mut part = String::from_str("audio_codec=");
            part.append(value.as_str());
            parts.push(part);
        }
        assert(parts@.map_values(|p: String| p@) =~= self.summary_parts());
        if parts.len() == 0 {
            String::from_str("no transcode spec")
        } else {
            join_strings(&parts, ", ")
        }
    }
}

impl Job {
    /// The log description of the job's instructions.
    pub open spec fn transcode_text(self) -> Seq<char> {
        match self.transcode {
            Some(spec) => spec.summary_text(),
            None => no_spec_text(),
        }
    }

    /// The summary of the job's instructions, or the no-spec text when the
    /// job has none.
    pub fn transcode_summary(&self) -> (res: String)
        ensures
            res@ == self.transcode_text(),
    {
        match &self.transcode {
            Some(spec) => spec.summary(),
            None => String::from_str("no transcode spec"),
        }
    }

    /// The body of the completion callback for this job.
    pub fn complete_request<'a>(&'a self, hostname: &'a str) -> (req: JobCompleteRequest<'a>)
        ensures
            req.job_id@ == self.id@,
            req.hostname@ == hostname@,
    {
        JobCompleteRequest { hostname, job_id: self.id.as_str() }
    }

    /// The body of the failure callback for this job.
    pub fn failed_request<'a>(&'a self, error: &'a str) -> (req: JobFailedRequest<'a>)
        ensures
            req.job_id@ == self.id@,
            req.error@ == error@,
    {
        JobFailedRequest { job_id: self.id.as_str(), error }
    }
}

/// A job without instructions is described exactly like instructions with
/// no field set.
pub proof fn lemma_missing_spec_reads_as_empty_spec(job: Job)
    requires
        job.transcode is None,
    ensures
        job.transcode_text() == (TranscodeSpec {
            quality: None,
            video_codec: None,
            audio_codec: None,
            bitrate: None,
        }).summary_text(),
{
    let empty = TranscodeSpec { quality: None, video_codec: None, audio_codec: None, bitrate: None };
    assert(empty.summary_parts() =~= Seq::<Seq<char>>::empty());
}

/// The summary lists exactly the present fields among quality, video codec
/// and audio codec; the bitrate never appears in it.
pub proof fn lemma_summary_ignores_bitrate(spec: TranscodeSpec, bitrate: Option<u64>)
    ensures
        (TranscodeSpec { bitrate, ..spec }).summary_text() == spec.summary_text(),
{
}

} // verus!
