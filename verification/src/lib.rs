//! Worker-side logic of the media manager client: the job model, the
//! configuration and its endpoint URLs, the ffmpeg command lines, and the
//! decisions of the polling and job-processing loops.

pub mod text;
pub mod job;
pub mod urls;
pub mod config;
pub mod transcode;
pub mod backoff;
pub mod pipeline;
pub mod client;
pub mod paths;
