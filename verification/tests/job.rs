use media_manager_client::job::{Job, JobResponse, TranscodeSpec};

fn spec(quality: Option<&str>, video: Option<&str>, audio: Option<&str>) -> TranscodeSpec {
    TranscodeSpec {
        quality: quality.map(|s| s.to_string()),
        video_codec: video.map(|s| s.to_string()),
        audio_codec: audio.map(|s| s.to_string()),
        bitrate: None,
    }
}

fn job(transcode: Option<TranscodeSpec>) -> Job {
    Job {
        id: "123".to_string(),
        input_url: "http://localhost:8000/api/media/jobs/job-123/input".to_string(),
        transcode,
        output_url: "http://localhost:8000/api/worker/jobs/job-123/output".to_string(),
    }
}

#[test]
fn summary_lists_all_present_fields_in_order() {
    let s = spec(Some("HIGH"), Some("av1"), Some("opus"));
    assert_eq!(s.summary(), "quality=HIGH, video_codec=av1, audio_codec=opus");
}

#[test]
fn summary_skips_absent_fields() {
    assert_eq!(spec(None, Some("av1"), None).summary(), "video_codec=av1");
    assert_eq!(spec(Some("LOW"), None, Some("aac")).summary(), "quality=LOW, audio_codec=aac");
}

#[test]
fn summary_of_empty_spec() {
    assert_eq!(spec(None, None, None).summary(), "no transcode spec");
}

#[test]
fn summary_ignores_bitrate() {
    let mut s = spec(Some("HIGH"), None, None);
    s.bitrate = Some(5000);
    assert_eq!(s.summary(), "quality=HIGH");
}

#[test]
fn summary_keeps_empty_values() {
    assert_eq!(spec(Some(""), None, None).summary(), "quality=");
}

#[test]
fn into_job_direct_and_wrapped() {
    let j = job(None);
    assert_eq!(JobResponse::Direct(j.clone()).into_job(), j);
    assert_eq!(JobResponse::Wrapped { job: j.clone() }.into_job(), j);
}

#[test]
fn transcode_summary_without_spec_matches_empty_spec() {
    let j = job(None);
    assert_eq!(j.transcode_summary(), "no transcode spec");
    assert_eq!(j.transcode_summary(), spec(None, None, None).summary());
    let j = job(Some(spec(None, None, Some("opus"))));
    assert_eq!(j.transcode_summary(), "audio_codec=opus");
}

#[test]
fn callback_bodies() {
    let j = job(None);
    let c = j.complete_request("host-a");
    assert_eq!(c.job_id, "123");
    assert_eq!(c.hostname, "host-a");
    let f = j.failed_request("boom");
    assert_eq!(f.job_id, "123");
    assert_eq!(f.error, "boom");
}
