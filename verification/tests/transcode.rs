use media_manager_client::job::{Job, TranscodeSpec};
use media_manager_client::transcode::{
    audio_codec_choice, audio_encoder, av1_encoder_candidates, encoder_probe_args,
    ffmpeg_transcode_args, is_supported_video_encoder, next_av1_probe, video_codec_choice,
    Av1Probe, CodecChoice,
};

fn job_with(video: Option<&str>, audio: Option<&str>) -> Job {
    Job {
        id: "1".to_string(),
        input_url: "http://h/in".to_string(),
        transcode: Some(TranscodeSpec {
            quality: None,
            video_codec: video.map(|s| s.to_string()),
            audio_codec: audio.map(|s| s.to_string()),
            bitrate: None,
        }),
        output_url: "http://h/out".to_string(),
    }
}

#[test]
fn candidates_in_preference_order() {
    assert_eq!(
        av1_encoder_candidates(),
        vec!["av1_nvenc", "av1_qsv", "av1_vaapi", "libsvtav1", "librav1e"]
    );
}

#[test]
fn probe_args_for_encoder() {
    assert_eq!(
        encoder_probe_args("libsvtav1"),
        vec!["-f", "lavfi", "-i", "nullsrc=s=256x256:r=1", "-frames:v", "1", "-c:v", "libsvtav1", "-f", "null", "-"]
    );
}

#[test]
fn av1_search_probes_in_order_and_stops_at_first_success() {
    assert_eq!(next_av1_probe(&vec![]), Av1Probe::Probe("av1_nvenc".to_string()));
    assert_eq!(next_av1_probe(&vec![false]), Av1Probe::Probe("av1_qsv".to_string()));
    assert_eq!(next_av1_probe(&vec![false, false, false]), Av1Probe::Probe("libsvtav1".to_string()));
    assert_eq!(next_av1_probe(&vec![false, true]), Av1Probe::Use("av1_qsv".to_string()));
    assert_eq!(next_av1_probe(&vec![true]), Av1Probe::Use("av1_nvenc".to_string()));
    assert_eq!(next_av1_probe(&vec![false; 5]), Av1Probe::Use("librav1e".to_string()));
    assert_eq!(next_av1_probe(&vec![false, false, false, false, true]), Av1Probe::Use("librav1e".to_string()));
}

#[test]
fn supported_encoders() {
    for e in ["av1_nvenc", "av1_qsv", "av1_vaapi", "libsvtav1", "librav1e"] {
        assert!(is_supported_video_encoder(e));
    }
    assert!(!is_supported_video_encoder("libx264"));
    assert!(!is_supported_video_encoder("av1"));
}

#[test]
fn codec_choices() {
    assert_eq!(video_codec_choice(&job_with(Some("av1"), None)), CodecChoice::Default);
    assert_eq!(video_codec_choice(&job_with(None, None)), CodecChoice::Default);
    assert_eq!(video_codec_choice(&job_with(Some("libsvtav1"), None)), CodecChoice::Given("libsvtav1".to_string()));
    let mut no_spec = job_with(None, None);
    no_spec.transcode = None;
    assert_eq!(video_codec_choice(&no_spec), CodecChoice::Default);
    assert_eq!(audio_codec_choice(&no_spec), CodecChoice::Default);
    assert_eq!(audio_codec_choice(&job_with(None, Some("opus"))), CodecChoice::Default);
    assert_eq!(audio_codec_choice(&job_with(None, Some("aac"))), CodecChoice::Given("aac".to_string()));
    assert_eq!(audio_encoder(&CodecChoice::Default), "libopus");
    assert_eq!(audio_encoder(&CodecChoice::Given("aac".to_string())), "aac");
}

#[test]
fn transcode_args_for_svtav1() {
    assert_eq!(
        ffmpeg_transcode_args("/w/1/in.mkv", "libsvtav1", "libopus", "/w/1/out.mkv"),
        vec![
            "-y", "-i", "/w/1/in.mkv", "-c:v", "libsvtav1", "-v", "quiet",
            "-preset", "4", "-crf", "20", "-svtav1-params", "tune=0:enable-overlays=1", "-pix_fmt", "yuv420p10le",
            "-c:a", "libopus", "-b:a", "512k", "-ac", "6", "-mapping_family", "1", "/w/1/out.mkv",
        ]
    );
}

#[test]
fn transcode_args_per_encoder() {
    let extra = |e: &str| {
        let args = ffmpeg_transcode_args("in", e, "a", "out");
        args[7..args.len() - 9].to_vec()
    };
    assert_eq!(extra("librav1e"), vec!["-speed", "3", "-qp", "60", "-tiles", "9", "-pix_fmt", "yuv420p10le"]);
    assert_eq!(
        extra("av1_nvenc"),
        vec!["-preset", "p7", "-tune", "hq", "-rc", "constqp", "-qp", "18", "-b:v", "0", "-pix_fmt", "p010le"]
    );
    assert_eq!(
        extra("av1_vaapi"),
        vec!["-rc_mode", "CQP", "-qp", "18", "-compression_level:v", "1", "-pix_fmt", "yuv420p10le"]
    );
    assert_eq!(
        extra("av1_qsv"),
        vec!["-preset", "veryslow", "-global_quality:v", "20", "-look_ahead:v", "1", "-pix_fmt", "yuv420p10le"]
    );
}

#[test]
fn args_ignore_quality_and_bitrate() {
    let mut a = job_with(Some("libsvtav1"), Some("aac"));
    let mut b = a.clone();
    a.transcode.as_mut().unwrap().quality = Some("HIGH".to_string());
    b.transcode.as_mut().unwrap().bitrate = Some(900);
    let args = |j: &Job| {
        let video = match video_codec_choice(j) {
            CodecChoice::Given(n) => n,
            CodecChoice::Default => "librav1e".to_string(),
        };
        ffmpeg_transcode_args("in", &video, &audio_encoder(&audio_codec_choice(j)), "out")
    };
    assert_eq!(args(&a), args(&b));
}
