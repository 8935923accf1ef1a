//! Encoder selection and the ffmpeg command lines.

use vstd::prelude::*;
use vstd::string::StringExecFns;

use crate::job::Job;

verus! {

/// The views of a sequence of strings.
pub open spec fn texts(v: Seq<String>) -> Seq<Seq<char>> {
    v.map_values(|s: String| s@)
}

fn push_text(v: &mut Vec<String>, s: &str)
    ensures
        texts(final(v)@) == texts(old(v)@).push(s@),
{
    v.push(String::from_str(s));
    assert(texts(v@) =~= texts(old(v)@).push(s@));
}

fn push_all(v: &mut Vec<String>, items: &[&str])
    ensures
        texts(final(v)@) == texts(old(v)@) + items@.map_values(|s: &str| s@),
{
    let ghost start = texts(v@);
    let mut i: usize = 0;
    while i < items.len()
        invariant
            i <= items@.len(),
            start == texts(old(v)@),
            texts(v@) == start + items@.take(i as int).map_values(|s: &str| s@),
        decreases items@.len() - i,
    {
        push_text(v, items[i]);
        assert(items@.take(i + 1).map_values(|s: &str| s@) =~= items@.take(i as int).map_values(
            |s: &str| s@,
        ).push(items@[i as int]@));
        i = i + 1;
    }
    assert(items@.take(i as int) =~= items@);
}

/// The AV1 encoders, most preferred first.
pub open spec fn av1_candidates() -> Seq<Seq<char>> {
    seq!["av1_nvenc"@, "av1_qsv"@, "av1_vaapi"@, "libsvtav1"@, "librav1e"@]
}

/// The encoder used when no candidate works.
pub open spec fn fallback_av1_encoder() -> Seq<char> {
    "librav1e"@
}

/// The AV1 encoders, most preferred first.
pub fn av1_encoder_candidates() -> (res: Vec<String>)
    ensures
        texts(res@) == av1_candidates(),
{
    let mut v: Vec<String> = Vec::new();
    push_all(&mut v, &["av1_nvenc", "av1_qsv", "av1_vaapi", "libsvtav1", "librav1e"]);
    assert(texts(v@) =~= av1_candidates());
    v
}

/// The ffmpeg arguments that test whether `encoder` works: encode one frame
/// of a virtual input with it and throw the output away.
pub open spec fn probe_args(encoder: Seq<char>) -> Seq<Seq<char>> {
    seq![
        "-f"@,
        "lavfi"@,
        "-i"@,
        "nullsrc=s=256x256:r=1"@,
        "-frames:v"@,
        "1"@,
        "-c:v"@,
        encoder,
        "-f"@,
        "null"@,
        "-"@,
    ]
}

/// The ffmpeg arguments that test whether `encoder` works.
pub fn encoder_probe_args(encoder: &str) -> (res: Vec<String>)
    ensures
        texts(res@) == probe_args(encoder@),
{
    let mut v: Vec<String> = Vec::new();
    push_all(&mut v, &["-f", "lavfi", "-i", "nullsrc=s=256x256:r=1", "-frames:v", "1", "-c:v"]);
    push_text(&mut v, encoder);
    push_all(&mut v, &["-f", "null", "-"]);
    assert(texts(v@) =~= probe_args(encoder@));
    v
}

/// The next move in the search for a working AV1 encoder: probe a
/// candidate, or settle on an encoder.
#[derive(Debug, Clone, PartialEq, Eq)]
pub enum Av1Probe {
    Probe(String),
    Use(String),
}

/// The search from candidate `i` on, given the outcomes of the probes made so
/// far (`results[j]` for candidate `j`): the first candidate that worked is
/// used; an untried candidate is probed next; with every candidate failed the
/// fallback is used.  The boolean is true for "use".
pub open spec fn av1_plan_from(results: Seq<bool>, i: nat) -> (bool, Seq<char>)
    decreases 5 - i,
{
    if i >= 5 {
        (true, fallback_av1_encoder())
    } else if i >= results.len() {
        (false, av1_candidates()[i as int])
    } else if results[i as int] {
        (true, av1_candidates()[i as int])
    } else {
        av1_plan_from(results, i + 1)
    }
}

/// The whole search, from the most preferred candidate.
pub open spec fn av1_plan(results: Seq<bool>) -> (bool, Seq<char>) {
    av1_plan_from(results, 0)
}

proof fn lemma_av1_plan_from_facts(results: Seq<bool>, i: nat)
    requires
        i <= 5,
        i <= results.len(),
    ensures
        av1_candidates().contains(av1_plan_from(results, i).1),
        !av1_plan_from(results, i).0 ==> results.len() < 5 && av1_plan_from(results, i).1
            == av1_candidates()[results.len() as int],
        results.len() >= 5 ==> av1_plan_from(results, i).0,
    decreases 5 - i,
{
    if i >= 5 {
        assert(av1_candidates()[4] == fallback_av1_encoder());
    } else if i < results.len() && !results[i as int] {
        lemma_av1_plan_from_facts(results, i + 1);
    } else {
        assert(av1_candidates().contains(av1_candidates()[i as int]));
    }
}

/// The search never settles outside the candidates, probes the candidates in
/// order (each one once, the probe results given in that order), and settles
/// at the latest once all five were probed.
pub proof fn lemma_av1_search_bounded(results: Seq<bool>)
    ensures
        av1_candidates().contains(av1_plan(results).1),
        !av1_plan(results).0 ==> results.len() < 5 && av1_plan(results).1
            == av1_candidates()[results.len() as int],
        results.len() >= 5 ==> av1_plan(results).0,
{
    lemma_av1_plan_from_facts(results, 0);
}

/// The next move of the search for the best working AV1 encoder, given the
/// outcomes of the probes made so far, in candidate order.
pub fn next_av1_probe(results: &Vec<bool>) -> (res: Av1Probe)
    ensures
        match res {
            Av1Probe::Probe(name) => !av1_plan(results@).0 && name@ == av1_plan(results@).1,
            Av1Probe::Use(name) => av1_plan(results@).0 && name@ == av1_plan(results@).1,
        },
{
    let candidates = av1_encoder_candidates();
    assert(candidates@.len() == texts(candidates@).len());
    let mut i: usize = 0;
    while i < 5
        invariant
            i <= 5,
            candidates@.len() == 5,
            texts(candidates@) == av1_candidates(),
            av1_plan_from(results@, i as nat) == av1_plan(results@),
        decreases 5 - i,
    {
        assert(candidates@[i as int]@ == texts(candidates@)[i as int]);
        if i >= results.len() {
            return Av1Probe::Probe(candidates[i].clone());
        }
        if results[i] {
            return Av1Probe::Use(candidates[i].clone());
        }
        i = i + 1;
    }
    Av1Probe::Use(String::from_str("librav1e"))
}

/// Whether ffmpeg arguments are known for the video encoder `name`.
pub fn is_supported_video_encoder(name: &str) -> (res: bool)
    ensures
        res == av1_candidates().contains(name@),
{
    let candidates = av1_encoder_candidates();
    let given = String::from_str(name);
    let mut i: usize = 0;
    while i < candidates.len()
        invariant
            i <= candidates.len(),
            texts(candidates@) == av1_candidates(),
            given@ == name@,
            forall|j: int| 0 <= j < i ==> av1_candidates()[j] != name@,
        decreases candidates.len() - i,
    {
        assert(candidates@[i as int]@ == av1_candidates()[i as int]);
        if candidates[i] == given {
            assert(av1_candidates()[i as int] == name@);
            return true;
        }
        i = i + 1;
    }
    false
}

/// How a codec was chosen: by default, or given by the job.
#[derive(Debug, Clone, PartialEq, Eq)]
pub enum CodecChoice {
    Default,
    Given(String),
}

/// The video codec choice of a job: absent or `av1` means the default (the
/// best working AV1 encoder); anything else is used as the encoder name.
pub open spec fn video_choice(job: Job) -> Option<Seq<char>> {
    match job.transcode {
        Some(spec) => match spec.video_codec {
            Some(codec) => if codec@ == "av1"@ {
                None
            } else {
                Some(codec@)
            },
            None => None,
        },
        None => None,
    }
}

/// The audio codec choice of a job: absent or `opus` means the default
/// (`libopus`); anything else is used as the encoder name.
pub open spec fn audio_choice(job: Job) -> Option<Seq<char>> {
    match job.transcode {
        Some(spec) => match spec.audio_codec {
            Some(codec) => if codec@ == "opus"@ {
                None
            } else {
                Some(codec@)
            },
            None => None,
        },
        None => None,
    }
}

/// The choice as an optional given name.
pub open spec fn choice_text(choice: CodecChoice) -> Option<Seq<char>> {
    match choice {
        CodecChoice::Default => None,
        CodecChoice::Given(name) => Some(name@),
    }
}

fn choose_codec(codec: &Option<String>, default_name: &str) -> (res: CodecChoice)
    ensures
        choice_text(res) == match codec {
            Some(c) => if c@ == default_name@ {
                None
            } else {
                Some(c@)
            },
            None => None,
        },
{
    match codec {
        Some(c) => {
            if *c == String::from_str(default_name) {
                CodecChoice::Default
            } else {
                CodecChoice::Given(c.clone())
            }
        },
        None => CodecChoice::Default,
    }
}

/// How the job's video encoder is chosen.
pub fn video_codec_choice(job: &Job) -> (res: CodecChoice)
    ensures
        choice_text(res) == video_choice(*job),
{
    match &job.transcode {
        Some(spec) => choose_codec(&spec.video_codec, "av1"),
        None => CodecChoice::Default,
    }
}

/// How the job's audio encoder is chosen.
pub fn audio_codec_choice(job: &Job) -> (res: CodecChoice)
    ensures
        choice_text(res) == audio_choice(*job),
{
    match &job.transcode {
        Some(spec) => choose_codec(&spec.audio_codec, "opus"),
        None => CodecChoice::Default,
    }
}

/// The audio encoder of a choice: `libopus` by default.
pub open spec fn audio_encoder_text(choice: Option<Seq<char>>) -> Seq<char> {
    match choice {
        Some(name) => name,
        None => "libopus"@,
    }
}

/// The audio encoder that a choice stands for.
pub fn audio_encoder(choice: &CodecChoice) -> (res: String)
    ensures
        res@ == audio_encoder_text(choice_text(*choice)),
{
    match choice {
        CodecChoice::Default => String::from_str("libopus"),
        CodecChoice::Given(name) => name.clone(),
    }
}

/// The encoder-specific ffmpeg arguments of a supported video encoder.
pub open spec fn encoder_args(encoder: Seq<char>) -> Seq<Seq<char>> {
    if encoder == "libsvtav1"@ {
        seq![
            "-preset"@,
            "4"@,
            "-crf"@,
            "20"@,
            "-svtav1-params"@,
            "tune=0:enable-overlays=1"@,
            "-pix_fmt"@,
            "yuv420p10le"@,
        ]
    } else if encoder == "librav1e"@ {
        seq![
            "-speed"@,
            "3"@,
            "-qp"@,
            "60"@,
            "-tiles"@,
            "9"@,
            "-pix_fmt"@,
            "yuv420p10le"@,
        ]
    } else if encoder == "av1_nvenc"@ {
        seq![
            "-preset"@,
            "p7"@,
            "-tune"@,
            "hq"@,
            "-rc"@,
            "constqp"@,
            "-qp"@,
            "18"@,
            "-b:v"@,
            "0"@,
            "-pix_fmt"@,
            "p010le"@,
        ]
    } else if encoder == "av1_vaapi"@ {
        seq![
            "-rc_mode"@,
            "CQP"@,
            "-qp"@,
            "18"@,
            "-compression_level:v"@,
            "1"@,
            "-pix_fmt"@,
            "yuv420p10le"@,
        ]
    } else {
        seq![
            "-preset"@,
            "veryslow"@,
            "-global_quality:v"@,
            "20"@,
            "-look_ahead:v"@,
            "1"@,
            "-pix_fmt"@,
            "yuv420p10le"@,
        ]
    }
}

/// The ffmpeg arguments of a transcode: overwrite the output, read the
/// input, encode video with `video` (quietly, with its own settings), encode
/// audio with `audio` at 512k in six channels, and write `output`.
pub open spec fn transcode_args(
    input: Seq<char>,
    video: Seq<char>,
    audio: Seq<char>,
    output: Seq<char>,
) -> Seq<Seq<char>> {
    seq!["-y"@, "-i"@, input, "-c:v"@, video, "-v"@, "quiet"@] + encoder_args(video) + seq![
        "-c:a"@,
        audio,
        "-b:a"@,
        "512k"@,
        "-ac"@,
        "6"@,
        "-mapping_family"@,
        "1"@,
        output,
    ]
}

fn push_encoder_args(v: &mut Vec<String>, encoder: &str)
    requires
        av1_candidates().contains(encoder@),
    ensures
        texts(final(v)@) == texts(old(v)@) + encoder_args(encoder@),
{
    let e = String::from_str(encoder);
    if e == String::from_str("libsvtav1") {
        push_all(
            v,
            &[
                "-preset",
                "4",
                "-crf",
                "20",
                "-svtav1-params",
                "tune=0:enable-overlays=1",
                "-pix_fmt",
                "yuv420p10le",
            ],
        );
    } else if e == String::from_str("librav1e") {
        push_all(v, &["-speed", "3", "-qp", "60", "-tiles", "9", "-pix_fmt", "yuv420p10le"]);
    } else if e == String::from_str("av1_nvenc") {
        push_all(
            v,
            &[
                "-preset",
                "p7",
                "-tune",
                "hq",
                "-rc",
                "constqp",
                "-qp",
                "18",
                "-b:v",
                "0",
                "-pix_fmt",
                "p010le",
            ],
        );
    } else if e == String::from_str("av1_vaapi") {
        push_all(
            v,
            &["-rc_mode", "CQP", "-qp", "18", "-compression_level:v", "1", "-pix_fmt", "yuv420p10le"],
        );
    } else {
        push_all(
            v,
            &[
                "-preset",
                "veryslow",
                "-global_quality:v",
                "20",
                "-look_ahead:v",
                "1",
                "-pix_fmt",
                "yuv420p10le",
            ],
        );
    }
}

/// The ffmpeg arguments that transcode `input` into `output` with the given
/// encoders.  Only the candidate AV1 encoders have known settings.
pub fn ffmpeg_transcode_args(input: &str, video: &str, audio: &str, output: &str) -> (res: Vec<
    String,
>)
    requires
        av1_candidates().contains(video@),
    ensures
        texts(res@) == transcode_args(input@, video@, audio@, output@),
{
    let mut v: Vec<String> = Vec::new();
    push_all(&mut v, &["-y", "-i"]);
    push_text(&mut v, input);
    push_text(&mut v, "-c:v");
    push_text(&mut v, video);
    push_all(&mut v, &["-v", "quiet"]);
    push_encoder_args(&mut v, video);
    push_text(&mut v, "-c:a");
    push_text(&mut v, audio);
    push_all(&mut v, &["-b:a", "512k", "-ac", "6", "-mapping_family", "1"]);
    push_text(&mut v, output);
    assert(texts(v@) =~= transcode_args(input@, video@, audio@, output@));
    v
}

/// The video encoder that a choice stands for, given the best working AV1
/// encoder that the search found.
pub open spec fn video_encoder_text(choice: Option<Seq<char>>, best_av1: Seq<char>) -> Seq<char> {
    match choice {
        Some(name) => name,
        None => best_av1,
    }
}

/// The ffmpeg arguments that transcoding `job` from `input` into `output`
/// comes to, given the best working AV1 encoder.
pub open spec fn job_transcode_args(
    job: Job,
    best_av1: Seq<char>,
    input: Seq<char>,
    output: Seq<char>,
) -> Seq<Seq<char>> {
    transcode_args(
        input,
        video_encoder_text(video_choice(job), best_av1),
        audio_encoder_text(audio_choice(job)),
        output,
    )
}

/// Whether two jobs carry the same video and audio codec requests (they may
/// differ in quality, bitrate and everything else).
pub open spec fn same_codecs(j1: Job, j2: Job) -> bool {
    match (j1.transcode, j2.transcode) {
        (None, None) => true,
        (Some(a), Some(b)) => a.video_codec == b.video_codec && a.audio_codec == b.audio_codec,
        _ => false,
    }
}

/// The ffmpeg command line of a transcode does not depend on the requested
/// quality or bitrate: two jobs with the same codec requests choose the same
/// encoders and get the same arguments.
pub proof fn lemma_args_ignore_quality_and_bitrate(
    j1: Job,
    j2: Job,
    best_av1: Seq<char>,
    input: Seq<char>,
    output: Seq<char>,
)
    requires
        same_codecs(j1, j2),
    ensures
        video_choice(j1) == video_choice(j2),
        audio_choice(j1) == audio_choice(j2),
        job_transcode_args(j1, best_av1, input, output) == job_transcode_args(
            j2,
            best_av1,
            input,
            output,
        ),
{
}

/// The probe of an encoder names exactly that encoder after `-c:v`, and
/// probes of two encoders differ in that argument only.
pub proof fn lemma_probe_tests_given_encoder(encoder: Seq<char>, other: Seq<char>)
    ensures
        probe_args(encoder).len() == 11,
        probe_args(encoder)[6] == "-c:v"@,
        probe_args(encoder)[7] == encoder,
        probe_args(encoder) == probe_args(other).update(7, encoder),
{
    assert(probe_args(encoder) =~= probe_args(other).update(7, encoder));
}

/// The layout of a transcode command line: `-y -i <input>`, then
/// `-c:v <video>`, the encoder's own settings, then `-c:a <audio>` and the
/// fixed audio settings, and the output last.  Two command lines that differ
/// only in the audio encoder differ only in the argument after `-c:a`, which
/// is the audio encoder passed in.
pub proof fn lemma_transcode_args_layout(
    input: Seq<char>,
    video: Seq<char>,
    audio: Seq<char>,
    other_audio: Seq<char>,
    output: Seq<char>,
)
    ensures
        ({
            let a = transcode_args(input, video, audio, output);
            &&& a.len() >= 16
            &&& a[0] == "-y"@
            &&& a[1] == "-i"@
            &&& a[2] == input
            &&& a[3] == "-c:v"@
            &&& a[4] == video
            &&& a[a.len() - 9] == "-c:a"@
            &&& a[a.len() - 8] == audio
            &&& a[a.len() - 1] == output
            &&& a == transcode_args(input, video, other_audio, output).update(a.len() - 8, audio)
        }),
{
    let a = transcode_args(input, video, audio, output);
    let b = transcode_args(input, video, other_audio, output);
    let e = encoder_args(video);
    assert(a.len() == 16 + e.len());
    assert(a =~= b.update(a.len() - 8, audio));
}

/// A job's own codec requests are used as given: a requested video codec
/// other than `av1` is the video encoder, and a requested audio codec other
/// than `opus` is the audio encoder.  Without a request, or with `av1` /
/// `opus`, the video encoder is the best AV1 encoder found and the audio
/// encoder is `libopus`.
pub proof fn lemma_requested_codecs_are_used(job: Job, best_av1: Seq<char>, codec: String)
    ensures
        job.transcode matches Some(t) && t.video_codec == Some(codec) && codec@ != "av1"@
            ==> video_encoder_text(video_choice(job), best_av1) == codec@,
        job.transcode matches Some(t) && t.audio_codec == Some(codec) && codec@ != "opus"@
            ==> audio_encoder_text(audio_choice(job)) == codec@,
        (job.transcode is None || job.transcode->0.video_codec is None || job.transcode->0.video_codec->0@ == "av1"@)
            ==> video_encoder_text(video_choice(job), best_av1) == best_av1,
        (job.transcode is None || job.transcode->0.audio_codec is None || job.transcode->0.audio_codec->0@ == "opus"@)
            ==> audio_encoder_text(audio_choice(job)) == "libopus"@,
{
}

} // verus!
