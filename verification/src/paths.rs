//! Where a job's files live: `<work_dir>/<job id>/`, holding the download
//! (`in.part` while it runs, then `in.mkv`) and the transcode's `out.mkv`.

use vstd::prelude::*;
use vstd::string::{StrSliceExecFns, StringExecFns};

verus! {

/// `base` joined with `p` as `Path::join` does on Unix: an absolute `p`
/// replaces `base`; otherwise a `/` goes between them unless `base` is empty
/// or already ends in one.
pub open spec fn path_join(base: Seq<char>, p: Seq<char>) -> Seq<char> {
    if p.len() > 0 && p[0] == '/' {
        p
    } else if base.len() == 0 || base.last() == '/' {
        base + p
    } else {
        base + seq!['/'] + p
    }
}

/// `base` joined with `p`, as `Path::join` does on Unix.
pub fn join_path(base: &str, p: &str) -> (res: String)
    ensures
        res@ == path_join(base@, p@),
{
    let plen = p.unicode_len();
    if plen > 0 && p.get_char(0) == '/' {
        return String::from_str(p);
    }
    let blen = base.unicode_len();
    let mut res = String::from_str(base);
    if blen > 0 && base.get_char(blen - 1) != '/' {
        res.append("/");
        proof {
            reveal_strlit("/");
        }
    }
    res.append(p);
    res
}

/// The files of one job.
#[derive(Debug, Clone, PartialEq, Eq)]
pub struct JobPaths {
    /// The job's work directory.
    pub dir: String,
    /// The downloaded input.
    pub input: String,
    /// The input while it is being downloaded.
    pub partial: String,
    /// The transcoded output, beside the input.
    pub output: String,
}

/// The job's work directory: the job id under the work directory.
pub open spec fn job_dir_text(work_dir: Seq<char>, job_id: Seq<char>) -> Seq<char> {
    path_join(work_dir, job_id)
}

/// The files of the job with this id under this work directory.
pub fn job_paths(work_dir: &str, job_id: &str) -> (res: JobPaths)
    ensures
        res.dir@ == job_dir_text(work_dir@, job_id@),
        res.input@ == path_join(res.dir@, "in.mkv"@),
        res.partial@ == path_join(res.dir@, "in.part"@),
        res.output@ == path_join(res.dir@, "out.mkv"@),
{
    let dir = join_path(work_dir, job_id);
    let input = join_path(dir.as_str(), "in.mkv");
    let partial = join_path(dir.as_str(), "in.part");
    let output = join_path(dir.as_str(), "out.mkv");
    JobPaths { dir, input, partial, output }
}

/// The input, the partial download and the output of a job all sit directly
/// in the job's work directory: each is the directory, a `/` where the
/// directory does not end in one, and the file name.
pub proof fn lemma_job_files_share_dir(dir: Seq<char>)
    ensures
        path_join(dir, "in.mkv"@) == (if dir.len() == 0 || dir.last() == '/' {
            dir
        } else {
            dir + seq!['/']
        }) + "in.mkv"@,
        path_join(dir, "out.mkv"@) == (if dir.len() == 0 || dir.last() == '/' {
            dir
        } else {
            dir + seq!['/']
        }) + "out.mkv"@,
        path_join(dir, "in.part"@) == (if dir.len() == 0 || dir.last() == '/' {
            dir
        } else {
            dir + seq!['/']
        }) + "in.part"@,
{
    reveal_strlit("in.mkv");
    reveal_strlit("out.mkv");
    reveal_strlit("in.part");
    assert(dir + seq!['/'] + "in.mkv"@ =~= (dir + seq!['/']) + "in.mkv"@);
}

} // verus!
