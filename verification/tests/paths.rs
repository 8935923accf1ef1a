use media_manager_client::paths::{join_path, job_paths};
use std::path::PathBuf;

#[test]
fn job_files_under_work_dir() {
    let p = job_paths("/tmp/work", "123");
    assert_eq!(p.dir, "/tmp/work/123");
    assert_eq!(p.input, "/tmp/work/123/in.mkv");
    assert_eq!(p.partial, "/tmp/work/123/in.part");
    assert_eq!(p.output, "/tmp/work/123/out.mkv");
}

#[test]
fn join_like_std_path() {
    for (base, p) in [("a", "b"), ("a/", "b"), ("", "b"), ("a", "/b"), ("a", ""), ("/", "x"), ("a/b", "c/d")] {
        assert_eq!(PathBuf::from(join_path(base, p)), PathBuf::from(base).join(p), "{:?} {:?}", base, p);
        assert_eq!(join_path(base, p), PathBuf::from(base).join(p).to_string_lossy());
    }
}

#[test]
fn output_beside_input_like_std() {
    let p = job_paths("./.work", "job-7");
    let input = PathBuf::from(&p.input);
    assert_eq!(PathBuf::from(&p.output), input.with_file_name("out.mkv"));
    assert_eq!(PathBuf::from(&p.partial), input.with_extension("part"));
}
