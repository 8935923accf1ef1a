use media_manager_client::urls::query_pair_fits_exec;
use media_manager_client::config::{Config, ConfigError, EnvValues, SystemDefaults};

fn empty_values() -> EnvValues {
    EnvValues {
        server_url: None,
        job_path: None,
        work_dir: None,
        complete_path: None,
        failed_path: None,
        worker_id: None,
        poll_interval_secs: None,
        ffmpeg_bin: None,
        downloads: None,
        uploads: None,
        transcodes: None,
        hostname: None,
    }
}

fn defaults() -> SystemDefaults {
    SystemDefaults { pid: 4321, temp_dir: "/tmp".to_string(), hostname: "box".to_string() }
}

fn config_for(url: &str) -> Config {
    let mut v = empty_values();
    v.server_url = Some(url.to_string());
    Config::from_env_values(v, defaults()).unwrap()
}

#[test]
fn missing_server_url_is_an_error() {
    let err = Config::from_env_values(empty_values(), defaults()).unwrap_err();
    assert!(matches!(err, ConfigError::MissingServerUrl));
    assert_eq!(err.message(), "MEDIA_MANAGER_SERVER_URL is required");
}

#[test]
fn invalid_server_url_is_an_error() {
    let mut v = empty_values();
    v.server_url = Some("not a url".to_string());
    let err = Config::from_env_values(v, defaults()).unwrap_err();
    assert!(matches!(err, ConfigError::InvalidServerUrl(_)));
    assert_eq!(err.message(), "MEDIA_MANAGER_SERVER_URL must be a valid URL");
}

#[test]
fn defaults_fill_in() {
    let c = config_for("https://localhost:8000");
    assert_eq!(c.server_base_url, "https://localhost:8000/");
    assert_eq!(c.job_path, "/api/worker/jobs/next");
    assert_eq!(c.complete_path, "/api/worker/jobs/{job_id}/complete");
    assert_eq!(c.failed_path, "/api/worker/jobs/{job_id}/failed");
    assert_eq!(c.poll_interval_secs, 5);
    assert_eq!(c.work_dir, "/tmp");
    assert_eq!(c.worker_id, "worker-4321");
    assert_eq!(c.ffmpeg_bin, "ffmpeg");
    assert_eq!(c.downloads, 1);
    assert_eq!(c.uploads, 1);
    assert_eq!(c.transcodes, 2);
    assert_eq!(c.hostname, "box");
}

#[test]
fn given_values_are_kept() {
    let mut v = empty_values();
    v.server_url = Some("http://example.com/base/".to_string());
    v.job_path = Some("/next".to_string());
    v.work_dir = Some("/data".to_string());
    v.worker_id = Some("w1".to_string());
    v.poll_interval_secs = Some("30".to_string());
    v.ffmpeg_bin = Some("/usr/bin/ffmpeg".to_string());
    v.downloads = Some("3".to_string());
    v.uploads = Some("4".to_string());
    v.transcodes = Some("5".to_string());
    v.hostname = Some("node-7".to_string());
    let c = Config::from_env_values(v, defaults()).unwrap();
    assert_eq!(c.job_path, "/next");
    assert_eq!(c.work_dir, "/data");
    assert_eq!(c.worker_id, "w1");
    assert_eq!(c.poll_interval_secs, 30);
    assert_eq!(c.ffmpeg_bin, "/usr/bin/ffmpeg");
    assert_eq!((c.downloads, c.uploads, c.transcodes), (3, 4, 5));
    assert_eq!(c.hostname, "node-7");
}

#[test]
fn unparsable_numbers_fall_back() {
    let mut v = empty_values();
    v.server_url = Some("http://example.com".to_string());
    v.poll_interval_secs = Some("soon".to_string());
    v.transcodes = Some("-2".to_string());
    let c = Config::from_env_values(v, defaults()).unwrap();
    assert_eq!(c.poll_interval_secs, 5);
    assert_eq!(c.transcodes, 2);
}

#[test]
fn job_url_resolves_against_base() {
    let c = config_for("https://localhost:8000");
    assert_eq!(c.job_url(), "https://localhost:8000/api/worker/jobs/next");
    assert_eq!(c.try_job_url().unwrap(), "https://localhost:8000/api/worker/jobs/next");
}

#[test]
fn job_url_is_relative_to_base_path() {
    let c = config_for("http://example.com/prefix/");
    assert_eq!(c.job_url(), "http://example.com/prefix/api/worker/jobs/next");
}

#[test]
fn action_urls_substitute_job_id() {
    let c = config_for("https://localhost:8000");
    assert_eq!(c.complete_url("job-123"), "https://localhost:8000/api/worker/jobs/job-123/complete");
    assert_eq!(c.failed_url("job-123"), "https://localhost:8000/api/worker/jobs/job-123/failed");
    assert_eq!(c.try_complete_url("7").unwrap(), "https://localhost:8000/api/worker/jobs/7/complete");
    assert_eq!(c.try_failed_url("7").unwrap(), "https://localhost:8000/api/worker/jobs/7/failed");
}

#[test]
fn unresolvable_paths_are_refused() {
    let c = config_for("mailto:someone@example.com");
    assert!(c.try_job_url().is_err());
    assert!(c.try_complete_url("1").is_err());
    assert!(c.try_failed_url("1").is_err());
}

#[test]
fn leading_slashes_do_not_matter() {
    let mut v = empty_values();
    v.server_url = Some("http://example.com/base/".to_string());
    v.job_path = Some("api/next".to_string());
    v.complete_path = Some("jobs/{job_id}/done".to_string());
    let plain = Config::from_env_values(v.clone(), defaults()).unwrap();
    v.job_path = Some("///api/next".to_string());
    v.complete_path = Some("/jobs/{job_id}/done".to_string());
    let slashed = Config::from_env_values(v, defaults()).unwrap();
    assert_eq!(plain.job_url(), slashed.job_url());
    assert_eq!(plain.job_url(), "http://example.com/base/api/next");
    assert_eq!(plain.complete_url("9"), slashed.complete_url("9"));
    assert_eq!(plain.complete_url("9"), "http://example.com/base/jobs/9/done");
}

#[test]
fn claim_url_carries_worker_id() {
    let c = config_for("https://localhost:8000");
    assert_eq!(
        c.try_claim_url().unwrap(),
        "https://localhost:8000/api/worker/jobs/next?worker_id=worker-4321"
    );
    let mut v = empty_values();
    v.server_url = Some("http://example.com".to_string());
    v.job_path = Some("/next?x=1".to_string());
    v.worker_id = Some("w 1&2".to_string());
    let c = Config::from_env_values(v, defaults()).unwrap();
    assert_eq!(c.try_claim_url().unwrap(), "http://example.com/next?x=1&worker_id=w+1%262");
}

#[test]
fn claim_url_refused_when_unresolved() {
    let c = config_for("mailto:someone@example.com");
    assert!(matches!(
        c.try_claim_url(),
        Err(media_manager_client::config::ClaimUrlError::Unresolved(_))
    ));
}

#[test]
fn ordinary_claim_urls_fit() {
    assert!(query_pair_fits_exec("http://h/next", "worker_id", "w"));
    assert!(query_pair_fits_exec("http://h/next?a=1#frag", "worker_id", "wörker id"));
    assert!(query_pair_fits_exec("http://h/next?#f", "worker_id", ""));
}
