//! The worker's configuration: built from the environment's values, and the
//! server endpoints derived from it.

use vstd::prelude::*;
use vstd::string::StringExecFns;

use crate::text::{
    decimal, parse_u64, parse_u64_spec, push_decimal, replace_all, replace_str, trim_start_char,
    trim_start_str,
};
use crate::urls::{
    joined_url, parsed_url, query_pair_fits, query_pair_fits_exec, url_append_query_pair, url_join, url_parse,
    with_query_pair,
};
use vstd::string::StrSliceExecFns;

verus! {

/// Everything the worker needs to know, with defaults filled in.
#[derive(Debug, Clone)]
pub struct Config {
    /// Serialization of the server's base URL.
    pub server_base_url: String,
    pub job_path: String,
    pub complete_path: String,
    pub failed_path: String,
    pub poll_interval_secs: u64,
    pub work_dir: String,
    pub worker_id: String,
    pub ffmpeg_bin: String,
    pub downloads: u64,
    pub uploads: u64,
    pub transcodes: u64,
    pub hostname: String,
}

/// The configuration variables as the environment gives them; `None` for
/// one that is unset (or not valid unicode).
#[derive(Debug, Clone)]
pub struct EnvValues {
    pub server_url: Option<String>,
    pub job_path: Option<String>,
    pub work_dir: Option<String>,
    pub complete_path: Option<String>,
    pub failed_path: Option<String>,
    pub worker_id: Option<String>,
    pub poll_interval_secs: Option<String>,
    pub ffmpeg_bin: Option<String>,
    pub downloads: Option<String>,
    pub uploads: Option<String>,
    pub transcodes: Option<String>,
    pub hostname: Option<String>,
}

/// Defaults that depend on the machine: the process id (for the worker
/// id), the system's temporary directory and the system's hostname.
#[derive(Debug, Clone)]
pub struct SystemDefaults {
    pub pid: u32,
    pub temp_dir: String,
    pub hostname: String,
}

/// Why no configuration could be built.
#[derive(Debug)]
pub enum ConfigError {
    /// `MEDIA_MANAGER_SERVER_URL` is unset.
    MissingServerUrl,
    /// `MEDIA_MANAGER_SERVER_URL` is not a valid URL.
    InvalidServerUrl(url::ParseError),
}

impl ConfigError {
    /// The message that describes the error.
    pub fn message(&self) -> (res: String)
        ensures
            res@ == self.message_text(),
    {
        match self {
            ConfigError::MissingServerUrl => String::from_str(
                "MEDIA_MANAGER_SERVER_URL is required",
            ),
            ConfigError::InvalidServerUrl(_) => String::from_str(
                "MEDIA_MANAGER_SERVER_URL must be a valid URL",
            ),
        }
    }

    pub open spec fn message_text(&self) -> Seq<char> {
        match self {
            ConfigError::MissingServerUrl => "MEDIA_MANAGER_SERVER_URL is required"@,
            ConfigError::InvalidServerUrl(_) => "MEDIA_MANAGER_SERVER_URL must be a valid URL"@,
        }
    }
}

/// Why no job claim URL could be built.
#[derive(Debug)]
pub enum ClaimUrlError {
    /// The job path does not resolve against the base URL.
    Unresolved(url::ParseError),
    /// The URL and worker id are too long for the `url` crate's `u32`
    /// offsets (where appending the query would panic).
    TooLong,
}

/// The placeholder that action path templates hold for the job id.
pub open spec fn job_id_placeholder() -> Seq<char> {
    "{job_id}"@
}

/// The given text, or the default where none was given.
pub open spec fn text_or(value: Option<String>, default: Seq<char>) -> Seq<char> {
    match value {
        Some(v) => v@,
        None => default,
    }
}

/// The given number, or the default where none was given or it does not
/// parse as a `u64`.
pub open spec fn number_or(value: Option<String>, default: u64) -> u64 {
    match value {
        Some(v) => match parse_u64_spec(v@) {
            Some(n) => n,
            None => default,
        },
        None => default,
    }
}

/// The worker id used when none is configured: `worker-<pid>`.
pub open spec fn default_worker_id(pid: u32) -> Seq<char> {
    "worker-"@ + decimal(pid as nat)
}

/// The text that a configured endpoint path is resolved from: the path
/// without its leading slashes, so that it is taken relative to the base.
pub open spec fn endpoint_input(path: Seq<char>) -> Seq<char> {
    trim_start_char(path, '/')
}

/// The action path for a job: the template with every `{job_id}` replaced
/// by the job id, then without its leading slashes.
pub open spec fn action_input(template: Seq<char>, job_id: Seq<char>) -> Seq<char> {
    endpoint_input(replace_all(template, job_id_placeholder(), job_id))
}

fn text_or_exec(value: Option<String>, default: &str) -> (res: String)
    ensures
        res@ == text_or(value, default@),
{
    match value {
        Some(v) => v,
        None => String::from_str(default),
    }
}

fn number_or_exec(value: &Option<String>, default: u64) -> (res: u64)
    ensures
        res == number_or(*value, default),
{
    match value {
        Some(v) => match parse_u64(v.as_str()) {
            Some(n) => n,
            None => default,
        },
        None => default,
    }
}

impl Config {
    /// Builds the configuration from the environment's values: the server
    /// URL is required and must parse; every other variable falls back to
    /// its default when unset, and a number falls back to its default when
    /// it does not parse.
    pub fn from_env_values(values: EnvValues, defaults: SystemDefaults) -> (res: Result<
        Config,
        ConfigError,
    >)
        ensures
            values.server_url is None ==> (res matches Err(e) && e is MissingServerUrl),
            values.server_url is Some && parsed_url(values.server_url->0@) is None ==> (res matches Err(
                e,
            ) && e is InvalidServerUrl),
            values.server_url is Some && parsed_url(values.server_url->0@) is Some ==> (res matches Ok(
                c,
            ) && c.server_base_url@ == parsed_url(values.server_url->0@)->0
                && c.job_path@ == text_or(values.job_path, "/api/worker/jobs/next"@)
                && c.work_dir@ == text_or(values.work_dir, defaults.temp_dir@)
                && c.complete_path@ == text_or(
                values.complete_path,
                "/api/worker/jobs/{job_id}/complete"@,
            ) && c.failed_path@ == text_or(values.failed_path, "/api/worker/jobs/{job_id}/failed"@)
                && c.worker_id@ == text_or(values.worker_id, default_worker_id(defaults.pid))
                && c.poll_interval_secs == number_or(values.poll_interval_secs, 5)
                && c.ffmpeg_bin@ == text_or(values.ffmpeg_bin, "ffmpeg"@)
                && c.downloads == number_or(values.downloads, 1) && c.uploads == number_or(
                values.uploads,
                1,
            ) && c.transcodes == number_or(values.transcodes, 2) && c.hostname@ == text_or(
                values.hostname,
                defaults.hostname@,
            )),
    {
        let server_url = match values.server_url {
            Some(u) => u,
            None => {
                return Err(ConfigError::MissingServerUrl);
            },
        };
        let server_base_url = match url_parse(server_url.as_str()) {
            Ok(u) => u,
            Err(e) => {
                return Err(ConfigError::InvalidServerUrl(e));
            },
        };
        let poll_interval_secs = number_or_exec(&values.poll_interval_secs, 5);
        let downloads = number_or_exec(&values.downloads, 1);
        let uploads = number_or_exec(&values.uploads, 1);
        let transcodes = number_or_exec(&values.transcodes, 2);
        let worker_id = match values.worker_id {
            Some(w) => w,
            None => {
                let mut w = String::from_str("worker-");
                push_decimal(&mut w, defaults.pid as u64);
                w
            },
        };
        let hostname = match values.hostname {
            Some(h) => h,
            None => defaults.hostname,
        };
        let work_dir = match values.work_dir {
            Some(d) => d,
            None => defaults.temp_dir,
        };
        Ok(Config {
            server_base_url,
            job_path: text_or_exec(values.job_path, "/api/worker/jobs/next"),
            complete_path: text_or_exec(values.complete_path, "/api/worker/jobs/{job_id}/complete"),
            failed_path: text_or_exec(values.failed_path, "/api/worker/jobs/{job_id}/failed"),
            poll_interval_secs,
            work_dir,
            worker_id,
            ffmpeg_bin: text_or_exec(values.ffmpeg_bin, "ffmpeg"),
            downloads,
            uploads,
            transcodes,
            hostname,
        })
    }

    /// The URL of the job claim endpoint, if it resolves.
    pub open spec fn job_url_text(self) -> Option<Seq<char>> {
        joined_url(self.server_base_url@, endpoint_input(self.job_path@))
    }

    /// The URL of an action endpoint for a job, if it resolves.
    pub open spec fn action_url_text(self, template: Seq<char>, job_id: Seq<char>) -> Option<
        Seq<char>,
    > {
        joined_url(self.server_base_url@, action_input(template, job_id))
    }

    /// The job claim endpoint: the job path, without its leading slashes,
    /// resolved against the server's base URL.
    pub fn job_url(&self) -> (url: String)
        requires
            self.job_url_text() is Some,
        ensures
            url@ == self.job_url_text()->0,
    {
        let input = trim_start_str(self.job_path.as_str(), '/');
        match url_join(self.server_base_url.as_str(), input.as_str()) {
            Ok(url) => url,
            Err(_) => {
                proof {
                    assert(false);
                }
                String::new()
            },
        }
    }

    /// The job claim endpoint, or the error of the resolution where it
    /// fails (where `job_url` may not be called).
    pub fn try_job_url(&self) -> (res: Result<String, url::ParseError>)
        ensures
            res is Ok <==> self.job_url_text() is Some,
            res matches Ok(url) ==> url@ == self.job_url_text()->0,
    {
        let input = trim_start_str(self.job_path.as_str(), '/');
        match url_join(self.server_base_url.as_str(), input.as_str()) {
            Ok(_) => Ok(self.job_url()),
            Err(e) => Err(e),
        }
    }

    /// The completion callback endpoint of a job.
    pub fn complete_url(&self, job_id: &str) -> (url: String)
        requires
            self.action_url_text(self.complete_path@, job_id@) is Some,
        ensures
            url@ == self.action_url_text(self.complete_path@, job_id@)->0,
    {
        self.action_url(self.complete_path.as_str(), job_id)
    }

    /// The completion callback endpoint of a job, or the error of the
    /// resolution where it fails (where `complete_url` may not be called).
    pub fn try_complete_url(&self, job_id: &str) -> (res: Result<String, url::ParseError>)
        ensures
            res is Ok <==> self.action_url_text(self.complete_path@, job_id@) is Some,
            res matches Ok(url) ==> url@ == self.action_url_text(self.complete_path@, job_id@)->0,
    {
        match self.resolve_action(self.complete_path.as_str(), job_id) {
            Ok(_) => Ok(self.complete_url(job_id)),
            Err(e) => Err(e),
        }
    }

    /// The failure callback endpoint of a job.
    pub fn failed_url(&self, job_id: &str) -> (url: String)
        requires
            self.action_url_text(self.failed_path@, job_id@) is Some,
        ensures
            url@ == self.action_url_text(self.failed_path@, job_id@)->0,
    {
        self.action_url(self.failed_path.as_str(), job_id)
    }

    /// The failure callback endpoint of a job, or the error of the
    /// resolution where it fails (where `failed_url` may not be called).
    pub fn try_failed_url(&self, job_id: &str) -> (res: Result<String, url::ParseError>)
        ensures
            res is Ok <==> self.action_url_text(self.failed_path@, job_id@) is Some,
            res matches Ok(url) ==> url@ == self.action_url_text(self.failed_path@, job_id@)->0,
    {
        match self.resolve_action(self.failed_path.as_str(), job_id) {
            Ok(_) => Ok(self.failed_url(job_id)),
            Err(e) => Err(e),
        }
    }

    /// The job claim URL, if the job path resolves and the worker id can be
    /// appended to it: the job URL with the query pair `worker_id=<worker id>`.
    pub open spec fn claim_url_text(self) -> Option<Seq<char>> {
        match self.job_url_text() {
            Some(u) => with_query_pair(u, "worker_id"@, self.worker_id@),
            None => None,
        }
    }

    /// Whether the worker id can be appended to the resolved job URL.
    pub open spec fn claim_fits(self) -> bool {
        &&& self.job_url_text() is Some
        &&& parsed_url(self.job_url_text()->0) is Some
        &&& query_pair_fits(
            parsed_url(self.job_url_text()->0)->0,
            "worker_id"@,
            self.worker_id@,
        )
    }

    /// The URL that claims the next job: the job claim endpoint with the
    /// query `worker_id=<worker id>` appended.  It fails where the job path
    /// does not resolve, and where the URL is too long for the `url` crate.
    pub fn try_claim_url(&self) -> (res: Result<String, ClaimUrlError>)
        ensures
            self.claim_fits() <==> res is Ok,
            res matches Ok(url) ==> Some(url@) == self.claim_url_text(),
            res matches Err(e) ==> (e is Unresolved <==> (self.job_url_text() is None
                || parsed_url(self.job_url_text()->0) is None)),
    {
        let input = trim_start_str(self.job_path.as_str(), '/');
        let job_url = match url_join(self.server_base_url.as_str(), input.as_str()) {
            Ok(u) => u,
            Err(e) => {
                return Err(ClaimUrlError::Unresolved(e));
            },
        };
        let serialization = match url_parse(job_url.as_str()) {
            Ok(s) => s,
            Err(e) => {
                return Err(ClaimUrlError::Unresolved(e));
            },
        };
        proof {
            reveal_strlit("worker_id");
        }
        if !query_pair_fits_exec(serialization.as_str(), "worker_id", self.worker_id.as_str()) {
            return Err(ClaimUrlError::TooLong);
        }
        Ok(url_append_query_pair(job_url.as_str(), "worker_id", self.worker_id.as_str()))
    }

    fn resolve_action(&self, template: &str, job_id: &str) -> (res: Result<
        String,
        url::ParseError,
    >)
        ensures
            res is Ok <==> self.action_url_text(template@, job_id@) is Some,
            res matches Ok(url) ==> url@ == self.action_url_text(template@, job_id@)->0,
    {
        proof {
            reveal_strlit("{job_id}");
        }
        let path = replace_str(template, "{job_id}", job_id);
        let input = trim_start_str(path.as_str(), '/');
        url_join(self.server_base_url.as_str(), input.as_str())
    }

    fn action_url(&self, template: &str, job_id: &str) -> (url: String)
        requires
            self.action_url_text(template@, job_id@) is Some,
        ensures
            url@ == self.action_url_text(template@, job_id@)->0,
    {
        match self.resolve_action(template, job_id) {
            Ok(url) => url,
            Err(_) => {
                proof {
                    assert(false);
                }
                String::new()
            },
        }
    }
}

/// A configured path resolves to the same URL with or without leading
/// slashes: job path and action templates are always taken relative to the
/// server's base URL.
pub proof fn lemma_leading_slash_is_ignored(c: Config, path: Seq<char>, job_id: Seq<char>)
    ensures
        joined_url(c.server_base_url@, endpoint_input(seq!['/'] + path)) == joined_url(
            c.server_base_url@,
            endpoint_input(path),
        ),
        c.action_url_text(seq!['/'] + path, job_id) == c.action_url_text(path, job_id),
{
    let slashed = seq!['/'] + path;
    assert(slashed.skip(1) =~= path);
    reveal_strlit("{job_id}");
    let placeholder = job_id_placeholder();
    assert(placeholder.len() == 8);
    if slashed.len() >= 8 {
        assert(slashed.take(8)[0] == '/');
        assert(placeholder[0] == '{');
        assert(slashed.take(8) != placeholder);
    }
    assert(replace_all(slashed, placeholder, job_id) =~= seq!['/'] + replace_all(
        path,
        placeholder,
        job_id,
    ));
    let r = replace_all(path, placeholder, job_id);
    assert((seq!['/'] + r).skip(1) =~= r);
}

/// The job claim endpoint is the configured job path resolved against the
/// server's base URL after removing only its leading slashes: some `k`
/// leading characters, all `/`, are cut off, the next is not a `/`, and the
/// rest of the path, its end included, is what gets resolved.
pub proof fn lemma_job_url_keeps_path_end(c: Config)
    ensures
        exists|k: int|
            #![trigger c.job_path@.skip(k)]
            0 <= k <= c.job_path@.len() && (forall|i: int| 0 <= i < k ==> c.job_path@[i] == '/')
                && (k < c.job_path@.len() ==> c.job_path@[k] != '/') && c.job_url_text()
                == joined_url(c.server_base_url@, c.job_path@.skip(k)),
{
    let p = c.job_path@;
    crate::text::lemma_trim_start_shape(p, '/');
    let t = trim_start_char(p, '/');
    let k = p.len() - t.len();
    assert(p.skip(k) == t);
    assert(k < p.len() ==> p[k] == t[0]);
}

/// A job's action endpoint is the template with every `{job_id}` replaced by
/// the job id, resolved against the server's base URL after removing only
/// the leading slashes of the result: some `k` leading characters, all `/`,
/// are cut off, the next is not a `/`, and the rest, its end included, is
/// what gets resolved.
pub proof fn lemma_action_url_keeps_path_end(c: Config, template: Seq<char>, job_id: Seq<char>)
    ensures
        ({
            let r = replace_all(template, job_id_placeholder(), job_id);
            exists|k: int|
                #![trigger r.skip(k)]
                0 <= k <= r.len() && (forall|i: int| 0 <= i < k ==> r[i] == '/') && (k < r.len()
                    ==> r[k] != '/') && c.action_url_text(template, job_id) == joined_url(
                    c.server_base_url@,
                    r.skip(k),
                )
        }),
{
    let r = replace_all(template, job_id_placeholder(), job_id);
    crate::text::lemma_trim_start_shape(r, '/');
    let t = trim_start_char(r, '/');
    let k = r.len() - t.len();
    assert(r.skip(k) == t);
    assert(k < r.len() ==> r[k] == t[0]);
}

/// How the job id goes into a template: each `{job_id}` becomes the job id,
/// a character that cannot start `{job_id}` stays, and a template without
/// `{job_id}` is the same for every job.
pub proof fn lemma_job_id_substitution(s: Seq<char>, job_id: Seq<char>, ch: char)
    ensures
        replace_all(job_id_placeholder() + s, job_id_placeholder(), job_id) == job_id + replace_all(
            s,
            job_id_placeholder(),
            job_id,
        ),
        ch != '{' ==> replace_all(seq![ch] + s, job_id_placeholder(), job_id) == seq![ch]
            + replace_all(s, job_id_placeholder(), job_id),
        (forall|i: int| !crate::text::occurs_at(s, job_id_placeholder(), i)) ==> replace_all(
            s,
            job_id_placeholder(),
            job_id,
        ) == s,
{
    reveal_strlit("{job_id}");
    crate::text::lemma_replace_front(s, job_id_placeholder(), job_id, ch);
    if forall|i: int| !crate::text::occurs_at(s, job_id_placeholder(), i) {
        crate::text::lemma_replace_without_occurrence(s, job_id_placeholder(), job_id);
    }
}

} // verus!
