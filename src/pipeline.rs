//! Choice of execution strategy and store, the plan of the runner chain,
//! and prefix commands.

use vstd::prelude::*;
use crate::keyvalue::{collection_from_keyvalues, split_key_value};
use crate::request::{ExecutionStrategy, Platform, ProcessMetadata, ProcessRequest};
use crate::resolve::{clone_opt_string, opt_text};

verus! {

/// The platform of the remote execution workers.
pub const REMOTE_PLATFORM: Platform = Platform::LinuxX86_64;

/// How often the remote runner polls for the result, in milliseconds.
pub const POLL_INTERVAL_MILLIS: u64 = 100;

/// How long the cache layer waits for a cache read, in seconds.
pub const CACHE_READ_TIMEOUT_SECS: u64 = 2;

/// Chooses the strategy and the target platform: remote execution on the
/// workers' platform when a server is configured, else local execution on
/// the host's platform.
pub fn select_strategy(
    server: &Option<String>,
    extra_platform_property: &Vec<String>,
    host_platform: Platform,
) -> (r: (ExecutionStrategy, Platform))
    ensures
        match server {
            Some(_) => r.1 == REMOTE_PLATFORM && (r.0 matches ExecutionStrategy::RemoteExecution(
                props,
            ) && props.deep_view() == extra_platform_property.deep_view().map_values(
                |s: Seq<char>| split_key_value(s),
            )),
            None => r.1 == host_platform && r.0 is Local,
        },
{
    match server {
        Some(_) => (
            ExecutionStrategy::RemoteExecution(collection_from_keyvalues(extra_platform_property)),
            REMOTE_PLATFORM,
        ),
        None => (ExecutionStrategy::Local, host_platform),
    }
}

/// Which store to open.
#[derive(Clone, Copy, PartialEq, Eq, Structural)]
pub enum StoreChoice {
    LocalOnly,
    WithRemote,
}

/// Chooses the store: one backed by the remote CAS when a CAS server is
/// configured, a local one when neither server is; an execution server
/// without a CAS server is refused (`None`).
pub fn select_store(server: &Option<String>, cas_server: &Option<String>) -> (r: Option<
    StoreChoice,
>)
    ensures
        cas_server is Some ==> r == Some(StoreChoice::WithRemote),
        cas_server is None && server is None ==> r == Some(StoreChoice::LocalOnly),
        cas_server is None && server is Some ==> r is None,
{
    match (server, cas_server) {
        (_, Some(_)) => Some(StoreChoice::WithRemote),
        (None, None) => Some(StoreChoice::LocalOnly),
        _ => None,
    }
}

/// Whether a cache hit may be used without checking that its outputs are
/// present.
#[derive(Clone, Copy, PartialEq, Eq, Structural)]
pub enum CacheContentBehavior {
    Fetch,
    Validate,
    Defer,
}

/// How warnings from the remote cache are reported.
#[derive(Clone, Copy, PartialEq, Eq, Structural)]
pub enum RemoteCacheWarningsBehavior {
    Ignore,
    FirstOnly,
    Backoff,
}

/// When local sandboxes are kept after a run.
#[derive(Clone, Copy, PartialEq, Eq, Structural)]
pub enum KeepSandboxes {
    Always,
    Never,
    OnFailure,
}

/// The local runner.
pub struct LocalRunnerPlan {
    pub work_dir: String,
    pub named_cache_dir: String,
    pub keep_sandboxes: KeepSandboxes,
}

/// The raw remote-execution runner.
pub struct RemoteRunnerPlan {
    pub address: String,
    pub instance_name: Option<String>,
    pub cache_key_gen_version: Option<String>,
    pub overall_deadline_secs: u64,
    pub poll_interval_millis: u64,
    pub execution_rpc_concurrency: usize,
}

/// The remote-cache layer and the runner it delegates to on a miss.
pub struct CacheRunnerPlan {
    pub inner: RemoteRunnerPlan,
    pub address: String,
    pub instance_name: Option<String>,
    pub cache_key_gen_version: Option<String>,
    pub cache_read: bool,
    pub cache_write: bool,
    pub warnings_behavior: RemoteCacheWarningsBehavior,
    pub content_behavior: CacheContentBehavior,
    pub cache_rpc_concurrency: usize,
    pub read_timeout_secs: u64,
}

/// The chain of runners a request goes through: a local runner alone, or
/// the cache layer outermost with the remote runner inside it.
pub enum RunnerPlan {
    Local(LocalRunnerPlan),
    RemoteCached(CacheRunnerPlan),
}

/// Tuning of the remote runners.
pub struct RemoteTuning {
    pub overall_deadline_secs: u64,
    pub execution_rpc_concurrency: usize,
    pub cache_rpc_concurrency: usize,
}

/// The runner chain built for `server`, `metadata` and `tuning`.
pub open spec fn plan_outcome(
    server: Option<String>,
    metadata: ProcessMetadata,
    tuning: RemoteTuning,
    work_dir: String,
    named_cache_dir: String,
    r: RunnerPlan,
) -> bool {
    match server {
        Some(a) => r matches RunnerPlan::RemoteCached(c) && c.address@ == a@ && c.inner.address@
            == a@ && opt_text(c.instance_name) == opt_text(metadata.instance_name) && opt_text(
            c.inner.instance_name,
        ) == opt_text(metadata.instance_name) && opt_text(c.cache_key_gen_version) == opt_text(
            metadata.cache_key_gen_version,
        ) && opt_text(c.inner.cache_key_gen_version) == opt_text(
            metadata.cache_key_gen_version,
        ) && c.cache_read && c.cache_write && c.warnings_behavior
            == RemoteCacheWarningsBehavior::Backoff && c.content_behavior
            == CacheContentBehavior::Defer && c.cache_rpc_concurrency
            == tuning.cache_rpc_concurrency && c.read_timeout_secs == CACHE_READ_TIMEOUT_SECS
            && c.inner.overall_deadline_secs == tuning.overall_deadline_secs
            && c.inner.poll_interval_millis == POLL_INTERVAL_MILLIS
            && c.inner.execution_rpc_concurrency == tuning.execution_rpc_concurrency,
        None => r matches RunnerPlan::Local(l) && l.work_dir == work_dir && l.named_cache_dir
            == named_cache_dir && l.keep_sandboxes == KeepSandboxes::Never,
    }
}

/// Builds the runner chain: with a server, the cache layer wraps the remote
/// runner, both bound to the server and the request's metadata; without
/// one, a local runner that keeps no sandbox.
pub fn build_runner_plan(
    server: Option<String>,
    metadata: &ProcessMetadata,
    tuning: &RemoteTuning,
    work_dir: String,
    named_cache_dir: String,
) -> (r: RunnerPlan)
    ensures
        plan_outcome(server, *metadata, *tuning, work_dir, named_cache_dir, r),
{
    match server {
        Some(address) => {
            let inner = RemoteRunnerPlan {
                address: address.clone(),
                instance_name: clone_opt_string(&metadata.instance_name),
                cache_key_gen_version: clone_opt_string(&metadata.cache_key_gen_version),
                overall_deadline_secs: tuning.overall_deadline_secs,
                poll_interval_millis: POLL_INTERVAL_MILLIS,
                execution_rpc_concurrency: tuning.execution_rpc_concurrency,
            };
            RunnerPlan::RemoteCached(
                CacheRunnerPlan {
                    inner,
                    address,
                    instance_name: clone_opt_string(&metadata.instance_name),
                    cache_key_gen_version: clone_opt_string(&metadata.cache_key_gen_version),
                    cache_read: true,
                    cache_write: true,
                    warnings_behavior: RemoteCacheWarningsBehavior::Backoff,
                    content_behavior: CacheContentBehavior::Defer,
                    cache_rpc_concurrency: tuning.cache_rpc_concurrency,
                    read_timeout_secs: CACHE_READ_TIMEOUT_SECS,
                },
            )
        },
        None => RunnerPlan::Local(
            LocalRunnerPlan { work_dir, named_cache_dir, keep_sandboxes: KeepSandboxes::Never },
        ),
    }
}

/// The words that a shell would split a command line into, without
/// evaluating it; `None` where the quoting is unbalanced.
pub uninterp spec fn shell_words(s: Seq<char>) -> Option<Seq<Seq<char>>>;

/// Relies on shlex::split: it splits a text into words by the shell's
/// quoting rules, or fails on malformed quoting; the result depends on the
/// text alone.
#[verifier::external_body]
fn split_shell_words(s: &str) -> (r: Option<Vec<String>>)
    ensures
        match shell_words(s@) {
            Some(w) => r matches Some(v) && v.deep_view() == w,
            None => r is None,
        },
{
    shlex::split(s)
}

/// Puts the words of a prefix command in front of an argument vector.
pub fn prepend_words(words: Vec<String>, argv: Vec<String>) -> (r: Vec<String>)
    ensures
        r.deep_view() == words.deep_view() + argv.deep_view(),
{
    let mut out = words;
    let mut rest = argv;
    let ghost w = out.deep_view();
    let ghost a = rest.deep_view();
    out.append(&mut rest);
    assert(out.deep_view() =~= w + a);
    out
}

/// Runs the request under a prefix command: the command's shell words go in
/// front of its arguments. Malformed quoting leaves the request unchanged
/// and gives `false`.
pub fn apply_run_under(request: &mut ProcessRequest, run_under: &str) -> (ok: bool)
    ensures
        match shell_words(run_under@) {
            Some(w) => ok && final(request).argv.deep_view() == w + old(request).argv.deep_view(),
            None => !ok && final(request).argv == old(request).argv,
        },
        final(request).env == old(request).env,
        final(request).working_directory == old(request).working_directory,
        final(request).input_root == old(request).input_root,
        final(request).output_files == old(request).output_files,
        final(request).output_directories == old(request).output_directories,
        final(request).timeout == old(request).timeout,
        final(request).description == old(request).description,
        final(request).level == old(request).level,
        final(request).jdk_home == old(request).jdk_home,
        final(request).platform == old(request).platform,
        final(request).concurrency_available == old(request).concurrency_available,
        final(request).cache_scope == old(request).cache_scope,
        final(request).execution_strategy == old(request).execution_strategy,
        final(request).remote_cache_speculation_delay_millis == old(
            request,
        ).remote_cache_speculation_delay_millis,
{
    match split_shell_words(run_under) {
        None => false,
        Some(words) => {
            let mut argv: Vec<String> = Vec::new();
            argv.append(&mut request.argv);
            request.argv = prepend_words(words, argv);
            true
        },
    }
}

} // verus!
