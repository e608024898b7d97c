//! The canonical process request and its parts.

use vstd::prelude::*;
use crate::digest::Digest;
use crate::error::ResolveError;
use crate::path::{is_contained_relative, RelativePath};

verus! {

/// The platform a process runs on.
#[derive(Clone, Copy, PartialEq, Eq, Structural)]
pub enum Platform {
    MacosX86_64,
    MacosArm64,
    LinuxX86_64,
    LinuxArm64,
}

/// Where a process runs: locally, or on a remote execution service with
/// extra platform properties.
pub enum ExecutionStrategy {
    Local,
    RemoteExecution(Vec<(String, String)>),
}

/// How loudly a run is reported.
#[derive(Clone, Copy, PartialEq, Eq, Structural)]
pub enum Level {
    Error,
    Warn,
    Info,
    Debug,
    Trace,
}

/// Which results of a process may be cached.
#[derive(Clone, Copy, PartialEq, Eq, Structural)]
pub enum ProcessCacheScope {
    Always,
    Successful,
    PerRestartAlways,
    PerRestartSuccessful,
    PerSession,
}

/// A span of time: whole seconds and the nanoseconds beyond them.
#[derive(Clone, Copy, PartialEq, Eq, Structural)]
pub struct Timeout {
    pub secs: u64,
    pub nanos: u32,
}

/// The default timeout of a request built from flat arguments, in seconds.
pub const DEFAULT_TIMEOUT_SECS: u64 = 900;

/// The canonical description of one sandboxed invocation.
pub struct ProcessRequest {
    pub argv: Vec<String>,
    /// Environment variables; a later pair overrides an earlier one with the
    /// same name.
    pub env: Vec<(String, String)>,
    pub working_directory: Option<RelativePath>,
    pub input_root: Digest,
    pub output_files: Vec<RelativePath>,
    pub output_directories: Vec<RelativePath>,
    pub timeout: Option<Timeout>,
    pub description: String,
    pub level: Level,
    pub jdk_home: Option<String>,
    pub platform: Platform,
    /// How much concurrency the process could use; 0 when unconstrained.
    pub concurrency_available: usize,
    pub cache_scope: ProcessCacheScope,
    pub execution_strategy: ExecutionStrategy,
    pub remote_cache_speculation_delay_millis: u64,
}

/// Namespacing hints for remote services.
pub struct ProcessMetadata {
    pub instance_name: Option<String>,
    pub cache_key_gen_version: Option<String>,
}

/// Every path of the list is relative and contained.
pub open spec fn all_contained(ps: Seq<Seq<char>>) -> bool {
    forall|i: int| 0 <= i < ps.len() ==> is_contained_relative(#[trigger] ps[i])
}

/// `e` names the first path of `ps` that is not relative and contained.
pub open spec fn names_first_invalid(e: ResolveError, ps: Seq<Seq<char>>) -> bool {
    exists|i: int|
        #![trigger ps[i]]
        0 <= i < ps.len() && !is_contained_relative(ps[i]) && all_contained(ps.take(i)) && (
        e matches ResolveError::InvalidPath { path } && path@ == ps[i])
}

/// The texts of a list of paths.
pub open spec fn path_views(ps: Seq<RelativePath>) -> Seq<Seq<char>> {
    ps.map_values(|p: RelativePath| p@)
}

/// Checks each path of a list, in order.
pub fn relative_paths(paths: &Vec<String>) -> (r: Result<Vec<RelativePath>, ResolveError>)
    ensures
        r is Ok <==> all_contained(paths.deep_view()),
        r matches Ok(v) ==> path_views(v@) == paths.deep_view(),
        r matches Err(e) ==> names_first_invalid(e, paths.deep_view()),
{
    let mut out: Vec<RelativePath> = Vec::new();
    let mut i: usize = 0;
    let ghost ps = paths.deep_view();
    while i < paths.len()
        invariant
            ps == paths.deep_view(),
            i <= ps.len(),
            all_contained(ps.take(i as int)),
            path_views(out@) == ps.take(i as int),
        decreases ps.len() - i,
    {
        assert(ps[i as int] == paths@[i as int]@);
        let ghost prev = out@;
        match RelativePath::new(paths[i].as_str()) {
            Ok(p) => {
                out.push(p);
                assert(path_views(out@) =~= path_views(prev).push(p@));
                assert(path_views(out@) =~= ps.take(i + 1));
                assert(all_contained(ps.take(i + 1))) by {
                    assert forall|k: int| 0 <= k < i + 1 implies is_contained_relative(
                        #[trigger] ps.take(i + 1)[k],
                    ) by {
                        if k < i {
                            assert(ps.take(i + 1)[k] == ps.take(i as int)[k]);
                        }
                    }
                }
            },
            Err(e) => {
                assert(!is_contained_relative(ps[i as int]));
                assert(!all_contained(ps));
                return Err(e);
            },
        }
        i = i + 1;
    }
    assert(ps.take(i as int) =~= ps);
    Ok(out)
}

/// Checks an optional working directory.
pub fn optional_relative_path(p: &Option<String>) -> (r: Result<Option<RelativePath>, ResolveError>)
    ensures
        match p {
            None => r matches Ok(None),
            Some(s) => if is_contained_relative(s@) {
                r matches Ok(Some(q)) && q@ == s@
            } else {
                r matches Err(ResolveError::InvalidPath { path }) && path@ == s@
            },
        },
{
    match p {
        None => Ok(None),
        Some(s) => match RelativePath::new(s.as_str()) {
            Ok(q) => Ok(Some(q)),
            Err(e) => Err(e),
        },
    }
}

} // verus!
