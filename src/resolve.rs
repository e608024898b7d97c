//! Resolution of a process request from one of three input shapes. Shapes
//! that need the store go step by step: each step names the digest to load
//! and takes what the store gave back.

use vstd::prelude::*;
use vstd::string::{StrSliceExecFns, StringExecFns};
use crate::digest::{fingerprint_of_hex, Digest, Fingerprint};
use crate::error::{DigestRef, ResolveError};
use crate::keyvalue::{collection_from_keyvalues, split_key_value};
use crate::path::{is_contained_relative, RelativePath};
use crate::proto::{
    action_message, command_message, decode_action_message, decode_command_message,
    decode_uncached_result_message, opt_view, uncached_result_message, CommandMessage,
    DigestMessage, DigestModel, DurationMessage, DurationModel,
};
use crate::request::{
    all_contained, names_first_invalid, optional_relative_path, path_views, relative_paths,
    ExecutionStrategy, Level, Platform, ProcessCacheScope, ProcessMetadata, ProcessRequest, Timeout,
    DEFAULT_TIMEOUT_SECS,
};
use crate::url::{parse_result_url, result_url, url_error, ResultUrl, UrlKind};

verus! {

/// The text of an optional string.
pub open spec fn opt_text(o: Option<String>) -> Option<Seq<char>> {
    match o {
        Some(s) => Some(s@),
        None => None,
    }
}

/// The text of an optional path.
pub open spec fn opt_path_text(o: Option<RelativePath>) -> Option<Seq<char>> {
    match o {
        Some(p) => Some(p@),
        None => None,
    }
}

/// The digest that a protocol digest message names: a fingerprint in hex
/// and a length that fits in `usize`.
pub open spec fn digest_of_model(m: DigestModel) -> Option<(Seq<u8>, usize)> {
    match fingerprint_of_hex(m.hash) {
        Some(fp) => if m.size_bytes <= usize::MAX {
            Some((fp, m.size_bytes as usize))
        } else {
            None
        },
        None => None,
    }
}

/// The timeout that a protocol duration gives: seconds that are not
/// negative and nanoseconds (a 32-bit field) below one second.
pub open spec fn timeout_of(d: DurationModel) -> Option<Timeout> {
    let nanos = d.nanos as int % 0x1_0000_0000;
    if d.seconds < 0x8000_0000_0000_0000 && nanos < 1_000_000_000 {
        Some(Timeout { secs: d.seconds, nanos: nanos as u32 })
    } else {
        None
    }
}

fn clone_string(s: &String) -> (r: String)
    ensures
        r@ == s@,
{
    String::from_str(s.as_str())
}

fn clone_strings(v: &Vec<String>) -> (r: Vec<String>)
    ensures
        r.deep_view() == v.deep_view(),
{
    let mut out: Vec<String> = Vec::new();
    let mut i: usize = 0;
    while i < v.len()
        invariant
            i <= v@.len(),
            out.deep_view() == v.deep_view().take(i as int),
        decreases v@.len() - i,
    {
        let ghost prev = out.deep_view();
        out.push(clone_string(&v[i]));
        assert(out.deep_view() =~= prev.push(v.deep_view()[i as int]));
        assert(v.deep_view().take(i + 1) =~= v.deep_view().take(i as int).push(
            v.deep_view()[i as int],
        ));
        i = i + 1;
    }
    assert(v.deep_view().take(i as int) =~= v.deep_view());
    out
}

pub(crate) fn clone_opt_string(o: &Option<String>) -> (r: Option<String>)
    ensures
        opt_text(r) == opt_text(*o),
{
    match o {
        Some(s) => Some(clone_string(s)),
        None => None,
    }
}

/// Turns a protocol digest message into a digest.
pub fn require_digest(m: &DigestMessage, reference: DigestRef) -> (r: Result<Digest, ResolveError>)
    ensures
        match digest_of_model(m@) {
            Some(v) => r matches Ok(d) && d@ == v,
            None => r matches Err(ResolveError::BadDigest { reference: x }) && x == reference,
        },
{
    let hash = match Fingerprint::from_hex_bytes(m.hash.as_slice()) {
        Some(h) => h,
        None => return Err(ResolveError::BadDigest { reference }),
    };
    if m.size_bytes > usize::MAX as u64 {
        return Err(ResolveError::BadDigest { reference });
    }
    Ok(Digest::new(hash, m.size_bytes as usize))
}

/// Converts a protocol duration into a timeout.
pub fn convert_timeout(d: &DurationMessage) -> (r: Option<Timeout>)
    ensures
        r == timeout_of(d@),
{
    let nanos = d.nanos % 0x1_0000_0000;
    if d.seconds < 0x8000_0000_0000_0000 && nanos < 1_000_000_000 {
        Some(Timeout { secs: d.seconds, nanos: nanos as u32 })
    } else {
        None
    }
}

/// The input shape that selects the flat arguments.
pub struct CommandSpec {
    pub argv: Vec<String>,
    pub input_digest: Option<Fingerprint>,
    pub input_digest_length: Option<usize>,
    pub extra_platform_property: Vec<String>,
    pub env: Vec<String>,
    pub jdk: Option<String>,
    pub output_file_path: Vec<String>,
    pub output_directory_path: Vec<String>,
    pub working_directory: Option<String>,
    pub concurrency_available: Option<usize>,
    pub cache_key_gen_version: Option<String>,
}

/// The input shape that names an action by its digest.
pub struct ActionDigestSpec {
    pub action_digest: Option<Fingerprint>,
    pub action_digest_length: Option<usize>,
}

/// Everything a request can be resolved from.
pub struct RequestArgs {
    pub command: CommandSpec,
    pub action_digest: ActionDigestSpec,
    pub buildbarn_url: Option<String>,
    pub remote_instance_name: Option<String>,
}

/// What resolving the flat arguments with `input_files` as input root gives.
pub open spec fn flat_outcome(
    args: RequestArgs,
    input_files: Digest,
    strategy: ExecutionStrategy,
    platform: Platform,
    r: Result<(ProcessRequest, ProcessMetadata), ResolveError>,
) -> bool {
    let c = args.command;
    let files = c.output_file_path.deep_view();
    let dirs = c.output_directory_path.deep_view();
    if !all_contained(files) {
        r matches Err(e) && names_first_invalid(e, files)
    } else if !all_contained(dirs) {
        r matches Err(e) && names_first_invalid(e, dirs)
    } else if c.working_directory matches Some(w) && !is_contained_relative(w@) {
        r matches Err(ResolveError::InvalidPath { path }) && path@ == c.working_directory->0@
    } else {
        r matches Ok((p, m)) && p.argv.deep_view() == c.argv.deep_view() && p.env.deep_view()
            == c.env.deep_view().map_values(|s: Seq<char>| split_key_value(s)) && opt_path_text(
            p.working_directory,
        ) == opt_text(c.working_directory) && p.input_root == input_files && path_views(
            p.output_files@,
        ) == files && path_views(p.output_directories@) == dirs && p.timeout == Some(
            Timeout { secs: DEFAULT_TIMEOUT_SECS, nanos: 0 },
        ) && p.description@ == "process_executor"@ && p.level == Level::Info && opt_text(
            p.jdk_home,
        ) == opt_text(c.jdk) && p.platform == platform && p.concurrency_available == (
        match c.concurrency_available {
            Some(n) => n,
            None => 0,
        }) && p.cache_scope == ProcessCacheScope::Always && p.execution_strategy == strategy
            && p.remote_cache_speculation_delay_millis == 0 && opt_text(m.instance_name)
            == opt_text(args.remote_instance_name) && opt_text(m.cache_key_gen_version)
            == opt_text(c.cache_key_gen_version)
    }
}

/// Builds a request from flat arguments, with `input_files` as the input
/// root; no digest is dereferenced.
pub fn make_request_from_flat_args(
    args: &RequestArgs,
    input_files: Digest,
    execution_strategy: ExecutionStrategy,
    platform: Platform,
) -> (r: Result<(ProcessRequest, ProcessMetadata), ResolveError>)
    ensures
        flat_outcome(*args, input_files, execution_strategy, platform, r),
{
    let c = &args.command;
    let output_files = match relative_paths(&c.output_file_path) {
        Ok(v) => v,
        Err(e) => return Err(e),
    };
    let output_directories = match relative_paths(&c.output_directory_path) {
        Ok(v) => v,
        Err(e) => return Err(e),
    };
    let working_directory = match optional_relative_path(&c.working_directory) {
        Ok(w) => w,
        Err(e) => return Err(e),
    };
    let concurrency_available = match c.concurrency_available {
        Some(n) => n,
        None => 0,
    };
    let process = ProcessRequest {
        argv: clone_strings(&c.argv),
        env: collection_from_keyvalues(&c.env),
        working_directory,
        input_root: input_files,
        output_files,
        output_directories,
        timeout: Some(Timeout { secs: DEFAULT_TIMEOUT_SECS, nanos: 0 }),
        description: String::from_str("process_executor"),
        level: Level::Info,
        jdk_home: clone_opt_string(&c.jdk),
        platform,
        concurrency_available,
        cache_scope: ProcessCacheScope::Always,
        execution_strategy,
        remote_cache_speculation_delay_millis: 0,
    };
    let metadata = ProcessMetadata {
        instance_name: clone_opt_string(&args.remote_instance_name),
        cache_key_gen_version: clone_opt_string(&c.cache_key_gen_version),
    };
    Ok((process, metadata))
}

/// What a resolution carries through every step: where and how the process
/// will run, and the instance name for remote services.
pub struct Base {
    pub strategy: ExecutionStrategy,
    pub platform: Platform,
    pub instance_name: Option<String>,
}

/// A resolution that waits for the store.
pub enum Pending {
    /// Waits for the bytes of the action.
    Action { action: Digest, base: Base },
    /// Waits for the bytes of the action's command.
    Command {
        action: Digest,
        command: Digest,
        input_root_digest: Option<DigestMessage>,
        timeout: Option<DurationMessage>,
        base: Base,
    },
    /// Waits to learn that the input root directory is in the store.
    InputRoot {
        action: Digest,
        input_root: Digest,
        command_message: CommandMessage,
        working_directory: Option<RelativePath>,
        timeout: Option<DurationMessage>,
        base: Base,
    },
    /// Waits for the bytes of an uncached-action-result record.
    Record {
        record: Digest,
        instance: String,
        strategy: ExecutionStrategy,
        platform: Platform,
    },
}

/// Why the store gave nothing back.
pub enum StoreError {
    Missing,
    Failed(String),
}

/// Where a resolution stands: waiting for the store, or done.
pub enum Progress {
    Need(Pending),
    Done(Result<(ProcessRequest, ProcessMetadata), ResolveError>),
}

/// The error that a store failure on `digest` gives.
pub open spec fn store_error_outcome(digest: Digest, e: StoreError, r: Progress) -> bool {
    match e {
        StoreError::Missing => r matches Progress::Done(Err(ResolveError::StoreMiss { digest: d }))
            && d == digest,
        StoreError::Failed(m) => r matches Progress::Done(
            Err(ResolveError::StoreFailure { digest: d, message: x }),
        ) && d == digest && x == m,
    }
}

/// The step after the action's bytes, or the store's failure, came back.
pub open spec fn after_action(
    action: Digest,
    base: Base,
    reply: Result<Vec<u8>, StoreError>,
    r: Progress,
) -> bool {
    match reply {
        Err(e) => store_error_outcome(action, e, r),
        Ok(b) => match action_message(b@) {
            None => r matches Progress::Done(Err(ResolveError::Decode { digest })) && digest
                == action,
            Some(a) => match (
                match a.command_digest {
                    Some(m) => digest_of_model(m),
                    None => None,
                }
            ) {
                None => r matches Progress::Done(
                    Err(ResolveError::BadDigest { reference }),
                ) && reference == DigestRef::Command,
                Some(cd) => r matches Progress::Need(
                    Pending::Command { action: x, command, input_root_digest: input_root, timeout, base: bb },
                ) && x == action && command@ == cd && opt_view(input_root) == a.input_root_digest
                    && opt_view(timeout) == a.timeout && bb == base,
            },
        },
    }
}

/// The step after the command's bytes, or the store's failure, came back.
pub open spec fn after_command(
    action: Digest,
    command: Digest,
    input_root: Option<DigestMessage>,
    timeout: Option<DurationMessage>,
    base: Base,
    reply: Result<Vec<u8>, StoreError>,
    r: Progress,
) -> bool {
    match reply {
        Err(e) => store_error_outcome(command, e, r),
        Ok(b) => match command_message(b@) {
            None => r matches Progress::Done(Err(ResolveError::Decode { digest })) && digest
                == command,
            Some(c) => {
                let wd = c.working_directory;
                if wd.len() > 0 && !is_contained_relative(wd) {
                    r matches Progress::Done(Err(ResolveError::InvalidPath { path })) && path@
                        == wd
                } else {
                    match (
                        match input_root {
                            Some(m) => digest_of_model(m@),
                            None => None,
                        }
                    ) {
                        None => r matches Progress::Done(
                            Err(ResolveError::BadDigest { reference }),
                        ) && reference == DigestRef::InputRoot,
                        Some(ir) => r matches Progress::Need(
                            Pending::InputRoot {
                                action: x,
                                input_root: d,
                                command_message: cm,
                                working_directory: w,
                                timeout: t,
                                base: bb,
                            },
                        ) && x == action && d@ == ir && cm@ == c && opt_path_text(w) == (if wd.len()
                            == 0 {
                            None
                        } else {
                            Some(wd)
                        }) && t == timeout && bb == base,
                    }
                }
            },
        },
    }
}

/// The request that the last step builds from a decoded command.
pub open spec fn built_from_command(
    input_root: Digest,
    command: CommandMessage,
    working_directory: Option<RelativePath>,
    timeout: Option<Timeout>,
    base: Base,
    p: ProcessRequest,
    m: ProcessMetadata,
) -> bool {
    let c = command@;
    &&& p.argv.deep_view() == c.arguments
    &&& p.env.deep_view() == c.environment_variables
    &&& p.working_directory == working_directory
    &&& p.input_root == input_root
    &&& path_views(p.output_files@) == c.output_files
    &&& path_views(p.output_directories@) == c.output_directories
    &&& p.timeout == timeout
    &&& p.description@ == Seq::<char>::empty()
    &&& p.level == Level::Error
    &&& p.jdk_home is None
    &&& p.platform == base.platform
    &&& p.concurrency_available == 0
    &&& p.cache_scope == ProcessCacheScope::Always
    &&& p.execution_strategy == base.strategy
    &&& p.remote_cache_speculation_delay_millis == 0
    &&& m.instance_name == base.instance_name
    &&& m.cache_key_gen_version is None
}

/// Two requests that say the same: equal fields, compared by their views
/// where they hold text.
pub open spec fn same_request(pa: ProcessRequest, pb: ProcessRequest) -> bool {
    &&& pa.argv.deep_view() == pb.argv.deep_view()
    &&& pa.env.deep_view() == pb.env.deep_view()
    &&& opt_path_text(pa.working_directory) == opt_path_text(pb.working_directory)
    &&& pa.input_root@ == pb.input_root@
    &&& path_views(pa.output_files@) == path_views(pb.output_files@)
    &&& path_views(pa.output_directories@) == path_views(pb.output_directories@)
    &&& pa.timeout == pb.timeout
    &&& pa.description@ == pb.description@
    &&& pa.level == pb.level
    &&& opt_text(pa.jdk_home) == opt_text(pb.jdk_home)
    &&& pa.platform == pb.platform
    &&& pa.concurrency_available == pb.concurrency_available
    &&& pa.cache_scope == pb.cache_scope
    &&& pa.execution_strategy == pb.execution_strategy
    &&& pa.remote_cache_speculation_delay_millis == pb.remote_cache_speculation_delay_millis
}

/// The step after the store said whether it holds the input root.
pub open spec fn after_input_root(
    action: Digest,
    input_root: Digest,
    command: CommandMessage,
    working_directory: Option<RelativePath>,
    timeout: Option<DurationMessage>,
    base: Base,
    reply: Result<(), StoreError>,
    r: Progress,
) -> bool {
    let c = command@;
    match reply {
        Err(e) => store_error_outcome(input_root, e, r),
        Ok(()) => if !all_contained(c.output_files) {
            r matches Progress::Done(Err(e)) && names_first_invalid(e, c.output_files)
        } else if !all_contained(c.output_directories) {
            r matches Progress::Done(Err(e)) && names_first_invalid(e, c.output_directories)
        } else if timeout matches Some(d) && timeout_of(d@) is None {
            r matches Progress::Done(Err(ResolveError::InvalidTimeout { action: x })) && x
                == action
        } else {
            r matches Progress::Done(Ok((p, m))) && built_from_command(
                input_root,
                command,
                working_directory,
                match timeout {
                    Some(d) => timeout_of(d@),
                    None => None,
                },
                base,
                p,
                m,
            )
        },
    }
}

/// The step after the record's bytes, or the store's failure, came back.
pub open spec fn after_record(
    record: Digest,
    instance: String,
    strategy: ExecutionStrategy,
    platform: Platform,
    reply: Result<Vec<u8>, StoreError>,
    r: Progress,
) -> bool {
    match reply {
        Err(e) => store_error_outcome(record, e, r),
        Ok(b) => match uncached_result_message(b@) {
            None => r matches Progress::Done(Err(ResolveError::Decode { digest })) && digest
                == record,
            Some(found) => match (
                match found {
                    Some(m) => digest_of_model(m),
                    None => None,
                }
            ) {
                None => r matches Progress::Done(
                    Err(ResolveError::BadDigest { reference }),
                ) && reference == DigestRef::Action,
                Some(ad) => r matches Progress::Need(Pending::Action { action, base }) && action@
                    == ad && base.strategy == strategy && base.platform == platform
                    && base.instance_name == Some(instance),
            },
        },
    }
}

impl Pending {
    /// The digest that the store is asked for.
    pub fn digest(&self) -> (r: Digest)
        ensures
            r == match self {
                Pending::Action { action, .. } => *action,
                Pending::Command { command, .. } => *command,
                Pending::InputRoot { input_root, .. } => *input_root,
                Pending::Record { record, .. } => *record,
            },
    {
        match self {
            Pending::Action { action, .. } => *action,
            Pending::Command { command, .. } => *command,
            Pending::InputRoot { input_root, .. } => *input_root,
            Pending::Record { record, .. } => *record,
        }
    }

    /// Whether the store is asked for a directory rather than for bytes.
    pub fn wants_directory(&self) -> (r: bool)
        ensures
            r == self is InputRoot,
    {
        match self {
            Pending::InputRoot { .. } => true,
            _ => false,
        }
    }

    /// Goes on with the bytes that the store gave back, or its failure.
    pub fn resume(self, reply: Result<Vec<u8>, StoreError>) -> (r: Progress)
        requires
            !(self is InputRoot),
        ensures
            match self {
                Pending::Action { action, base } => after_action(action, base, reply, r),
                Pending::Command { action, command, input_root_digest: input_root, timeout, base } => after_command(
                    action,
                    command,
                    input_root,
                    timeout,
                    base,
                    reply,
                    r,
                ),
                Pending::Record { record, instance, strategy, platform } => after_record(
                    record,
                    instance,
                    strategy,
                    platform,
                    reply,
                    r,
                ),
                Pending::InputRoot { .. } => false,
            },
    {
        match self {
            Pending::Action { action, base } => resume_action(action, base, reply),
            Pending::Command { action, command, input_root_digest: input_root, timeout, base } => resume_command(
                action,
                command,
                input_root,
                timeout,
                base,
                reply,
            ),
            Pending::Record { record, instance, strategy, platform } => resume_record(
                record,
                instance,
                strategy,
                platform,
                reply,
            ),
            Pending::InputRoot { .. } => Progress::Done(Err(ResolveError::AmbiguousInput)),
        }
    }

    /// Goes on once the store said whether it holds the input root.
    pub fn resume_directory(self, reply: Result<(), StoreError>) -> (r: Progress)
        requires
            self is InputRoot,
        ensures
            match self {
                Pending::InputRoot {
                    action,
                    input_root,
                    command_message: command,
                    working_directory,
                    timeout,
                    base,
                } => after_input_root(
                    action,
                    input_root,
                    command,
                    working_directory,
                    timeout,
                    base,
                    reply,
                    r,
                ),
                _ => false,
            },
    {
        match self {
            Pending::InputRoot { action, input_root, command_message: command, working_directory, timeout, base } =>
            resume_input_root(action, input_root, command, working_directory, timeout, base, reply),
            _ => Progress::Done(Err(ResolveError::AmbiguousInput)),
        }
    }
}

fn store_error(digest: Digest, e: StoreError) -> (r: Progress)
    ensures
        store_error_outcome(digest, e, r),
{
    match e {
        StoreError::Missing => Progress::Done(Err(ResolveError::StoreMiss { digest })),
        StoreError::Failed(message) => Progress::Done(
            Err(ResolveError::StoreFailure { digest, message }),
        ),
    }
}

fn resume_action(action: Digest, base: Base, reply: Result<Vec<u8>, StoreError>) -> (r: Progress)
    ensures
        after_action(action, base, reply, r),
{
    let bytes = match reply {
        Err(e) => return store_error(action, e),
        Ok(b) => b,
    };
    let a = match decode_action_message(bytes.as_slice()) {
        None => return Progress::Done(Err(ResolveError::Decode { digest: action })),
        Some(a) => a,
    };
    let command = match &a.command_digest {
        None => return Progress::Done(Err(ResolveError::BadDigest { reference: DigestRef::Command })),
        Some(m) => match require_digest(m, DigestRef::Command) {
            Ok(d) => d,
            Err(e) => return Progress::Done(Err(e)),
        },
    };
    Progress::Need(
        Pending::Command {
            action,
            command,
            input_root_digest: a.input_root_digest,
            timeout: a.timeout,
            base,
        },
    )
}

fn resume_command(
    action: Digest,
    command: Digest,
    input_root: Option<DigestMessage>,
    timeout: Option<DurationMessage>,
    base: Base,
    reply: Result<Vec<u8>, StoreError>,
) -> (r: Progress)
    ensures
        after_command(action, command, input_root, timeout, base, reply, r),
{
    let bytes = match reply {
        Err(e) => return store_error(command, e),
        Ok(b) => b,
    };
    let c = match decode_command_message(bytes.as_slice()) {
        None => return Progress::Done(Err(ResolveError::Decode { digest: command })),
        Some(c) => c,
    };
    let working_directory = if c.working_directory.as_str().unicode_len() == 0 {
        None
    } else {
        match RelativePath::new(c.working_directory.as_str()) {
            Ok(p) => Some(p),
            Err(e) => return Progress::Done(Err(e)),
        }
    };
    let root = match &input_root {
        None => return Progress::Done(
            Err(ResolveError::BadDigest { reference: DigestRef::InputRoot }),
        ),
        Some(m) => match require_digest(m, DigestRef::InputRoot) {
            Ok(d) => d,
            Err(e) => return Progress::Done(Err(e)),
        },
    };
    Progress::Need(
        Pending::InputRoot {
            action,
            input_root: root,
            command_message: c,
            working_directory,
            timeout,
            base,
        },
    )
}

fn resume_input_root(
    action: Digest,
    input_root: Digest,
    command: CommandMessage,
    working_directory: Option<RelativePath>,
    timeout: Option<DurationMessage>,
    base: Base,
    reply: Result<(), StoreError>,
) -> (r: Progress)
    ensures
        after_input_root(
            action,
            input_root,
            command,
            working_directory,
            timeout,
            base,
            reply,
            r,
        ),
{
    if let Err(e) = reply {
        return store_error(input_root, e);
    }
    let ghost c = command@;
    let output_files = match relative_paths(&command.output_files) {
        Ok(v) => v,
        Err(e) => return Progress::Done(Err(e)),
    };
    let output_directories = match relative_paths(&command.output_directories) {
        Ok(v) => v,
        Err(e) => return Progress::Done(Err(e)),
    };
    let converted = match &timeout {
        None => None,
        Some(d) => match convert_timeout(d) {
            None => return Progress::Done(Err(ResolveError::InvalidTimeout { action })),
            Some(t) => Some(t),
        },
    };
    let CommandMessage { arguments, environment_variables, .. } = command;
    let process = ProcessRequest {
        argv: arguments,
        env: environment_variables,
        working_directory,
        input_root,
        output_files,
        output_directories,
        timeout: converted,
        description: String::new(),
        level: Level::Error,
        jdk_home: None,
        platform: base.platform,
        concurrency_available: 0,
        cache_scope: ProcessCacheScope::Always,
        execution_strategy: base.strategy,
        remote_cache_speculation_delay_millis: 0,
    };
    let metadata = ProcessMetadata { instance_name: base.instance_name, cache_key_gen_version: None };
    Progress::Done(Ok((process, metadata)))
}

fn resume_record(
    record: Digest,
    instance: String,
    strategy: ExecutionStrategy,
    platform: Platform,
    reply: Result<Vec<u8>, StoreError>,
) -> (r: Progress)
    ensures
        after_record(record, instance, strategy, platform, reply, r),
{
    let bytes = match reply {
        Err(e) => return store_error(record, e),
        Ok(b) => b,
    };
    let found = match decode_uncached_result_message(bytes.as_slice()) {
        None => return Progress::Done(Err(ResolveError::Decode { digest: record })),
        Some(f) => f,
    };
    let action = match &found {
        None => return Progress::Done(Err(ResolveError::BadDigest { reference: DigestRef::Action })),
        Some(m) => match require_digest(m, DigestRef::Action) {
            Ok(d) => d,
            Err(e) => return Progress::Done(Err(e)),
        },
    };
    Progress::Need(
        Pending::Action {
            action,
            base: Base { strategy, platform, instance_name: Some(instance) },
        },
    )
}

/// Starts resolving the action that `action_digest` names.
pub fn extract_request_from_action_digest(
    action_digest: Digest,
    execution_strategy: ExecutionStrategy,
    platform: Platform,
    instance_name: Option<String>,
) -> (r: Pending)
    ensures
        r == (Pending::Action {
            action: action_digest,
            base: Base { strategy: execution_strategy, platform, instance_name },
        }),
{
    Pending::Action {
        action: action_digest,
        base: Base { strategy: execution_strategy, platform, instance_name },
    }
}

/// Where resolving a result URL starts.
pub open spec fn url_outcome(
    url: Seq<char>,
    strategy: ExecutionStrategy,
    platform: Platform,
    r: Progress,
) -> bool {
    match result_url(url) {
        None => r matches Progress::Done(Err(e)) && url_error(url, e),
        Some((UrlKind::Action, instance, digest)) => r matches Progress::Need(
            Pending::Action { action, base },
        ) && action@ == digest && base.strategy == strategy && base.platform == platform
            && opt_text(base.instance_name) == Some(instance),
        Some((UrlKind::UncachedActionResult, instance, digest)) => r matches Progress::Need(
            Pending::Record { record, instance: i, strategy: s, platform: p },
        ) && record@ == digest && i@ == instance && s == strategy && p == platform,
    }
}

/// Starts resolving the action that a result URL names, directly or
/// through an uncached-action-result record.
pub fn extract_request_from_buildbarn_url(
    buildbarn_url: &str,
    execution_strategy: ExecutionStrategy,
    platform: Platform,
) -> (r: Progress)
    ensures
        url_outcome(buildbarn_url@, execution_strategy, platform, r),
{
    let parsed = match parse_result_url(buildbarn_url) {
        Ok(p) => p,
        Err(e) => return Progress::Done(Err(e)),
    };
    let ResultUrl { kind, instance, digest } = parsed;
    match kind {
        UrlKind::Action => Progress::Need(
            extract_request_from_action_digest(
                digest,
                execution_strategy,
                platform,
                Some(instance),
            ),
        ),
        UrlKind::UncachedActionResult => Progress::Need(
            Pending::Record {
                record: digest,
                instance,
                strategy: execution_strategy,
                platform,
            },
        ),
    }
}

/// The three input shapes.
pub enum InputShape {
    Flat,
    ActionDigest,
    ResultUrl,
}

/// The shape that the arguments select: exactly one of them complete, the
/// others wholly absent.
pub open spec fn input_shape(args: RequestArgs) -> Option<InputShape> {
    let c = args.command;
    let a = args.action_digest;
    match (
        c.input_digest,
        c.input_digest_length,
        a.action_digest,
        a.action_digest_length,
        args.buildbarn_url,
    ) {
        (Some(_), Some(_), None, None, None) => Some(InputShape::Flat),
        (None, None, Some(_), Some(_), None) => Some(InputShape::ActionDigest),
        (None, None, None, None, Some(_)) => Some(InputShape::ResultUrl),
        _ => None,
    }
}

/// Where resolving the arguments starts.
pub open spec fn request_outcome(
    args: RequestArgs,
    strategy: ExecutionStrategy,
    platform: Platform,
    r: Progress,
) -> bool {
    match input_shape(args) {
        None => r matches Progress::Done(Err(ResolveError::AmbiguousInput)),
        Some(InputShape::Flat) => r matches Progress::Done(res) && flat_outcome(
            args,
            Digest {
                hash: args.command.input_digest->0,
                size_bytes: args.command.input_digest_length->0,
            },
            strategy,
            platform,
            res,
        ),
        Some(InputShape::ActionDigest) => r matches Progress::Need(
            Pending::Action { action, base },
        ) && action == (Digest {
            hash: args.action_digest.action_digest->0,
            size_bytes: args.action_digest.action_digest_length->0,
        }) && base.strategy == strategy && base.platform == platform && opt_text(
            base.instance_name,
        ) == opt_text(args.remote_instance_name),
        Some(InputShape::ResultUrl) => url_outcome(args.buildbarn_url->0@, strategy, platform, r),
    }
}

/// Starts resolving a request from whichever input shape the arguments
/// select; none, or more than one, is an error that needs no store.
pub fn make_request(args: &RequestArgs, execution_strategy: ExecutionStrategy, platform: Platform) -> (r:
    Progress)
    ensures
        request_outcome(*args, execution_strategy, platform, r),
{
    match (
        args.command.input_digest,
        args.command.input_digest_length,
        args.action_digest.action_digest,
        args.action_digest.action_digest_length,
        &args.buildbarn_url,
    ) {
        (Some(input_digest), Some(input_digest_length), None, None, None) => Progress::Done(
            make_request_from_flat_args(
                args,
                Digest::new(input_digest, input_digest_length),
                execution_strategy,
                platform,
            ),
        ),
        (None, None, Some(action_fingerprint), Some(action_digest_length), None) => Progress::Need(
            extract_request_from_action_digest(
                Digest::new(action_fingerprint, action_digest_length),
                execution_strategy,
                platform,
                clone_opt_string(&args.remote_instance_name),
            ),
        ),
        (None, None, None, None, Some(buildbarn_url)) => extract_request_from_buildbarn_url(
            buildbarn_url.as_str(),
            execution_strategy,
            platform,
        ),
        _ => Progress::Done(Err(ResolveError::AmbiguousInput)),
    }
}

} // verus!
