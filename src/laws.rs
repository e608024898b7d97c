//! Properties that relate several steps of resolution and planning.

use vstd::prelude::*;
use crate::error::ResolveError;
use crate::path::parent_segment_at;
use crate::pipeline::{plan_outcome, RemoteTuning, RunnerPlan};
use crate::proto::{uncached_result_message, DigestModel};
use crate::request::{ExecutionStrategy, Platform, ProcessMetadata};
use crate::resolve::{
    after_action, after_command, after_input_root, after_record, same_request, Base, digest_of_model, input_shape, opt_text, request_outcome,
    url_outcome, InputShape, Pending, Progress, RequestArgs, StoreError,
};
use crate::url::{result_url, url_kind, url_parts, UrlKind};
use crate::digest::Digest;

verus! {

/// Giving none of the three input shapes, or more than one, is exactly what
/// yields the ambiguous-input error, and it comes before any store access.
pub proof fn lemma_ambiguous_input(
    args: RequestArgs,
    strategy: ExecutionStrategy,
    platform: Platform,
    r: Progress,
)
    requires
        request_outcome(args, strategy, platform, r),
    ensures
        (r matches Progress::Done(Err(ResolveError::AmbiguousInput))) <==> input_shape(args) is None,
{
    if input_shape(args) matches Some(InputShape::Flat) {
        let files = args.command.output_file_path.deep_view();
        let dirs = args.command.output_directory_path.deep_view();
        if r matches Progress::Done(Err(ResolveError::AmbiguousInput)) {
            if !crate::request::all_contained(files) {
                let e = ResolveError::AmbiguousInput;
                assert(!crate::request::names_first_invalid(e, files));
            } else if !crate::request::all_contained(dirs) {
                let e = ResolveError::AmbiguousInput;
                assert(!crate::request::names_first_invalid(e, dirs));
            }
        }
    }
}

/// Flat arguments with an output file path that holds a `..` segment are
/// rejected with a path error, before any digest is resolved.
pub proof fn lemma_parent_segment_output_file_rejected(
    args: RequestArgs,
    strategy: ExecutionStrategy,
    platform: Platform,
    r: Progress,
    i: int,
    k: int,
)
    requires
        request_outcome(args, strategy, platform, r),
        input_shape(args) == Some(InputShape::Flat),
        0 <= i < args.command.output_file_path@.len(),
        parent_segment_at(args.command.output_file_path.deep_view()[i], k),
    ensures
        r matches Progress::Done(Err(ResolveError::InvalidPath { .. })),
{
    let files = args.command.output_file_path.deep_view();
    assert(!crate::path::is_contained_relative(files[i]));
    assert(!crate::request::all_contained(files));
}

/// The same for an output directory path.
pub proof fn lemma_parent_segment_output_directory_rejected(
    args: RequestArgs,
    strategy: ExecutionStrategy,
    platform: Platform,
    r: Progress,
    i: int,
    k: int,
)
    requires
        request_outcome(args, strategy, platform, r),
        input_shape(args) == Some(InputShape::Flat),
        0 <= i < args.command.output_directory_path@.len(),
        parent_segment_at(args.command.output_directory_path.deep_view()[i], k),
    ensures
        r matches Progress::Done(Err(ResolveError::InvalidPath { .. })),
{
    let dirs = args.command.output_directory_path.deep_view();
    assert(!crate::path::is_contained_relative(dirs[i]));
    assert(!crate::request::all_contained(dirs));
}

/// A command that the store does not hold ends the resolution with a
/// store-miss error naming the command's digest.
pub proof fn lemma_missing_command_is_store_miss(
    action: Digest,
    command: Digest,
    pending: Pending,
    r: Progress,
)
    requires
        pending matches Pending::Command { action: a, command: c, input_root_digest: input_root, timeout, base } && a
            == action && c == command && after_command(
            a,
            c,
            input_root,
            timeout,
            base,
            Err(StoreError::Missing),
            r,
        ),
    ensures
        r matches Progress::Done(Err(ResolveError::StoreMiss { digest })) && digest == command,
{
}

/// Naming an uncached-action-result record whose action digest is `D`
/// leads, once the record is read, to the same pending load as naming
/// `.../action/<D>` directly: the same action digest, strategy, platform
/// and instance name.
pub proof fn lemma_record_url_meets_action_url(
    record_url: Seq<char>,
    action_url: Seq<char>,
    instance: Seq<char>,
    d: (Seq<u8>, usize),
    m: DigestModel,
    strategy: ExecutionStrategy,
    platform: Platform,
    started: Progress,
    record: Vec<u8>,
    after: Progress,
    direct: Progress,
)
    requires
        result_url(record_url) matches Some((UrlKind::UncachedActionResult, i, _)) && i == instance,
        result_url(action_url) == Some((UrlKind::Action, instance, d)),
        uncached_result_message(record@) == Some(Some(m)),
        digest_of_model(m) == Some(d),
        url_outcome(record_url, strategy, platform, started),
        started matches Progress::Need(Pending::Record { record: rd, instance: ri, strategy: s, platform: p })
            && after_record(rd, ri, s, p, Ok(record), after),
        url_outcome(action_url, strategy, platform, direct),
    ensures
        after matches Progress::Need(Pending::Action { action: a1, base: b1 }) && direct matches Progress::Need(
            Pending::Action { action: a2, base: b2 },
        ) && a1@ == a2@ && b1.strategy == b2.strategy && b1.platform == b2.platform && opt_text(
            b1.instance_name,
        ) == opt_text(b2.instance_name),
{
}

/// Two resolutions waiting for the same action, with the same strategy,
/// platform and instance name, build the same request from the same store
/// replies: together with the law above, a result URL naming an
/// uncached-action-result record and one naming its action directly
/// resolve to the same request.
pub proof fn lemma_same_action_same_request(
    action1: Digest,
    base1: Base,
    action2: Digest,
    base2: Base,
    action_reply: Result<Vec<u8>, StoreError>,
    command_reply: Result<Vec<u8>, StoreError>,
    directory_reply: Result<(), StoreError>,
    mid1: Progress,
    mid2: Progress,
    late1: Progress,
    late2: Progress,
    r1: Progress,
    r2: Progress,
)
    requires
        action1@ == action2@,
        base1.strategy == base2.strategy,
        base1.platform == base2.platform,
        opt_text(base1.instance_name) == opt_text(base2.instance_name),
        after_action(action1, base1, action_reply, mid1),
        after_action(action2, base2, action_reply, mid2),
        mid1 matches Progress::Need(Pending::Command { action, command, input_root_digest: input_root, timeout, base })
            && after_command(action, command, input_root, timeout, base, command_reply, late1),
        mid2 matches Progress::Need(Pending::Command { action, command, input_root_digest: input_root, timeout, base })
            && after_command(action, command, input_root, timeout, base, command_reply, late2),
        late1 matches Progress::Need(
            Pending::InputRoot { action, input_root, command_message: command, working_directory, timeout, base },
        ) && after_input_root(
            action,
            input_root,
            command,
            working_directory,
            timeout,
            base,
            directory_reply,
            r1,
        ),
        late2 matches Progress::Need(
            Pending::InputRoot { action, input_root, command_message: command, working_directory, timeout, base },
        ) && after_input_root(
            action,
            input_root,
            command,
            working_directory,
            timeout,
            base,
            directory_reply,
            r2,
        ),
    ensures
        r1 matches Progress::Done(Ok((pa, ma))) <==> r2 matches Progress::Done(Ok(_)),
        r1 matches Progress::Done(Ok((pa, ma))) ==> (r2 matches Progress::Done(Ok((pb, mb)))
            && same_request(pa, pb) && opt_text(ma.instance_name) == opt_text(mb.instance_name)
            && ma.cache_key_gen_version == mb.cache_key_gen_version),
{
}

/// A result URL with fewer than four segments, or an unknown kind, fails
/// with a malformed-URL error naming it, before any store access.
pub proof fn lemma_malformed_url(
    url: Seq<char>,
    strategy: ExecutionStrategy,
    platform: Platform,
    r: Progress,
)
    requires
        url_outcome(url, strategy, platform, r),
        url_parts(url).len() < 4 || url_kind(url_parts(url)[url_parts(url).len() - 4]) is None,
    ensures
        r matches Progress::Done(Err(ResolveError::MalformedUrl { url: u })) && u@ == url,
{
}

/// With a server the chain is the cache layer outermost, the raw remote
/// runner inside it; without one it is a local runner, with no cache layer.
pub proof fn lemma_runner_layers(
    server: Option<String>,
    metadata: ProcessMetadata,
    tuning: RemoteTuning,
    work_dir: String,
    named_cache_dir: String,
    r: RunnerPlan,
)
    requires
        plan_outcome(server, metadata, tuning, work_dir, named_cache_dir, r),
    ensures
        server is Some <==> r is RemoteCached,
        server is None <==> r is Local,
{
}

} // verus!
