use std::collections::HashMap;

use process_executor::digest::{Digest, Fingerprint};
use process_executor::error::{DigestRef, ResolveError};
use process_executor::keyvalue::{collection_from_keyvalues, key_value};
use process_executor::path::RelativePath;
use process_executor::pipeline::{
    apply_run_under, build_runner_plan, prepend_words, select_store, select_strategy,
    CacheContentBehavior, KeepSandboxes, RemoteCacheWarningsBehavior, RemoteTuning, RunnerPlan,
    StoreChoice,
};
use process_executor::proto::{decode_action_message, decode_command_message};
use process_executor::request::{ExecutionStrategy, Level, Platform, ProcessCacheScope, ProcessMetadata, ProcessRequest, Timeout};
use process_executor::resolve::{
    make_request, ActionDigestSpec, CommandSpec, Pending, Progress, RequestArgs, StoreError,
};
use process_executor::url::{parse_decimal_usize, parse_result_url, UrlKind};
use process_executor::wire::read_varint;

fn varint(mut v: u64, out: &mut Vec<u8>) {
    loop {
        if v < 0x80 {
            out.push(v as u8);
            return;
        }
        out.push(((v & 0x7f) | 0x80) as u8);
        v >>= 7;
    }
}

fn field_bytes(tag: u64, payload: &[u8], out: &mut Vec<u8>) {
    varint(tag << 3 | 2, out);
    varint(payload.len() as u64, out);
    out.extend_from_slice(payload);
}

fn field_varint(tag: u64, v: u64, out: &mut Vec<u8>) {
    varint(tag << 3, out);
    varint(v, out);
}

fn hex(bytes: &[u8; 32]) -> String {
    bytes.iter().map(|b| format!("{:02x}", b)).collect()
}

fn fp(n: u8) -> [u8; 32] {
    let mut a = [0u8; 32];
    for (i, b) in a.iter_mut().enumerate() {
        *b = n.wrapping_add(i as u8);
    }
    a
}

fn digest_message(hash: &[u8; 32], size: u64) -> Vec<u8> {
    let mut out = Vec::new();
    field_bytes(1, hex(hash).as_bytes(), &mut out);
    field_varint(2, size, &mut out);
    out
}

fn action_bytes(command: &[u8; 32], command_len: u64, root: &[u8; 32], timeout_secs: Option<u64>) -> Vec<u8> {
    let mut out = Vec::new();
    field_bytes(1, &digest_message(command, command_len), &mut out);
    field_bytes(2, &digest_message(root, 10), &mut out);
    if let Some(s) = timeout_secs {
        let mut d = Vec::new();
        field_varint(1, s, &mut d);
        field_bytes(6, &d, &mut out);
    }
    out
}

fn command_bytes(args: &[&str], env: &[(&str, &str)], outputs: &[&str], wd: &str) -> Vec<u8> {
    let mut out = Vec::new();
    for a in args {
        field_bytes(1, a.as_bytes(), &mut out);
    }
    for (n, v) in env {
        let mut e = Vec::new();
        field_bytes(1, n.as_bytes(), &mut e);
        field_bytes(2, v.as_bytes(), &mut e);
        field_bytes(2, &e, &mut out);
    }
    for o in outputs {
        field_bytes(3, o.as_bytes(), &mut out);
    }
    if !wd.is_empty() {
        field_bytes(6, wd.as_bytes(), &mut out);
    }
    out
}

struct MemStore {
    blobs: HashMap<[u8; 32], Vec<u8>>,
    directories: Vec<[u8; 32]>,
    loads: usize,
}

impl MemStore {
    fn drive(&mut self, mut progress: Progress) -> Result<(ProcessRequest, ProcessMetadata), ResolveError> {
        loop {
            match progress {
                Progress::Done(r) => return r,
                Progress::Need(p) => {
                    self.loads += 1;
                    let d = p.digest();
                    if p.wants_directory() {
                        let reply = if self.directories.contains(&d.hash.0) { Ok(()) } else { Err(StoreError::Missing) };
                        progress = p.resume_directory(reply);
                    } else {
                        let reply = match self.blobs.get(&d.hash.0) {
                            Some(b) => Ok(b.clone()),
                            None => Err(StoreError::Missing),
                        };
                        progress = p.resume(reply);
                    }
                }
            }
        }
    }
}

fn empty_args() -> RequestArgs {
    RequestArgs {
        command: CommandSpec {
            argv: vec![],
            input_digest: None,
            input_digest_length: None,
            extra_platform_property: vec![],
            env: vec![],
            jdk: None,
            output_file_path: vec![],
            output_directory_path: vec![],
            working_directory: None,
            concurrency_available: None,
            cache_key_gen_version: None,
        },
        action_digest: ActionDigestSpec { action_digest: None, action_digest_length: None },
        buildbarn_url: None,
        remote_instance_name: None,
    }
}

fn store_with_action(timeout: Option<u64>) -> (MemStore, [u8; 32]) {
    let action_fp = fp(1);
    let command_fp = fp(2);
    let root_fp = fp(3);
    let cmd = command_bytes(&["/bin/echo", "hi"], &[("A", "1"), ("B", "2")], &["out.txt"], "sub");
    let act = action_bytes(&command_fp, cmd.len() as u64, &root_fp, timeout);
    let mut blobs = HashMap::new();
    blobs.insert(action_fp, act);
    blobs.insert(command_fp, cmd);
    (MemStore { blobs, directories: vec![root_fp], loads: 0 }, action_fp)
}

#[test]
fn key_value_splits_at_first_equals() {
    let (k, v) = key_value("FOO=bar=baz");
    assert_eq!(k, "FOO");
    assert_eq!(v, "bar=baz");
    let (k, v) = key_value("ALONE");
    assert_eq!(k, "ALONE");
    assert_eq!(v, "");
    let all = collection_from_keyvalues(&vec!["a=1".to_string(), "b=".to_string()]);
    assert_eq!(all, vec![("a".to_string(), "1".to_string()), ("b".to_string(), "".to_string())]);
}

#[test]
fn relative_paths_are_checked() {
    assert!(RelativePath::new("a/b").is_ok());
    assert!(RelativePath::new("a/..b/c.").is_ok());
    assert!(RelativePath::new("").is_ok());
    assert!(matches!(RelativePath::new("../x"), Err(ResolveError::InvalidPath { path }) if path == "../x"));
    assert!(RelativePath::new("a/../b").is_err());
    assert!(RelativePath::new("a/..").is_err());
    assert!(RelativePath::new("/abs").is_err());
}

#[test]
fn fingerprints_parse_from_hex() {
    let text = hex(&fp(7));
    let f = Fingerprint::from_hex_string(&text).unwrap();
    assert_eq!(f.0, fp(7));
    let upper = Fingerprint::from_hex_string(&text.to_uppercase()).unwrap();
    assert_eq!(upper.0, fp(7));
    assert!(Fingerprint::from_hex_string("abc").is_none());
    let mut bad = text.clone();
    bad.replace_range(0..1, "g");
    assert!(Fingerprint::from_hex_string(&bad).is_none());
}

#[test]
fn varints_decode() {
    assert_eq!(read_varint(&[0x96, 0x01], 0), Some((150, 2)));
    assert_eq!(read_varint(&[0x00, 0x05], 1), Some((5, 2)));
    assert_eq!(read_varint(&[0x80], 0), None);
    assert_eq!(read_varint(&[0xff; 10], 0), None);
}

#[test]
fn decimal_lengths_parse() {
    assert_eq!(parse_decimal_usize("42"), Some(42));
    assert_eq!(parse_decimal_usize("+7"), Some(7));
    assert_eq!(parse_decimal_usize(""), None);
    assert_eq!(parse_decimal_usize("+"), None);
    assert_eq!(parse_decimal_usize("4x"), None);
    assert_eq!(parse_decimal_usize("99999999999999999999999"), None);
}

#[test]
fn result_urls_parse() {
    let h = hex(&fp(9));
    let url = format!("https://bb.example/inst/action/main/{}/123/", h);
    let p = parse_result_url(&url).unwrap();
    assert!(p.kind == UrlKind::Action);
    assert_eq!(p.instance, "main");
    assert_eq!(p.digest.hash.0, fp(9));
    assert_eq!(p.digest.size_bytes, 123);
    let p = parse_result_url(&format!("x/uncached_action_result/i/{}/5", h)).unwrap();
    assert!(p.kind == UrlKind::UncachedActionResult);
    assert!(matches!(parse_result_url("a/b/c"), Err(ResolveError::MalformedUrl { url }) if url == "a/b/c"));
    assert!(matches!(parse_result_url(&format!("x/blob/i/{}/5", h)), Err(ResolveError::MalformedUrl { .. })));
    assert!(matches!(parse_result_url(&format!("x/action/i/{}/five", h)), Err(ResolveError::MalformedUrl { .. })));
    assert!(matches!(parse_result_url("x/action/i/zz/5"), Err(ResolveError::InvalidFingerprint { text }) if text == "zz"));
}

#[test]
fn no_shape_or_two_shapes_is_ambiguous() {
    let args = empty_args();
    assert!(matches!(make_request(&args, ExecutionStrategy::Local, Platform::LinuxX86_64), Progress::Done(Err(ResolveError::AmbiguousInput))));
    let mut args = empty_args();
    args.command.input_digest = Some(Fingerprint(fp(1)));
    args.command.input_digest_length = Some(3);
    args.buildbarn_url = Some("a/action/b/c/d".to_string());
    assert!(matches!(make_request(&args, ExecutionStrategy::Local, Platform::LinuxX86_64), Progress::Done(Err(ResolveError::AmbiguousInput))));
    let mut args = empty_args();
    args.command.input_digest = Some(Fingerprint(fp(1)));
    assert!(matches!(make_request(&args, ExecutionStrategy::Local, Platform::LinuxX86_64), Progress::Done(Err(ResolveError::AmbiguousInput))));
}

#[test]
fn flat_echo_request_resolves() {
    let mut args = empty_args();
    args.command.argv = vec!["/bin/echo".to_string(), "hi".to_string()];
    args.command.input_digest = Some(Fingerprint(fp(4)));
    args.command.input_digest_length = Some(0);
    args.remote_instance_name = Some("main".to_string());
    match make_request(&args, ExecutionStrategy::Local, Platform::LinuxX86_64) {
        Progress::Done(Ok((p, m))) => {
            assert_eq!(p.argv, vec!["/bin/echo".to_string(), "hi".to_string()]);
            assert!(p.env.is_empty());
            assert!(p.output_files.is_empty() && p.output_directories.is_empty());
            assert_eq!(p.input_root.hash.0, fp(4));
            assert!(p.timeout == Some(Timeout { secs: 900, nanos: 0 }));
            assert_eq!(p.description, "process_executor");
            assert!(p.level == Level::Info);
            assert!(p.cache_scope == ProcessCacheScope::Always);
            assert!(matches!(p.execution_strategy, ExecutionStrategy::Local));
            assert_eq!(p.concurrency_available, 0);
            assert_eq!(p.remote_cache_speculation_delay_millis, 0);
            assert_eq!(m.instance_name.as_deref(), Some("main"));
        }
        _ => panic!("flat arguments did not resolve"),
    }
}

#[test]
fn flat_request_with_parent_segment_is_rejected() {
    let mut args = empty_args();
    args.command.argv = vec!["/bin/true".to_string()];
    args.command.input_digest = Some(Fingerprint(fp(4)));
    args.command.input_digest_length = Some(0);
    args.command.output_file_path = vec!["ok.txt".to_string(), "../escape.txt".to_string()];
    assert!(matches!(make_request(&args, ExecutionStrategy::Local, Platform::LinuxX86_64),
        Progress::Done(Err(ResolveError::InvalidPath { path })) if path == "../escape.txt"));
    let mut args2 = empty_args();
    args2.command.input_digest = Some(Fingerprint(fp(4)));
    args2.command.input_digest_length = Some(0);
    args2.command.working_directory = Some("/abs".to_string());
    assert!(matches!(make_request(&args2, ExecutionStrategy::Local, Platform::LinuxX86_64),
        Progress::Done(Err(ResolveError::InvalidPath { .. }))));
}

#[test]
fn action_digest_timeout_is_exact() {
    let (mut store, action_fp) = store_with_action(Some(5));
    let mut args = empty_args();
    args.action_digest.action_digest = Some(Fingerprint(action_fp));
    args.action_digest.action_digest_length = Some(10);
    args.remote_instance_name = Some("inst".to_string());
    let start = make_request(&args, ExecutionStrategy::Local, Platform::MacosArm64);
    let (p, m) = store.drive(start).unwrap();
    assert!(p.timeout == Some(Timeout { secs: 5, nanos: 0 }));
    assert_eq!(p.argv, vec!["/bin/echo".to_string(), "hi".to_string()]);
    assert_eq!(p.env, vec![("A".to_string(), "1".to_string()), ("B".to_string(), "2".to_string())]);
    assert_eq!(p.working_directory.as_ref().unwrap().as_str(), "sub");
    assert_eq!(p.output_files.len(), 1);
    assert_eq!(p.output_files[0].as_str(), "out.txt");
    assert_eq!(p.input_root.hash.0, fp(3));
    assert_eq!(p.input_root.size_bytes, 10);
    assert!(p.level == Level::Error);
    assert_eq!(p.description, "");
    assert!(p.platform == Platform::MacosArm64);
    assert_eq!(m.instance_name.as_deref(), Some("inst"));
    assert!(m.cache_key_gen_version.is_none());
    assert_eq!(store.loads, 3);
}

#[test]
fn action_without_timeout_has_none() {
    let (mut store, action_fp) = store_with_action(None);
    let start = Progress::Need(process_executor::resolve::extract_request_from_action_digest(
        Digest::new(Fingerprint(action_fp), 1), ExecutionStrategy::Local, Platform::LinuxX86_64, None));
    let (p, _) = store.drive(start).unwrap();
    assert!(p.timeout.is_none());
}

#[test]
fn missing_command_is_a_store_miss() {
    let (mut store, action_fp) = store_with_action(Some(5));
    store.blobs.remove(&fp(2));
    let start = Progress::Need(process_executor::resolve::extract_request_from_action_digest(
        Digest::new(Fingerprint(action_fp), 1), ExecutionStrategy::Local, Platform::LinuxX86_64, None));
    match store.drive(start) {
        Err(ResolveError::StoreMiss { digest }) => assert_eq!(digest.hash.0, fp(2)),
        other => panic!("unexpected: {:?}", other.err()),
    }
}

#[test]
fn missing_input_root_and_bad_bytes_fail() {
    let (mut store, action_fp) = store_with_action(Some(5));
    store.directories.clear();
    let start = Progress::Need(process_executor::resolve::extract_request_from_action_digest(
        Digest::new(Fingerprint(action_fp), 1), ExecutionStrategy::Local, Platform::LinuxX86_64, None));
    assert!(matches!(store.drive(start), Err(ResolveError::StoreMiss { digest }) if digest.hash.0 == fp(3)));
    let (mut store, action_fp) = store_with_action(Some(5));
    store.blobs.insert(action_fp, vec![0xff, 0xff]);
    let start = Progress::Need(process_executor::resolve::extract_request_from_action_digest(
        Digest::new(Fingerprint(action_fp), 1), ExecutionStrategy::Local, Platform::LinuxX86_64, None));
    assert!(matches!(store.drive(start), Err(ResolveError::Decode { digest }) if digest.hash.0 == action_fp));
    let (mut store, action_fp) = store_with_action(Some(5));
    store.blobs.insert(action_fp, vec![]);
    let start = Progress::Need(process_executor::resolve::extract_request_from_action_digest(
        Digest::new(Fingerprint(action_fp), 1), ExecutionStrategy::Local, Platform::LinuxX86_64, None));
    assert!(matches!(store.drive(start), Err(ResolveError::BadDigest { reference: DigestRef::Command })));
}

#[test]
fn store_failure_is_reported() {
    let pending = process_executor::resolve::extract_request_from_action_digest(
        Digest::new(Fingerprint(fp(1)), 1), ExecutionStrategy::Local, Platform::LinuxX86_64, None);
    match pending.resume(Err(StoreError::Failed("down".to_string()))) {
        Progress::Done(Err(ResolveError::StoreFailure { digest, message })) => {
            assert_eq!(digest.hash.0, fp(1));
            assert_eq!(message, "down");
        }
        _ => panic!("store failure not reported"),
    }
}

#[test]
fn uncached_result_url_matches_action_url() {
    let (mut store, action_fp) = store_with_action(Some(7));
    let record_fp = fp(50);
    let mut record = Vec::new();
    field_bytes(1, &digest_message(&action_fp, 77), &mut record);
    store.blobs.insert(record_fp, record.clone());
    let via_record = format!("https://bb/x/uncached_action_result/inst/{}/{}", hex(&record_fp), record.len());
    let direct = format!("https://bb/x/action/inst/{}/77", hex(&action_fp));
    let mut a1 = empty_args();
    a1.buildbarn_url = Some(via_record);
    let mut a2 = empty_args();
    a2.buildbarn_url = Some(direct);
    let (pa, ma) = store.drive(make_request(&a1, ExecutionStrategy::Local, Platform::LinuxX86_64)).unwrap();
    let (pb, mb) = store.drive(make_request(&a2, ExecutionStrategy::Local, Platform::LinuxX86_64)).unwrap();
    assert_eq!(pa.argv, pb.argv);
    assert_eq!(pa.env, pb.env);
    assert!(pa.timeout == pb.timeout && pa.timeout == Some(Timeout { secs: 7, nanos: 0 }));
    assert_eq!(pa.input_root.hash.0, pb.input_root.hash.0);
    assert_eq!(pa.output_files.len(), pb.output_files.len());
    assert_eq!(pa.working_directory.unwrap().as_str(), pb.working_directory.unwrap().as_str());
    assert_eq!(ma.instance_name, mb.instance_name);
    assert_eq!(ma.instance_name.as_deref(), Some("inst"));
}

#[test]
fn short_or_unknown_urls_need_no_store() {
    let mut args = empty_args();
    args.buildbarn_url = Some("only/three/parts".to_string());
    assert!(matches!(make_request(&args, ExecutionStrategy::Local, Platform::LinuxX86_64),
        Progress::Done(Err(ResolveError::MalformedUrl { url })) if url == "only/three/parts"));
    args.buildbarn_url = Some(format!("a/tree/i/{}/1", hex(&fp(1))));
    assert!(matches!(make_request(&args, ExecutionStrategy::Local, Platform::LinuxX86_64),
        Progress::Done(Err(ResolveError::MalformedUrl { .. }))));
}

#[test]
fn runner_chain_layers() {
    let md = ProcessMetadata { instance_name: Some("i".to_string()), cache_key_gen_version: None };
    let tuning = RemoteTuning { overall_deadline_secs: 600, execution_rpc_concurrency: 128, cache_rpc_concurrency: 64 };
    match build_runner_plan(Some("host:1".to_string()), &md, &tuning, "/w".to_string(), "/n".to_string()) {
        RunnerPlan::RemoteCached(c) => {
            assert_eq!(c.address, "host:1");
            assert_eq!(c.inner.address, "host:1");
            assert_eq!(c.inner.instance_name.as_deref(), Some("i"));
            assert!(c.content_behavior == CacheContentBehavior::Defer);
            assert!(c.warnings_behavior == RemoteCacheWarningsBehavior::Backoff);
            assert_eq!(c.cache_rpc_concurrency, 64);
            assert_eq!(c.inner.overall_deadline_secs, 600);
            assert_eq!(c.inner.poll_interval_millis, 100);
            assert_eq!(c.read_timeout_secs, 2);
        }
        RunnerPlan::Local(_) => panic!("remote server gave a local runner"),
    }
    match build_runner_plan(None, &md, &tuning, "/w".to_string(), "/n".to_string()) {
        RunnerPlan::Local(l) => {
            assert_eq!(l.work_dir, "/w");
            assert!(l.keep_sandboxes == KeepSandboxes::Never);
        }
        RunnerPlan::RemoteCached(_) => panic!("no server gave a cache layer"),
    }
}

#[test]
fn strategy_and_store_selection() {
    let (s, p) = select_strategy(&Some("h".to_string()), &vec!["OSFamily=linux".to_string()], Platform::MacosArm64);
    assert!(p == Platform::LinuxX86_64);
    match s {
        ExecutionStrategy::RemoteExecution(props) => assert_eq!(props, vec![("OSFamily".to_string(), "linux".to_string())]),
        ExecutionStrategy::Local => panic!("remote expected"),
    }
    let (s, p) = select_strategy(&None, &vec![], Platform::MacosArm64);
    assert!(p == Platform::MacosArm64 && matches!(s, ExecutionStrategy::Local));
    assert!(select_store(&None, &Some("c".to_string())) == Some(StoreChoice::WithRemote));
    assert!(select_store(&None, &None) == Some(StoreChoice::LocalOnly));
    assert!(select_store(&Some("s".to_string()), &None).is_none());
}

#[test]
fn run_under_prefixes_argv() {
    let mut args = empty_args();
    args.command.argv = vec!["/bin/echo".to_string(), "hi".to_string()];
    args.command.input_digest = Some(Fingerprint(fp(4)));
    args.command.input_digest_length = Some(0);
    let (mut p, _) = match make_request(&args, ExecutionStrategy::Local, Platform::LinuxX86_64) {
        Progress::Done(Ok(r)) => r,
        _ => panic!("flat arguments did not resolve"),
    };
    assert!(apply_run_under(&mut p, "strace -f 'a b'"));
    assert_eq!(p.argv, vec!["strace", "-f", "a b", "/bin/echo", "hi"]);
    assert!(!apply_run_under(&mut p, "broken 'quote"));
    assert_eq!(p.argv.len(), 5);
    assert_eq!(prepend_words(vec!["x".to_string()], vec!["y".to_string()]), vec!["x", "y"]);
}

#[test]
fn protocol_messages_decode() {
    let cmd = command_bytes(&["a", "b"], &[("K", "V")], &["o"], "");
    let c = decode_command_message(&cmd).unwrap();
    assert_eq!(c.arguments, vec!["a", "b"]);
    assert_eq!(c.environment_variables, vec![("K".to_string(), "V".to_string())]);
    assert_eq!(c.output_files, vec!["o"]);
    assert_eq!(c.working_directory, "");
    let mut bad_text = Vec::new();
    field_bytes(1, &[0xff, 0xfe], &mut bad_text);
    assert!(decode_command_message(&bad_text).is_none());
    let act = action_bytes(&fp(2), 9, &fp(3), Some(5));
    let a = decode_action_message(&act).unwrap();
    assert_eq!(a.command_digest.unwrap().size_bytes, 9);
    assert_eq!(a.timeout.unwrap().seconds, 5);
    let mut wrong_type = Vec::new();
    field_varint(1, 3, &mut wrong_type);
    assert!(decode_action_message(&wrong_type).is_none());
}

#[test]
fn negative_timeout_is_rejected() {
    let (mut store, action_fp) = store_with_action(None);
    let cmd = store.blobs.get(&fp(2)).unwrap().clone();
    let mut act = Vec::new();
    field_bytes(1, &digest_message(&fp(2), cmd.len() as u64), &mut act);
    field_bytes(2, &digest_message(&fp(3), 10), &mut act);
    let mut d = Vec::new();
    field_varint(1, (-5i64) as u64, &mut d);
    field_bytes(6, &d, &mut act);
    store.blobs.insert(action_fp, act);
    let start = Progress::Need(process_executor::resolve::extract_request_from_action_digest(
        Digest::new(Fingerprint(action_fp), 1), ExecutionStrategy::Local, Platform::LinuxX86_64, None));
    assert!(matches!(store.drive(start), Err(ResolveError::InvalidTimeout { action }) if action.hash.0 == action_fp));
}

#[test]
fn timeout_with_nanoseconds_is_kept() {
    let (mut store, action_fp) = store_with_action(None);
    let cmd = store.blobs.get(&fp(2)).unwrap().clone();
    let mut act = Vec::new();
    field_bytes(1, &digest_message(&fp(2), cmd.len() as u64), &mut act);
    field_bytes(2, &digest_message(&fp(3), 10), &mut act);
    let mut d = Vec::new();
    field_varint(1, 3, &mut d);
    field_varint(2, 250, &mut d);
    field_bytes(6, &d, &mut act);
    store.blobs.insert(action_fp, act);
    let start = Progress::Need(process_executor::resolve::extract_request_from_action_digest(
        Digest::new(Fingerprint(action_fp), 1), ExecutionStrategy::Local, Platform::LinuxX86_64, None));
    let (p, _) = store.drive(start).unwrap();
    assert!(p.timeout == Some(Timeout { secs: 3, nanos: 250 }));
}

#[test]
fn command_paths_are_checked() {
    let (mut store, action_fp) = store_with_action(Some(1));
    let cmd = command_bytes(&["x"], &[], &["../out"], "");
    let act = action_bytes(&fp(2), cmd.len() as u64, &fp(3), Some(1));
    store.blobs.insert(fp(2), cmd);
    store.blobs.insert(action_fp, act);
    let start = Progress::Need(process_executor::resolve::extract_request_from_action_digest(
        Digest::new(Fingerprint(action_fp), 1), ExecutionStrategy::Local, Platform::LinuxX86_64, None));
    assert!(matches!(store.drive(start), Err(ResolveError::InvalidPath { path }) if path == "../out"));

    let (mut store, action_fp) = store_with_action(Some(1));
    let cmd = command_bytes(&["x"], &[], &[], "/root");
    store.blobs.insert(fp(2), cmd);
    let start = Progress::Need(process_executor::resolve::extract_request_from_action_digest(
        Digest::new(Fingerprint(action_fp), 1), ExecutionStrategy::Local, Platform::LinuxX86_64, None));
    assert!(matches!(store.drive(start), Err(ResolveError::InvalidPath { path }) if path == "/root"));
}

#[test]
fn action_without_input_root_is_a_bad_digest() {
    let (mut store, action_fp) = store_with_action(Some(1));
    let mut act = Vec::new();
    field_bytes(1, &digest_message(&fp(2), 4), &mut act);
    store.blobs.insert(action_fp, act);
    let start = Progress::Need(process_executor::resolve::extract_request_from_action_digest(
        Digest::new(Fingerprint(action_fp), 1), ExecutionStrategy::Local, Platform::LinuxX86_64, None));
    assert!(matches!(store.drive(start), Err(ResolveError::BadDigest { reference: DigestRef::InputRoot })));
    assert_eq!(store.loads, 2);
}
