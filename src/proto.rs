//! Decoding of the remote-execution protocol messages that resolution
//! reads: digests, durations, actions, commands and uncached-action-result
//! records.

use vstd::prelude::*;
use vstd::utf8::{decode_utf8, valid_utf8};
use crate::wire::{
    fields, lemma_fields_bounded, parse_fields, payload, within, WireField, WIRE_LEN, WIRE_VARINT,
};

verus! {

/// The payloads of the fields with tag `t`, in order.
pub open spec fn payloads_of(b: Seq<u8>, fs: Seq<WireField>, t: u64) -> Seq<Seq<u8>>
    decreases fs.len(),
{
    if fs.len() == 0 {
        Seq::empty()
    } else {
        let prev = payloads_of(b, fs.drop_last(), t);
        if fs.last().tag == t {
            prev.push(payload(b, fs.last()))
        } else {
            prev
        }
    }
}

/// The payloads of the fields with tag `t`, joined: the encoding of an
/// embedded message whose occurrences are merged.
pub open spec fn joined_payloads(b: Seq<u8>, fs: Seq<WireField>, t: u64) -> Seq<u8>
    decreases fs.len(),
{
    if fs.len() == 0 {
        Seq::empty()
    } else {
        let prev = joined_payloads(b, fs.drop_last(), t);
        if fs.last().tag == t {
            prev + payload(b, fs.last())
        } else {
            prev
        }
    }
}

/// The integer of the last field with tag `t`, or 0 where there is none.
pub open spec fn last_value(fs: Seq<WireField>, t: u64) -> u64
    decreases fs.len(),
{
    if fs.len() == 0 {
        0
    } else if fs.last().tag == t {
        fs.last().value
    } else {
        last_value(fs.drop_last(), t)
    }
}

/// Every field with tag `t` has wire type `wt`.
pub open spec fn typed(fs: Seq<WireField>, t: u64, wt: u64) -> bool {
    forall|i: int| 0 <= i < fs.len() && (#[trigger] fs[i]).tag == t ==> fs[i].wire_type == wt
}

/// Every field with tag `t` holds UTF-8 text.
pub open spec fn texts_valid(b: Seq<u8>, fs: Seq<WireField>, t: u64) -> bool {
    forall|i: int|
        0 <= i < payloads_of(b, fs, t).len() ==> valid_utf8(#[trigger] payloads_of(b, fs, t)[i])
}

/// The text of a singular string field: its last occurrence, or empty.
pub open spec fn last_text(b: Seq<u8>, fs: Seq<WireField>, t: u64) -> Seq<u8> {
    let ps = payloads_of(b, fs, t);
    if ps.len() == 0 {
        Seq::empty()
    } else {
        ps.last()
    }
}

/// The texts of a repeated string field.
pub open spec fn texts_of(b: Seq<u8>, fs: Seq<WireField>, t: u64) -> Seq<Seq<char>> {
    payloads_of(b, fs, t).map_values(|p: Seq<u8>| decode_utf8(p))
}

/// Relies on String::from_utf8: it accepts exactly the valid UTF-8
/// sequences, and the text then holds the characters they encode.
#[verifier::external_body]
fn utf8_string(bytes: Vec<u8>) -> (r: Option<String>)
    ensures
        r is Some <==> valid_utf8(bytes@),
        r matches Some(s) ==> s@ == decode_utf8(bytes@),
{
    String::from_utf8(bytes).ok()
}

fn check_typed(fs: &Vec<WireField>, t: u64, wt: u64) -> (r: bool)
    ensures
        r == typed(fs@, t, wt),
{
    let mut i: usize = 0;
    while i < fs.len()
        invariant
            i <= fs@.len(),
            forall|k: int| 0 <= k < i && (#[trigger] fs@[k]).tag == t ==> fs@[k].wire_type == wt,
        decreases fs@.len() - i,
    {
        if fs[i].tag == t && fs[i].wire_type != wt {
            return false;
        }
        i = i + 1;
    }
    true
}

fn copy_range(b: &[u8], start: usize, end: usize, out: &mut Vec<u8>)
    requires
        start <= end <= b@.len(),
    ensures
        final(out)@ == old(out)@ + b@.subrange(start as int, end as int),
{
    let mut j: usize = start;
    while j < end
        invariant
            start <= j <= end <= b@.len(),
            out@ == old(out)@ + b@.subrange(start as int, j as int),
        decreases end - j,
    {
        out.push(b[j]);
        proof {
            assert(b@.subrange(start as int, j + 1) =~= b@.subrange(start as int, j as int).push(
                b@[j as int],
            ));
        }
        j = j + 1;
    }
}

fn collect_payloads(b: &[u8], fs: &Vec<WireField>, t: u64) -> (r: Vec<Vec<u8>>)
    requires
        within(fs@, b@.len()),
    ensures
        r.deep_view() == payloads_of(b@, fs@, t),
{
    let mut out: Vec<Vec<u8>> = Vec::new();
    let mut i: usize = 0;
    while i < fs.len()
        invariant
            i <= fs@.len(),
            within(fs@, b@.len()),
            out.deep_view() == payloads_of(b@, fs@.take(i as int), t),
        decreases fs@.len() - i,
    {
        assert(fs@.take(i + 1).drop_last() =~= fs@.take(i as int));
        let f = fs[i];
        if f.tag == t {
            let mut p: Vec<u8> = Vec::new();
            copy_range(b, f.start, f.end, &mut p);
            assert(p@ =~= payload(b@, f));
            assert(p.deep_view() =~= p@);
            out.push(p);
            assert(out.deep_view() =~= payloads_of(b@, fs@.take(i + 1), t));
        }
        i = i + 1;
    }
    assert(fs@.take(fs@.len() as int) =~= fs@);
    out
}

fn join_payloads(b: &[u8], fs: &Vec<WireField>, t: u64) -> (r: Vec<u8>)
    requires
        within(fs@, b@.len()),
    ensures
        r@ == joined_payloads(b@, fs@, t),
{
    let mut out: Vec<u8> = Vec::new();
    let mut i: usize = 0;
    while i < fs.len()
        invariant
            i <= fs@.len(),
            within(fs@, b@.len()),
            out@ == joined_payloads(b@, fs@.take(i as int), t),
        decreases fs@.len() - i,
    {
        assert(fs@.take(i + 1).drop_last() =~= fs@.take(i as int));
        let f = fs[i];
        if f.tag == t {
            copy_range(b, f.start, f.end, &mut out);
        }
        i = i + 1;
    }
    assert(fs@.take(fs@.len() as int) =~= fs@);
    out
}

fn find_last_value(fs: &Vec<WireField>, t: u64) -> (r: u64)
    ensures
        r == last_value(fs@, t),
{
    let mut v: u64 = 0;
    let mut i: usize = 0;
    while i < fs.len()
        invariant
            i <= fs@.len(),
            v == last_value(fs@.take(i as int), t),
        decreases fs@.len() - i,
    {
        assert(fs@.take(i + 1).drop_last() =~= fs@.take(i as int));
        if fs[i].tag == t {
            v = fs[i].value;
        }
        i = i + 1;
    }
    assert(fs@.take(fs@.len() as int) =~= fs@);
    v
}

/// Decodes each payload as UTF-8 text; `None` where one is not.
fn texts(ps: Vec<Vec<u8>>) -> (r: Option<Vec<String>>)
    ensures
        (forall|i: int| 0 <= i < ps@.len() ==> valid_utf8(#[trigger] ps.deep_view()[i])) ==> r
            is Some,
        r matches Some(v) ==> (forall|i: int|
            0 <= i < ps@.len() ==> valid_utf8(#[trigger] ps.deep_view()[i])) && v.deep_view()
            == ps.deep_view().map_values(|p: Seq<u8>| decode_utf8(p)),
{
    let mut out: Vec<String> = Vec::new();
    let mut i: usize = 0;
    let n = ps.len();
    let ghost dv = ps.deep_view();
    let mut rest = ps;
    assert forall|k: int| 0 <= k < n implies (#[trigger] rest@[k])@ == dv[k] by {
        assert(rest@[k].deep_view() =~= rest@[k]@);
    }
    while i < n
        invariant
            n == dv.len(),
            dv == ps.deep_view(),
            n == ps@.len(),
            i <= n,
            rest@.len() == n - i,
            forall|k: int| 0 <= k < n - i ==> (#[trigger] rest@[k])@ == dv[i + k],
            forall|k: int| 0 <= k < i ==> valid_utf8(#[trigger] dv[k]),
            out.deep_view() == dv.take(i as int).map_values(|p: Seq<u8>| decode_utf8(p)),
        decreases n - i,
    {
        let p = rest.remove(0);
        assert(p@ == dv[i as int]);
        match utf8_string(p) {
            None => {
                assert(!valid_utf8(dv[i as int]));
                return None;
            },
            Some(s) => {
                let ghost prev = out.deep_view();
                out.push(s);
                assert(out.deep_view() =~= prev.push(decode_utf8(dv[i as int])));
                assert(dv.take(i + 1).map_values(|p: Seq<u8>| decode_utf8(p)) =~= dv.take(
                    i as int,
                ).map_values(|p: Seq<u8>| decode_utf8(p)).push(decode_utf8(dv[i as int])));
                assert(out.deep_view() =~= dv.take(i + 1).map_values(
                    |p: Seq<u8>| decode_utf8(p),
                ));
            },
        }
        i = i + 1;
    }
    assert(dv.take(n as int) =~= dv);
    Some(out)
}

fn last_payload(b: &[u8], fs: &Vec<WireField>, t: u64) -> (r: Vec<u8>)
    requires
        within(fs@, b@.len()),
    ensures
        r@ == last_text(b@, fs@, t),
{
    let mut ps = collect_payloads(b, fs, t);
    if ps.len() == 0 {
        Vec::new()
    } else {
        let p = ps.pop().unwrap();
        assert(p.deep_view() =~= p@);
        p
    }
}

/// The fields of a well-formed message, or `None`.
fn message_fields(b: &[u8]) -> (r: Option<Vec<WireField>>)
    ensures
        match fields(b@) {
            Some(fs) => r is Some && r->0@ == fs,
            None => r is None,
        },
        r matches Some(fs) ==> within(fs@, b@.len()),
{
    let r = parse_fields(b);
    // The slice length bounds the fields, which hold it in usize.
    let _len = b.len();
    proof {
        if fields(b@) is Some {
            lemma_fields_bounded(b@);
        }
    }
    r
}

/// A content digest as the remote-execution protocol writes it: the hash in
/// hex text and the length.
pub struct DigestModel {
    pub hash: Seq<u8>,
    pub size_bytes: u64,
}

pub struct DigestMessage {
    pub hash: Vec<u8>,
    pub size_bytes: u64,
}

impl View for DigestMessage {
    type V = DigestModel;

    open spec fn view(&self) -> DigestModel {
        DigestModel { hash: self.hash@, size_bytes: self.size_bytes }
    }
}

/// Decoding of a digest message: hash (1, text), size_bytes (2, integer).
pub open spec fn digest_message(b: Seq<u8>) -> Option<DigestModel> {
    match fields(b) {
        None => None,
        Some(fs) => if typed(fs, 1, WIRE_LEN) && typed(fs, 2, WIRE_VARINT) && texts_valid(
            b,
            fs,
            1,
        ) {
            Some(DigestModel { hash: last_text(b, fs, 1), size_bytes: last_value(fs, 2) })
        } else {
            None
        },
    }
}

fn all_texts_valid(b: &[u8], fs: &Vec<WireField>, t: u64) -> (r: bool)
    requires
        within(fs@, b@.len()),
    ensures
        r == texts_valid(b@, fs@, t),
{
    let ps = collect_payloads(b, fs, t);
    assert(ps.deep_view().len() == ps@.len());
    let r = texts(ps);
    r.is_some()
}

pub fn decode_digest_message(b: &[u8]) -> (r: Option<DigestMessage>)
    ensures
        match digest_message(b@) {
            Some(m) => r is Some && r->0@ == m,
            None => r is None,
        },
{
    let fs = match message_fields(b) {
        None => return None,
        Some(fs) => fs,
    };
    if !check_typed(&fs, 1, WIRE_LEN) || !check_typed(&fs, 2, WIRE_VARINT) || !all_texts_valid(
        b,
        &fs,
        1,
    ) {
        return None;
    }
    Some(DigestMessage { hash: last_payload(b, &fs, 1), size_bytes: find_last_value(&fs, 2) })
}

/// A digest embedded at tag `t`: absent, present, or (`None`) malformed.
pub open spec fn embedded_digest(b: Seq<u8>, fs: Seq<WireField>, t: u64) -> Option<
    Option<DigestModel>,
> {
    if payloads_of(b, fs, t).len() == 0 {
        Some(None)
    } else {
        match digest_message(joined_payloads(b, fs, t)) {
            Some(d) => Some(Some(d)),
            None => None,
        }
    }
}

fn decode_embedded_digest(b: &[u8], fs: &Vec<WireField>, t: u64) -> (r: Option<
    Option<DigestMessage>,
>)
    requires
        within(fs@, b@.len()),
    ensures
        match (embedded_digest(b@, fs@, t), r) {
            (None, None) => true,
            (Some(None), Some(None)) => true,
            (Some(Some(m)), Some(Some(d))) => d@ == m,
            _ => false,
        },
{
    let ps = collect_payloads(b, fs, t);
    if ps.len() == 0 {
        return Some(None);
    }
    let joined = join_payloads(b, fs, t);
    match decode_digest_message(joined.as_slice()) {
        Some(d) => Some(Some(d)),
        None => None,
    }
}

/// A span of time as the protocol writes it: seconds (1) and nanoseconds
/// (2), each the integer as it was encoded.
pub struct DurationModel {
    pub seconds: u64,
    pub nanos: u64,
}

pub struct DurationMessage {
    pub seconds: u64,
    pub nanos: u64,
}

impl View for DurationMessage {
    type V = DurationModel;

    open spec fn view(&self) -> DurationModel {
        DurationModel { seconds: self.seconds, nanos: self.nanos }
    }
}

pub open spec fn duration_message(b: Seq<u8>) -> Option<DurationModel> {
    match fields(b) {
        None => None,
        Some(fs) => if typed(fs, 1, WIRE_VARINT) && typed(fs, 2, WIRE_VARINT) {
            Some(DurationModel { seconds: last_value(fs, 1), nanos: last_value(fs, 2) })
        } else {
            None
        },
    }
}

pub fn decode_duration_message(b: &[u8]) -> (r: Option<DurationMessage>)
    ensures
        match duration_message(b@) {
            Some(m) => r is Some && r->0@ == m,
            None => r is None,
        },
{
    let fs = match message_fields(b) {
        None => return None,
        Some(fs) => fs,
    };
    if !check_typed(&fs, 1, WIRE_VARINT) || !check_typed(&fs, 2, WIRE_VARINT) {
        return None;
    }
    Some(DurationMessage { seconds: find_last_value(&fs, 1), nanos: find_last_value(&fs, 2) })
}

/// An action: the digests of its command (1) and of its input root (2), and
/// its timeout (6). Other fields are passed over.
pub struct ActionModel {
    pub command_digest: Option<DigestModel>,
    pub input_root_digest: Option<DigestModel>,
    pub timeout: Option<DurationModel>,
}

pub struct ActionMessage {
    pub command_digest: Option<DigestMessage>,
    pub input_root_digest: Option<DigestMessage>,
    pub timeout: Option<DurationMessage>,
}

pub open spec fn opt_view<T: View>(o: Option<T>) -> Option<T::V> {
    match o {
        Some(x) => Some(x@),
        None => None,
    }
}

impl View for ActionMessage {
    type V = ActionModel;

    open spec fn view(&self) -> ActionModel {
        ActionModel {
            command_digest: opt_view(self.command_digest),
            input_root_digest: opt_view(self.input_root_digest),
            timeout: opt_view(self.timeout),
        }
    }
}

pub open spec fn action_message(b: Seq<u8>) -> Option<ActionModel> {
    match fields(b) {
        None => None,
        Some(fs) => if typed(fs, 1, WIRE_LEN) && typed(fs, 2, WIRE_LEN) && typed(fs, 6, WIRE_LEN) {
            let timeout = if payloads_of(b, fs, 6).len() == 0 {
                Some(None)
            } else {
                match duration_message(joined_payloads(b, fs, 6)) {
                    Some(d) => Some(Some(d)),
                    None => None,
                }
            };
            match (embedded_digest(b, fs, 1), embedded_digest(b, fs, 2), timeout) {
                (Some(c), Some(i), Some(t)) => Some(
                    ActionModel { command_digest: c, input_root_digest: i, timeout: t },
                ),
                _ => None,
            }
        } else {
            None
        },
    }
}

pub fn decode_action_message(b: &[u8]) -> (r: Option<ActionMessage>)
    ensures
        match action_message(b@) {
            Some(m) => r is Some && r->0@ == m,
            None => r is None,
        },
{
    let fs = match message_fields(b) {
        None => return None,
        Some(fs) => fs,
    };
    if !check_typed(&fs, 1, WIRE_LEN) || !check_typed(&fs, 2, WIRE_LEN) || !check_typed(
        &fs,
        6,
        WIRE_LEN,
    ) {
        return None;
    }
    let command_digest = match decode_embedded_digest(b, &fs, 1) {
        None => return None,
        Some(d) => d,
    };
    let input_root_digest = match decode_embedded_digest(b, &fs, 2) {
        None => return None,
        Some(d) => d,
    };
    let timeout = if collect_payloads(b, &fs, 6).len() == 0 {
        None
    } else {
        let joined = join_payloads(b, &fs, 6);
        match decode_duration_message(joined.as_slice()) {
            None => return None,
            Some(d) => Some(d),
        }
    };
    Some(ActionMessage { command_digest, input_root_digest, timeout })
}

/// A record of an action that ran without its result being cached: the
/// digest of the action (1). Other fields are passed over.
pub open spec fn uncached_result_message(b: Seq<u8>) -> Option<Option<DigestModel>> {
    match fields(b) {
        None => None,
        Some(fs) => if typed(fs, 1, WIRE_LEN) {
            embedded_digest(b, fs, 1)
        } else {
            None
        },
    }
}

/// Decodes an uncached-action-result record to the digest of its action.
pub fn decode_uncached_result_message(b: &[u8]) -> (r: Option<Option<DigestMessage>>)
    ensures
        match (uncached_result_message(b@), r) {
            (None, None) => true,
            (Some(None), Some(None)) => true,
            (Some(Some(m)), Some(Some(d))) => d@ == m,
            _ => false,
        },
{
    let fs = match message_fields(b) {
        None => return None,
        Some(fs) => fs,
    };
    if !check_typed(&fs, 1, WIRE_LEN) {
        return None;
    }
    decode_embedded_digest(b, &fs, 1)
}

/// An environment variable: name (1) and value (2).
pub open spec fn env_var_message(b: Seq<u8>) -> Option<(Seq<char>, Seq<char>)> {
    match fields(b) {
        None => None,
        Some(fs) => if typed(fs, 1, WIRE_LEN) && typed(fs, 2, WIRE_LEN) && texts_valid(b, fs, 1)
            && texts_valid(b, fs, 2) {
            Some((decode_utf8(last_text(b, fs, 1)), decode_utf8(last_text(b, fs, 2))))
        } else {
            None
        },
    }
}

fn last_string(b: &[u8], fs: &Vec<WireField>, t: u64) -> (r: Option<String>)
    requires
        within(fs@, b@.len()),
    ensures
        texts_valid(b@, fs@, t) ==> (r matches Some(s) && s@ == decode_utf8(last_text(b@, fs@, t))),
        r is None <==> !texts_valid(b@, fs@, t),
{
    if !all_texts_valid(b, fs, t) {
        return None;
    }
    let p = last_payload(b, fs, t);
    proof {
        if payloads_of(b@, fs@, t).len() > 0 {
            assert(valid_utf8(payloads_of(b@, fs@, t)[payloads_of(b@, fs@, t).len() - 1]));
        } else {
            assert(valid_utf8(Seq::<u8>::empty())) by {
                reveal_with_fuel(valid_utf8, 1);
            }
        }
    }
    utf8_string(p)
}

fn decode_env_var_message(b: &[u8]) -> (r: Option<(String, String)>)
    ensures
        match (env_var_message(b@), r) {
            (Some((n, v)), Some((x, y))) => x@ == n && y@ == v,
            (None, None) => true,
            _ => false,
        },
{
    let fs = match message_fields(b) {
        None => return None,
        Some(fs) => fs,
    };
    if !check_typed(&fs, 1, WIRE_LEN) || !check_typed(&fs, 2, WIRE_LEN) {
        return None;
    }
    let name = match last_string(b, &fs, 1) {
        None => return None,
        Some(s) => s,
    };
    let value = match last_string(b, &fs, 2) {
        None => return None,
        Some(s) => s,
    };
    assert(texts_valid(b@, fs@, 1));
    assert(texts_valid(b@, fs@, 2));
    assert(env_var_message(b@) == Some((name@, value@)));
    Some((name, value))
}

/// A command: arguments (1), environment variables (2), output files (3),
/// output directories (4) and working directory (6). Other fields are
/// passed over.
pub struct CommandModel {
    pub arguments: Seq<Seq<char>>,
    pub environment_variables: Seq<(Seq<char>, Seq<char>)>,
    pub output_files: Seq<Seq<char>>,
    pub output_directories: Seq<Seq<char>>,
    pub working_directory: Seq<char>,
}

pub struct CommandMessage {
    pub arguments: Vec<String>,
    pub environment_variables: Vec<(String, String)>,
    pub output_files: Vec<String>,
    pub output_directories: Vec<String>,
    pub working_directory: String,
}

impl View for CommandMessage {
    type V = CommandModel;

    open spec fn view(&self) -> CommandModel {
        CommandModel {
            arguments: self.arguments.deep_view(),
            environment_variables: self.environment_variables.deep_view(),
            output_files: self.output_files.deep_view(),
            output_directories: self.output_directories.deep_view(),
            working_directory: self.working_directory@,
        }
    }
}

/// Every payload at tag 2 is a well-formed environment variable.
pub open spec fn env_vars_valid(b: Seq<u8>, fs: Seq<WireField>) -> bool {
    forall|i: int|
        0 <= i < payloads_of(b, fs, 2).len() ==> (#[trigger] env_var_message(
            payloads_of(b, fs, 2)[i],
        )) is Some
}

pub open spec fn command_message(b: Seq<u8>) -> Option<CommandModel> {
    match fields(b) {
        None => None,
        Some(fs) => if typed(fs, 1, WIRE_LEN) && typed(fs, 2, WIRE_LEN) && typed(fs, 3, WIRE_LEN)
            && typed(fs, 4, WIRE_LEN) && typed(fs, 6, WIRE_LEN) && texts_valid(b, fs, 1)
            && env_vars_valid(b, fs) && texts_valid(b, fs, 3) && texts_valid(b, fs, 4)
            && texts_valid(b, fs, 6) {
            Some(
                CommandModel {
                    arguments: texts_of(b, fs, 1),
                    environment_variables: payloads_of(b, fs, 2).map_values(
                        |p: Seq<u8>| env_var_message(p)->0,
                    ),
                    output_files: texts_of(b, fs, 3),
                    output_directories: texts_of(b, fs, 4),
                    working_directory: decode_utf8(last_text(b, fs, 6)),
                },
            )
        } else {
            None
        },
    }
}

fn decode_env_vars(ps: Vec<Vec<u8>>) -> (r: Option<Vec<(String, String)>>)
    ensures
        (forall|i: int|
            0 <= i < ps@.len() ==> (#[trigger] env_var_message(ps.deep_view()[i])) is Some) ==> r
            is Some,
        r matches Some(v) ==> (forall|i: int|
            0 <= i < ps@.len() ==> (#[trigger] env_var_message(ps.deep_view()[i])) is Some)
            && v.deep_view() == ps.deep_view().map_values(|p: Seq<u8>| env_var_message(p)->0),
{
    let mut out: Vec<(String, String)> = Vec::new();
    let mut i: usize = 0;
    let n = ps.len();
    let ghost dv = ps.deep_view();
    let mut rest = ps;
    assert forall|k: int| 0 <= k < n implies (#[trigger] rest@[k])@ == dv[k] by {
        assert(rest@[k].deep_view() =~= rest@[k]@);
    }
    while i < n
        invariant
            n == dv.len(),
            dv == ps.deep_view(),
            n == ps@.len(),
            i <= n,
            rest@.len() == n - i,
            forall|k: int| 0 <= k < n - i ==> (#[trigger] rest@[k])@ == dv[i + k],
            forall|k: int| 0 <= k < i ==> (#[trigger] env_var_message(dv[k])) is Some,
            out.deep_view() == dv.take(i as int).map_values(|p: Seq<u8>| env_var_message(p)->0),
        decreases n - i,
    {
        let p = rest.remove(0);
        assert(p@ == dv[i as int]);
        match decode_env_var_message(p.as_slice()) {
            None => {
                return None;
            },
            Some(e) => {
                let ghost prev = out.deep_view();
                out.push(e);
                assert(out.deep_view() =~= prev.push(env_var_message(dv[i as int])->0));
                assert(dv.take(i + 1).map_values(|p: Seq<u8>| env_var_message(p)->0) =~= dv.take(
                    i as int,
                ).map_values(|p: Seq<u8>| env_var_message(p)->0).push(
                    env_var_message(dv[i as int])->0,
                ));
            },
        }
        i = i + 1;
    }
    assert(dv.take(n as int) =~= dv);
    Some(out)
}

fn strings_at(b: &[u8], fs: &Vec<WireField>, t: u64) -> (r: Option<Vec<String>>)
    requires
        within(fs@, b@.len()),
    ensures
        texts_valid(b@, fs@, t) ==> (r matches Some(v) && v.deep_view() == texts_of(b@, fs@, t)),
        r is None <==> !texts_valid(b@, fs@, t),
{
    let ps = collect_payloads(b, fs, t);
    assert(ps.deep_view().len() == ps@.len());
    texts(ps)
}

pub fn decode_command_message(b: &[u8]) -> (r: Option<CommandMessage>)
    ensures
        match command_message(b@) {
            Some(m) => r is Some && r->0@ == m,
            None => r is None,
        },
{
    let fs = match message_fields(b) {
        None => return None,
        Some(fs) => fs,
    };
    if !check_typed(&fs, 1, WIRE_LEN) || !check_typed(&fs, 2, WIRE_LEN) || !check_typed(
        &fs,
        3,
        WIRE_LEN,
    ) || !check_typed(&fs, 4, WIRE_LEN) || !check_typed(&fs, 6, WIRE_LEN) {
        return None;
    }
    let arguments = match strings_at(b, &fs, 1) {
        None => return None,
        Some(v) => v,
    };
    let ps = collect_payloads(b, &fs, 2);
    assert(ps.deep_view().len() == ps@.len());
    let environment_variables = match decode_env_vars(ps) {
        None => {
            assert(!env_vars_valid(b@, fs@));
            return None;
        },
        Some(v) => v,
    };
    let output_files = match strings_at(b, &fs, 3) {
        None => return None,
        Some(v) => v,
    };
    let output_directories = match strings_at(b, &fs, 4) {
        None => return None,
        Some(v) => v,
    };
    let working_directory = match last_string(b, &fs, 6) {
        None => return None,
        Some(s) => s,
    };
    Some(
        CommandMessage {
            arguments,
            environment_variables,
            output_files,
            output_directories,
            working_directory,
        },
    )
}

} // verus!
