//! The protocol-buffer wire format: base-128 integers and the fields of
//! an encoded message.

use vstd::prelude::*;

verus! {

/// The base-128 integer that starts at index `i` of `b`, continuing one that
/// started at index 0: its value from `i` on, and the index just past it. At
/// most ten bytes, and a tenth byte may carry one bit only.
pub open spec fn varint_from(b: Seq<u8>, i: nat) -> Option<(int, nat)>
    decreases 10 - i,
{
    if i >= 10 || i >= b.len() {
        None
    } else if b[i as int] < 128 {
        if i == 9 && b[i as int] >= 2 {
            None
        } else {
            Some((b[i as int] as int, i + 1))
        }
    } else {
        match varint_from(b, i + 1) {
            Some((v, n)) => Some((b[i as int] - 128 + 128 * v, n)),
            None => None,
        }
    }
}

proof fn lemma_varint_from_bounds(b: Seq<u8>, i: nat)
    requires
        varint_from(b, i) is Some,
    ensures
        varint_from(b, i) matches Some((v, n)) ==> i < n <= b.len() && 0 <= v,
    decreases 10 - i,
{
    if b[i as int] >= 128 {
        lemma_varint_from_bounds(b, i + 1);
    }
}

/// The base-128 integer at the start of `b`, with its length in bytes.
pub open spec fn varint(b: Seq<u8>) -> Option<(int, nat)> {
    varint_from(b, 0)
}

/// Relies on prost::encoding::decode_varint: it reads the base-128 integer
/// at the start of the buffer and leaves the buffer just past it.
#[verifier::external_body]
fn decode_varint_at(bytes: &[u8], pos: usize) -> (r: Option<(u64, usize)>)
    requires
        pos <= bytes@.len(),
    ensures
        match (varint(bytes@.skip(pos as int)), r) {
            (None, None) => true,
            (Some((v, n)), Some((x, rest))) => x as int == v && rest == bytes@.len() - pos - n,
            _ => false,
        },
{
    let mut buf = &bytes[pos..];
    match prost::encoding::decode_varint(&mut buf) {
        Ok(v) => Some((v, buf.len())),
        Err(_) => None,
    }
}

/// Reads the base-128 integer at `pos`: its value and the index past it.
pub fn read_varint(bytes: &[u8], pos: usize) -> (r: Option<(u64, usize)>)
    requires
        pos <= bytes@.len(),
    ensures
        match (varint(bytes@.skip(pos as int)), r) {
            (None, None) => true,
            (Some((v, n)), Some((x, end))) => x as int == v && end == pos + n,
            _ => false,
        },
        r matches Some((x, end)) ==> pos < end <= bytes@.len(),
{
    proof {
        if varint(bytes@.skip(pos as int)) is Some {
            lemma_varint_from_bounds(bytes@.skip(pos as int), 0);
        }
    }
    match decode_varint_at(bytes, pos) {
        None => None,
        Some((v, rest)) => Some((v, bytes.len() - rest)),
    }
}

pub const WIRE_VARINT: u64 = 0;

pub const WIRE_FIXED64: u64 = 1;

pub const WIRE_LEN: u64 = 2;

pub const WIRE_FIXED32: u64 = 5;

/// One field of an encoded message. For a varint field `value` is the
/// integer; for a length-delimited one the payload is `start..end` of the
/// message's bytes; fixed-width fields span `start..end` too.
#[derive(Clone, Copy)]
pub struct WireField {
    pub tag: u64,
    pub wire_type: u64,
    pub value: u64,
    pub start: usize,
    pub end: usize,
}

/// The field whose key starts at `pos` of `b`.
pub open spec fn field_at(b: Seq<u8>, pos: int) -> Option<WireField> {
    match varint(b.skip(pos)) {
        None => None,
        Some((key, n)) => {
            let after = pos + n;
            let tag = key / 8;
            let wt = key % 8;
            if key > 0xffff_ffff || tag == 0 {
                None
            } else if wt == WIRE_VARINT {
                match varint(b.skip(after)) {
                    Some((v, m)) => Some(
                        WireField {
                            tag: tag as u64,
                            wire_type: wt as u64,
                            value: v as u64,
                            start: after as usize,
                            end: (after + m) as usize,
                        },
                    ),
                    None => None,
                }
            } else if wt == WIRE_LEN {
                match varint(b.skip(after)) {
                    Some((len, m)) => if after + m + len <= b.len() {
                        Some(
                            WireField {
                                tag: tag as u64,
                                wire_type: wt as u64,
                                value: len as u64,
                                start: (after + m) as usize,
                                end: (after + m + len) as usize,
                            },
                        )
                    } else {
                        None
                    },
                    None => None,
                }
            } else if wt == WIRE_FIXED64 || wt == WIRE_FIXED32 {
                let width: int = if wt == WIRE_FIXED64 { 8 } else { 4 };
                if after + width <= b.len() {
                    Some(
                        WireField {
                            tag: tag as u64,
                            wire_type: wt as u64,
                            value: 0,
                            start: after as usize,
                            end: (after + width) as usize,
                        },
                    )
                } else {
                    None
                }
            } else {
                None
            }
        },
    }
}

/// The fields of `b` from the key at `pos` to the end, if all are well formed.
pub open spec fn fields_from(b: Seq<u8>, pos: int) -> Option<Seq<WireField>>
    decreases b.len() - pos,
{
    if pos >= b.len() {
        Some(Seq::empty())
    } else {
        match field_at(b, pos) {
            None => None,
            Some(f) => if f.end <= pos || f.end > b.len() {
                None
            } else {
                match fields_from(b, f.end as int) {
                    Some(rest) => Some(seq![f] + rest),
                    None => None,
                }
            },
        }
    }
}

/// The fields of an encoded message, in order.
pub open spec fn fields(b: Seq<u8>) -> Option<Seq<WireField>> {
    fields_from(b, 0)
}

proof fn lemma_fields_from_bounded(b: Seq<u8>, pos: int)
    requires
        fields_from(b, pos) is Some,
        0 <= pos,
        b.len() <= usize::MAX,
    ensures
        forall|k: int|
            0 <= k < fields_from(b, pos)->0.len() ==> #[trigger] fields_from(b, pos)->0[k].start
                <= fields_from(b, pos)->0[k].end <= b.len(),
    decreases b.len() - pos,
{
    if pos < b.len() {
        let f = field_at(b, pos)->0;
        let (key, n) = varint(b.skip(pos))->0;
        lemma_varint_from_bounds(b.skip(pos), 0);
        if key % 8 == WIRE_VARINT || key % 8 == WIRE_LEN {
            lemma_varint_from_bounds(b.skip(pos + n), 0);
        }
        assert(f.start <= f.end <= b.len());
        lemma_fields_from_bounded(b, f.end as int);
        let fs = fields_from(b, pos)->0;
        let rest = fields_from(b, f.end as int)->0;
        assert(fs == seq![f] + rest);
        assert forall|k: int| 0 <= k < fs.len() implies #[trigger] fs[k].start <= fs[k].end
            <= b.len() by {
            if k > 0 {
                assert(fs[k] == rest[k - 1]);
            }
        }
    }
}

/// Every field of a well-formed message lies within it.
pub proof fn lemma_fields_bounded(b: Seq<u8>)
    requires
        fields(b) is Some,
        b.len() <= usize::MAX,
    ensures
        within(fields(b)->0, b.len()),
{
    lemma_fields_from_bounded(b, 0);
    let fs = fields(b)->0;
    assert forall|k: int| 0 <= k < fs.len() implies (#[trigger] fs[k]).start <= fs[k].end <= b.len() by {
        assert(fs[k] == fields_from(b, 0)->0[k]);
    }
}

/// Every field of `fs` lies within the first `len` bytes.
pub open spec fn within(fs: Seq<WireField>, len: nat) -> bool {
    forall|k: int| 0 <= k < fs.len() ==> (#[trigger] fs[k]).start <= fs[k].end <= len
}

/// The bytes that a field spans.
pub open spec fn payload(b: Seq<u8>, f: WireField) -> Seq<u8> {
    b.subrange(f.start as int, f.end as int)
}

fn read_field(b: &[u8], pos: usize) -> (r: Option<WireField>)
    requires
        pos <= b@.len(),
    ensures
        r == field_at(b@, pos as int),
        r is Some ==> pos < r->0.end <= b@.len() && r->0.start <= r->0.end,
{
    let (key, after) = match read_varint(b, pos) {
        None => return None,
        Some(p) => p,
    };
    let tag = key / 8;
    let wt = key % 8;
    if key > 0xffff_ffff || tag == 0 {
        return None;
    }
    if wt == WIRE_VARINT {
        match read_varint(b, after) {
            Some((v, end)) => Some(WireField { tag, wire_type: wt, value: v, start: after, end }),
            None => None,
        }
    } else if wt == WIRE_LEN {
        match read_varint(b, after) {
            Some((len, start)) => if len <= (b.len() - start) as u64 {
                Some(
                    WireField {
                        tag,
                        wire_type: wt,
                        value: len,
                        start,
                        end: start + len as usize,
                    },
                )
            } else {
                None
            },
            None => None,
        }
    } else if wt == WIRE_FIXED64 || wt == WIRE_FIXED32 {
        let width: usize = if wt == WIRE_FIXED64 { 8 } else { 4 };
        if width <= b.len() - after {
            Some(WireField { tag, wire_type: wt, value: 0, start: after, end: after + width })
        } else {
            None
        }
    } else {
        None
    }
}

/// Splits an encoded message into its fields; `None` where it is malformed.
pub fn parse_fields(b: &[u8]) -> (r: Option<Vec<WireField>>)
    ensures
        match fields(b@) {
            Some(fs) => r is Some && r->0@ == fs,
            None => r is None,
        },
{
    let mut acc: Vec<WireField> = Vec::new();
    let mut pos: usize = 0;
    while pos < b.len()
        invariant
            pos <= b@.len(),
            fields(b@) == match fields_from(b@, pos as int) {
                Some(rest) => Some(acc@ + rest),
                None => None,
            },
        decreases b@.len() - pos,
    {
        let f = match read_field(b, pos) {
            None => return None,
            Some(f) => f,
        };
        proof {
            let rest = fields_from(b@, f.end as int);
            if let Some(rs) = rest {
                assert(acc@.push(f) + rs =~= acc@ + (seq![f] + rs));
            }
        }
        acc.push(f);
        pos = f.end;
    }
    assert(acc@ + Seq::<WireField>::empty() =~= acc@);
    Some(acc)
}

} // verus!
