//! Result URLs: their segments, kinds and decimal lengths.

use vstd::prelude::*;
use vstd::string::{StrSliceExecFns, StringExecFns};
use vstd::utf8::encode_utf8;
use crate::digest::{fingerprint_of_hex, Digest, Fingerprint};
use crate::error::ResolveError;
use crate::keyvalue::first_index_from;

verus! {

/// The text without the `c`s at its end.
pub open spec fn trim_end(s: Seq<char>, c: char) -> Seq<char>
    decreases s.len(),
{
    if s.len() > 0 && s.last() == c {
        trim_end(s.drop_last(), c)
    } else {
        s
    }
}

/// The segments of `s` between `/`s, from index `start` on.
pub open spec fn segments_from(s: Seq<char>, start: int) -> Seq<Seq<char>>
    decreases s.len() - start,
{
    if start < 0 || start > s.len() {
        Seq::empty()
    } else {
        let k = first_index_from(s, '/', start);
        if start <= k < s.len() {
            seq![s.subrange(start, k)] + segments_from(s, k + 1)
        } else {
            seq![s.subrange(start, s.len() as int)]
        }
    }
}

/// The segments of `s` between `/`s; a text without `/` is one segment.
pub open spec fn split_slash(s: Seq<char>) -> Seq<Seq<char>> {
    segments_from(s, 0)
}

/// The segments of a result URL, trailing `/`s ignored.
pub open spec fn url_parts(url: Seq<char>) -> Seq<Seq<char>> {
    split_slash(trim_end(url, '/'))
}

/// The number that a run of decimal digits spells.
pub open spec fn digits_value(s: Seq<char>) -> nat
    decreases s.len(),
{
    if s.len() == 0 {
        0
    } else {
        digits_value(s.drop_last()) * 10 + (s.last() as nat - 48) as nat
    }
}

pub open spec fn all_digits(s: Seq<char>) -> bool {
    forall|i: int| 0 <= i < s.len() ==> '0' <= #[trigger] s[i] <= '9'
}

/// A length in decimal: an optional `+`, then at least one digit, with a
/// value that fits in `usize`.
pub open spec fn decimal_usize(s: Seq<char>) -> Option<usize> {
    let d = decimal_digits(s);
    if d.len() > 0 && all_digits(d) && digits_value(d) <= usize::MAX {
        Some(digits_value(d) as usize)
    } else {
        None
    }
}

/// The digits of a decimal, after an optional `+`.
pub open spec fn decimal_digits(s: Seq<char>) -> Seq<char> {
    if s.len() > 0 && s[0] == '+' {
        s.skip(1)
    } else {
        s
    }
}

/// The two kinds of record that a result URL can name.
#[derive(Clone, Copy, PartialEq, Eq, Structural)]
pub enum UrlKind {
    Action,
    UncachedActionResult,
}

pub open spec fn url_kind(k: Seq<char>) -> Option<UrlKind> {
    if k == "action"@ {
        Some(UrlKind::Action)
    } else if k == "uncached_action_result"@ {
        Some(UrlKind::UncachedActionResult)
    } else {
        None
    }
}

/// The kind, instance name and digest that a result URL names, if it is
/// well formed.
pub open spec fn result_url(url: Seq<char>) -> Option<(UrlKind, Seq<char>, (Seq<u8>, usize))> {
    let parts = url_parts(url);
    let n = parts.len() as int;
    if n < 4 {
        None
    } else {
        match (
            url_kind(parts[n - 4]),
            fingerprint_of_hex(encode_utf8(parts[n - 2])),
            decimal_usize(parts[n - 1]),
        ) {
            (Some(kind), Some(fp), Some(len)) => Some((kind, parts[n - 3], (fp, len))),
            _ => None,
        }
    }
}

/// The error that a malformed result URL gives: a malformed-URL error
/// naming it, except for a bad fingerprint, which is named itself.
pub open spec fn url_error(url: Seq<char>, e: ResolveError) -> bool {
    let parts = url_parts(url);
    let n = parts.len() as int;
    if n < 4 || url_kind(parts[n - 4]) is None {
        e matches ResolveError::MalformedUrl { url: u } && u@ == url
    } else if fingerprint_of_hex(encode_utf8(parts[n - 2])) is None {
        e matches ResolveError::InvalidFingerprint { text } && text@ == parts[n - 2]
    } else {
        e matches ResolveError::MalformedUrl { url: u } && u@ == url
    }
}

/// What the last four segments of a result URL say.
pub struct ResultUrl {
    pub kind: UrlKind,
    pub instance: String,
    pub digest: Digest,
}

proof fn lemma_first_index_from_bounds(s: Seq<char>, c: char, i: int)
    requires
        0 <= i,
    ensures
        i <= first_index_from(s, c, i) || i > s.len(),
        first_index_from(s, c, i) <= s.len() || i > s.len(),
        first_index_from(s, c, i) < s.len() ==> s[first_index_from(s, c, i)] == c,
    decreases s.len() - i,
{
    if i < s.len() && s[i] != c {
        lemma_first_index_from_bounds(s, c, i + 1);
    }
}

proof fn lemma_digits_value_grows(s: Seq<char>, n: int)
    requires
        0 <= n <= s.len(),
        all_digits(s),
    ensures
        digits_value(s.take(n)) <= digits_value(s),
    decreases s.len() - n,
{
    if n < s.len() {
        lemma_digits_value_grows(s, n + 1);
        assert(s.take(n + 1).drop_last() =~= s.take(n));
        assert('0' <= s[n] <= '9');
    } else {
        assert(s.take(n) =~= s);
    }
}

/// The index of the first `c` in `s` at or after `from`.
fn find_char(s: &str, c: char, from: usize, n: usize) -> (r: usize)
    requires
        n == s@.len(),
        from <= n,
    ensures
        r as int == first_index_from(s@, c, from as int),
{
    let mut i = from;
    while i < n
        invariant
            n == s@.len(),
            from <= i <= n,
            first_index_from(s@, c, from as int) == first_index_from(s@, c, i as int),
        decreases n - i,
    {
        if s.get_char(i) == c {
            return i;
        }
        i = i + 1;
    }
    i
}

/// Whether two texts hold the same characters.
pub fn same_text(a: &str, b: &str) -> (r: bool)
    ensures
        r == (a@ == b@),
{
    let n = a.unicode_len();
    if n != b.unicode_len() {
        return false;
    }
    let mut i: usize = 0;
    while i < n
        invariant
            n == a@.len() == b@.len(),
            i <= n,
            forall|k: int| 0 <= k < i ==> a@[k] == b@[k],
        decreases n - i,
    {
        if a.get_char(i) != b.get_char(i) {
            return false;
        }
        i = i + 1;
    }
    assert(a@ =~= b@);
    true
}

/// Splits a text at each `/`.
pub fn split_on_slash(s: &str) -> (r: Vec<String>)
    ensures
        r.deep_view() == split_slash(s@),
{
    let n = s.unicode_len();
    let mut out: Vec<String> = Vec::new();
    let mut start: usize = 0;
    loop
        invariant
            n == s@.len(),
            start <= n,
            split_slash(s@) == out.deep_view() + segments_from(s@, start as int),
        decreases n - start,
    {
        let k = find_char(s, '/', start, n);
        proof {
            lemma_first_index_from_bounds(s@, '/', start as int);
        }
        let ghost prev = out.deep_view();
        if k < n {
            let seg = String::from_str(s.substring_char(start, k));
            out.push(seg);
            assert(out.deep_view() =~= prev.push(s@.subrange(start as int, k as int)));
            assert(segments_from(s@, start as int) == seq![s@.subrange(start as int, k as int)]
                + segments_from(s@, k + 1));
            assert(prev + segments_from(s@, start as int) =~= out.deep_view() + segments_from(
                s@,
                k + 1,
            ));
            start = k + 1;
        } else {
            let seg = String::from_str(s.substring_char(start, n));
            out.push(seg);
            assert(out.deep_view() =~= prev.push(s@.subrange(start as int, n as int)));
            assert(prev + segments_from(s@, start as int) =~= out.deep_view());
            return out;
        }
    }
}

/// The text without the `/`s at its end.
pub fn trim_end_slashes(s: &str) -> (r: &str)
    ensures
        r@ == trim_end(s@, '/'),
{
    let mut end = s.unicode_len();
    assert(s@.take(end as int) =~= s@);
    while end > 0 && s.get_char(end - 1) == '/'
        invariant
            end <= s@.len(),
            trim_end(s@, '/') == trim_end(s@.take(end as int), '/'),
        decreases end,
    {
        assert(s@.take(end as int).drop_last() =~= s@.take(end - 1));
        end = end - 1;
    }
    assert(s@.subrange(0, end as int) =~= s@.take(end as int));
    s.substring_char(0, end)
}

/// Parses a length written in decimal.
pub fn parse_decimal_usize(s: &str) -> (r: Option<usize>)
    ensures
        r == decimal_usize(s@),
{
    let n = s.unicode_len();
    let start: usize = if n > 0 && s.get_char(0) == '+' {
        1
    } else {
        0
    };
    let ghost d = decimal_digits(s@);
    assert(d =~= s@.subrange(start as int, n as int));
    if start == n {
        return None;
    }
    let mut v: usize = 0;
    let mut i: usize = start;
    while i < n
        invariant
            n == s@.len(),
            start <= i <= n,
            d == s@.subrange(start as int, n as int),
            d == decimal_digits(s@),
            all_digits(d.take(i - start)),
            v as nat == digits_value(d.take(i - start)),
        decreases n - i,
    {
        let c = s.get_char(i);
        assert(d[i - start] == c);
        if c < '0' || c > '9' {
            assert(!all_digits(d));
            assert(decimal_usize(s@) is None);
            return None;
        }
        let digit = (c as u32 - 48) as usize;
        assert(d.take(i - start + 1).drop_last() =~= d.take(i - start));
        assert(all_digits(d.take(i - start + 1)));
        if v > (usize::MAX - digit) / 10 {
            proof {
                assert(digits_value(d.take(i - start + 1)) == v * 10 + digit);
                assert(v * 10 + digit > usize::MAX) by (nonlinear_arith)
                    requires
                        v > (usize::MAX - digit) / 10,
                        digit <= 9,
                ;
                if all_digits(d) {
                    lemma_digits_value_grows(d, i - start + 1);
                }
                assert(decimal_usize(s@) is None);
            }
            return None;
        }
        proof {
            assert(v * 10 + digit <= usize::MAX) by (nonlinear_arith)
                requires
                    v <= (usize::MAX - digit) / 10,
                    digit <= 9,
            ;
        }
        v = v * 10 + digit;
        i = i + 1;
    }
    assert(d.take(n - start) =~= d);
    Some(v)
}

/// Reads the kind, instance name, fingerprint and length from the last four
/// segments of a result URL.
pub fn parse_result_url(url: &str) -> (r: Result<ResultUrl, ResolveError>)
    ensures
        match result_url(url@) {
            Some((kind, instance, digest)) => r matches Ok(p) && p.kind == kind && p.instance@
                == instance && p.digest@ == digest,
            None => r matches Err(e) && url_error(url@, e),
        },
{
    let parts = split_on_slash(trim_end_slashes(url));
    let n = parts.len();
    let ghost ps = parts.deep_view();
    assert(ps.len() == n);
    if n < 4 {
        return Err(ResolveError::MalformedUrl { url: String::from_str(url) });
    }
    assert(ps[n - 4] == parts@[n - 4]@);
    assert(ps[n - 3] == parts@[n - 3]@);
    assert(ps[n - 2] == parts@[n - 2]@);
    assert(ps[n - 1] == parts@[n - 1]@);
    let kind_text = parts[n - 4].as_str();
    let kind = if same_text(kind_text, "action") {
        UrlKind::Action
    } else if same_text(kind_text, "uncached_action_result") {
        UrlKind::UncachedActionResult
    } else {
        return Err(ResolveError::MalformedUrl { url: String::from_str(url) });
    };
    let hash = match Fingerprint::from_hex_string(parts[n - 2].as_str()) {
        Some(h) => h,
        None => {
            return Err(ResolveError::InvalidFingerprint { text: parts[n - 2].clone() });
        },
    };
    let size = match parse_decimal_usize(parts[n - 1].as_str()) {
        Some(v) => v,
        None => {
            return Err(ResolveError::MalformedUrl { url: String::from_str(url) });
        },
    };
    Ok(ResultUrl { kind, instance: parts[n - 3].clone(), digest: Digest::new(hash, size) })
}

} // verus!
