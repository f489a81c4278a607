//! The request-line parser.
//!
//! The first line of a request must have the exact shape
//! `METHOD SP PATH SP HTTP/1.VERSION CRLF`, where `METHOD` and `PATH` are
//! non-empty runs of visible ASCII bytes and `VERSION` is the digit `0` or
//! `1`.  Anything else — missing parts, control or non-ASCII bytes in the
//! tokens, no line at all — is a parse failure, answered with a
//! `400 Bad Request` response, never a crash.  No header parsing, no
//! percent-decoding, no query-string splitting.

use vstd::prelude::*;

use crate::error::HttpParseError;
use crate::{CR, LF, SP};

verus! {

/// A byte that may appear in a method or path token: visible ASCII,
/// which excludes the space, `CR`, `LF`, all other controls, and any
/// byte outside the ASCII range.
pub open spec fn is_token_byte(b: u8) -> bool {
    0x21 <= b && b <= 0x7e
}

/// The bytes of `"HTTP/1."`, the fixed protocol prefix of the request line.
pub open spec fn http_version_prefix() -> Seq<u8> {
    seq![0x48u8, 0x54u8, 0x54u8, 0x50u8, 0x2fu8, 0x31u8, 0x2eu8]
}

/// The declarative grammar of a well-formed request buffer: the buffer
/// starts with `m SP p SP HTTP/1.d CRLF`, where `m` and `p` are non-empty
/// token runs and `d` is the ASCII digit `0` or `1`.  Bytes after the `LF`
/// (header lines, a body) are ignored.
pub open spec fn req_shape(s: Seq<u8>, m: Seq<u8>, p: Seq<u8>, d: u8) -> bool {
    &&& m.len() >= 1
    &&& p.len() >= 1
    &&& (forall|i: int| 0 <= i < m.len() ==> is_token_byte(#[trigger] m[i]))
    &&& (forall|i: int| 0 <= i < p.len() ==> is_token_byte(#[trigger] p[i]))
    &&& (d == 0x30 || d == 0x31)
    &&& s.len() >= m.len() + p.len() + 12
    &&& s.take((m.len() + p.len() + 12) as int) == m + seq![SP] + p + seq![SP] + http_version_prefix()
        + seq![d, CR, LF]
}

/// The length of the longest prefix of `s` made of token bytes.
pub open spec fn token_run_len(s: Seq<u8>) -> nat
    decreases s.len(),
{
    if s.len() == 0 || !is_token_byte(s[0]) {
        0
    } else {
        1 + token_run_len(s.skip(1))
    }
}

/// `token_run_len` finds exactly the first non-token position: if the
/// first `k` bytes of `s` are token bytes and byte `k` (when present) is
/// not, the run has length `k`.
pub proof fn lemma_token_run_len_is(s: Seq<u8>, k: int)
    requires
        0 <= k <= s.len(),
        forall|i: int| 0 <= i < k ==> is_token_byte(#[trigger] s[i]),
        k < s.len() ==> !is_token_byte(s[k]),
    ensures
        token_run_len(s) == k,
    decreases k,
{
    if k == 0 {
    } else {
        lemma_token_run_len_is(s.skip(1), k - 1);
    }
}

/// The basic bounds of `token_run_len`: it never exceeds the length, all
/// bytes inside the run are token bytes, and the byte just past the run
/// (when present) is not.
pub proof fn lemma_token_run_len_bounds(s: Seq<u8>)
    ensures
        token_run_len(s) <= s.len(),
        forall|i: int| 0 <= i < token_run_len(s) ==> is_token_byte(#[trigger] s[i]),
        token_run_len(s) < s.len() ==> !is_token_byte(s[token_run_len(s) as int]),
    decreases s.len(),
{
    if s.len() == 0 || !is_token_byte(s[0]) {
    } else {
        lemma_token_run_len_bounds(s.skip(1));
        assert(forall|i: int| 1 <= i < s.len() ==> #[trigger] s[i] == s.skip(1)[i - 1]);
    }
}

/// The parse function of the grammar: `Some((method, path, digit))` when
/// the buffer matches the request-line shape, `None` otherwise.  Scans
/// deterministically: the method ends at the first non-token byte, the
/// path at the next one.
pub open spec fn spec_parse(s: Seq<u8>) -> Option<(Seq<u8>, Seq<u8>, u8)> {
    let i = token_run_len(s) as int;
    if i < 1 || i >= s.len() || s[i] != SP {
        None
    } else {
        let j = i + 1 + token_run_len(s.skip(i + 1)) as int;
        if j == i + 1 || j >= s.len() || s[j] != SP {
            None
        } else if s.len() >= j + 11 && s.subrange(j + 1, j + 8) == http_version_prefix() && (s[j
            + 8] == 0x30 || s[j + 8] == 0x31) && s[j + 9] == CR && s[j + 10] == LF {
            Some((s.take(i), s.subrange(i + 1, j), s[j + 8]))
        } else {
            None
        }
    }
}

/// Soundness of the parse function: a successful parse yields a witness
/// of the declarative grammar.
pub proof fn lemma_parse_sound(s: Seq<u8>, m: Seq<u8>, p: Seq<u8>, d: u8)
    requires
        spec_parse(s) == Some((m, p, d)),
    ensures
        req_shape(s, m, p, d),
{
    lemma_token_run_len_bounds(s);
    let i = token_run_len(s) as int;
    lemma_token_run_len_bounds(s.skip(i + 1));
    let j = i + 1 + token_run_len(s.skip(i + 1)) as int;
    assert(forall|x: int| 0 <= x < j - i - 1 ==> is_token_byte(#[trigger] s.skip(i + 1)[x]));
    assert(forall|x: int| i + 1 <= x < j ==> is_token_byte(#[trigger] s[x])) by {
        assert(forall|x: int| i + 1 <= x < j ==> #[trigger] s[x] == s.skip(i + 1)[x - i - 1]);
    }
    assert(s.take((m.len() + p.len() + 12) as int) =~= m + seq![SP] + p + seq![SP] + http_version_prefix()
        + seq![d, CR, LF]);
}

/// Completeness of the parse function: any witness of the declarative
/// grammar is found, and is the one the deterministic scan yields.
pub proof fn lemma_parse_complete(s: Seq<u8>, m: Seq<u8>, p: Seq<u8>, d: u8)
    requires
        req_shape(s, m, p, d),
    ensures
        spec_parse(s) == Some((m, p, d)),
{
    let t = m + seq![SP] + p + seq![SP] + http_version_prefix() + seq![d, CR, LF];
    let k = (m.len() + p.len() + 12) as int;
    let ml = m.len() as int;
    let pl = p.len() as int;
    assert(s.take(k) == t);
    assert forall|x: int| 0 <= x < k implies s[x] == t[x] by {
        assert(s.take(k)[x] == s[x]);
        assert(s.take(k)[x] == t[x]);
    }
    assert forall|x: int| 0 <= x < ml implies s[x] == m[x] by {
        assert(t[x] == m[x]);
    }
    assert(t[ml] == SP);
    lemma_token_run_len_is(s, ml);
    let i = ml;
    assert forall|x: int| 0 <= x < pl implies s[i + 1 + x] == p[x] by {
        assert(t[i + 1 + x] == p[x]);
    }
    assert forall|x: int| 0 <= x < pl implies is_token_byte(#[trigger] s.skip(i + 1)[x]) by {
        assert(s.skip(i + 1)[x] == s[i + 1 + x]);
    }
    assert(s.skip(i + 1)[pl] == s[i + 1 + pl]);
    assert(t[i + 1 + pl] == SP);
    lemma_token_run_len_is(s.skip(i + 1), pl);
    let j = i + 1 + pl;
    assert forall|x: int| 0 <= x < 7 implies #[trigger] s[j + 1 + x] == http_version_prefix()[x] by {
        assert(t[j + 1 + x] == http_version_prefix()[x]);
    }
    assert(s.subrange(j + 1, j + 8) =~= http_version_prefix());
    assert(t[j + 8] == d);
    assert(t[j + 9] == CR);
    assert(t[j + 10] == LF);
    assert(s.take(i) =~= m);
    assert(s.subrange(i + 1, j) =~= p);
}

/// The grammar is unambiguous: a buffer decomposes into method, path and
/// version digit in at most one way.
pub proof fn lemma_parse_unambiguous(
    s: Seq<u8>,
    m1: Seq<u8>,
    p1: Seq<u8>,
    d1: u8,
    m2: Seq<u8>,
    p2: Seq<u8>,
    d2: u8,
)
    requires
        req_shape(s, m1, p1, d1),
        req_shape(s, m2, p2, d2),
    ensures
        m1 == m2,
        p1 == p2,
        d1 == d2,
{
    lemma_parse_complete(s, m1, p1, d1);
    lemma_parse_complete(s, m2, p2, d2);
}

/// A structured request: the method token, the raw path, and the protocol
/// version digit, taken from the first line of a single read.
#[derive(Debug)]
pub struct Request {
    /// The method token, e.g. the bytes of `GET`.
    pub method: Vec<u8>,
    /// The raw path, exactly as it appeared on the wire: no normalization,
    /// no percent-decoding.
    pub path: Vec<u8>,
    /// The protocol minor version: `0` or `1`.
    pub version: u8,
}

/// Whether `b` may appear in a method or path token.
fn is_token_byte_exec(b: u8) -> (r: bool)
    ensures
        r == is_token_byte(b),
{
    0x21 <= b && b <= 0x7e
}

/// Parse the request line at the start of `buf`.
///
/// Succeeds exactly on the buffers the grammar [`spec_parse`] accepts and
/// returns its structured result; every other buffer is a parse failure.
pub fn parse_request(buf: &[u8]) -> (r: Result<Request, HttpParseError>)
    ensures
        match r {
            Ok(req) => {
                &&& spec_parse(buf@) == Some((req.method@, req.path@, (req.version + 0x30) as u8))
                &&& req.version == 0 || req.version == 1
            },
            Err(e) => {
                &&& spec_parse(buf@) is None
                &&& e.spec_status_code() == 400
            },
        },
{
    let n = buf.len();
    let mut i: usize = 0;
    while i < n && is_token_byte_exec(buf[i])
        invariant
            0 <= i <= n == buf@.len(),
            forall|x: int| 0 <= x < i ==> is_token_byte(#[trigger] buf@[x]),
        decreases n - i,
    {
        i = i + 1;
    }
    proof {
        lemma_token_run_len_is(buf@, i as int);
    }
    if i == 0 || i >= n || buf[i] != SP {
        return Err(HttpParseError::new());
    }
    let mut j: usize = i + 1;
    while j < n && is_token_byte_exec(buf[j])
        invariant
            i + 1 <= j <= n == buf@.len(),
            forall|x: int| i + 1 <= x < j ==> is_token_byte(#[trigger] buf@[x]),
        decreases n - j,
    {
        j = j + 1;
    }
    proof {
        let rest = buf@.skip(i + 1);
        assert(forall|x: int| 0 <= x < j - i - 1 ==> #[trigger] rest[x] == buf@[i + 1 + x]);
        assert(j < n ==> rest[j - i - 1] == buf@[j as int]);
        lemma_token_run_len_is(rest, j - i - 1);
    }
    if j == i + 1 || j >= n || buf[j] != SP {
        return Err(HttpParseError::new());
    }
    if n - j < 11 {
        return Err(HttpParseError::new());
    }
    if buf[j + 1] != 0x48 || buf[j + 2] != 0x54 || buf[j + 3] != 0x54 || buf[j + 4] != 0x50 || buf[j
        + 5] != 0x2f || buf[j + 6] != 0x31 || buf[j + 7] != 0x2e {
        proof {
            assert(buf@.subrange(j + 1, j + 8) != http_version_prefix()) by {
                if buf@.subrange(j + 1, j + 8) == http_version_prefix() {
                    assert(forall|x: int| 0 <= x < 7 ==> buf@[j + 1 + x] == #[trigger] buf@.subrange(
                        j + 1,
                        j + 8,
                    )[x]);
                }
            }
        }
        return Err(HttpParseError::new());
    }
    proof {
        assert(buf@.subrange(j + 1, j + 8) =~= http_version_prefix());
    }
    let digit: u8 = buf[j + 8];
    if digit != 0x30 && digit != 0x31 {
        return Err(HttpParseError::new());
    }
    if buf[j + 9] != CR || buf[j + 10] != LF {
        return Err(HttpParseError::new());
    }
    let method = vstd::slice::slice_to_vec(vstd::slice::slice_subrange(buf, 0, i));
    let path = vstd::slice::slice_to_vec(vstd::slice::slice_subrange(buf, i + 1, j));
    let version: u8 = digit - 0x30;
    Ok(Request { method, path, version })
}

} // verus!
