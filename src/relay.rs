//! Turning an upstream response head into the outbound one: the status is kept
//! when it can be represented and otherwise becomes 400, and each header is
//! kept only when its name and value are valid on the wire.

use vstd::prelude::*;

verus! {

/// Longest header name that the outbound representation accepts.
pub const MAX_HEADER_NAME_LEN: usize = 65535;

/// Status sent when the upstream status cannot be represented.
pub const FALLBACK_STATUS: u16 = 400;

/// One header of a response: its name and its value, as bytes.
#[derive(Clone, Debug, PartialEq, Eq)]
pub struct Header {
    pub name: Vec<u8>,
    pub value: Vec<u8>,
}

impl View for Header {
    type V = (Seq<u8>, Seq<u8>);

    open spec fn view(&self) -> (Seq<u8>, Seq<u8>) {
        (self.name@, self.value@)
    }
}

/// Status line and headers of the outbound response.
#[derive(Clone, Debug, PartialEq, Eq)]
pub struct RelayHead {
    pub status: u16,
    pub headers: Vec<Header>,
}

/// Lowest status code defined for HTTP (RFC 9110, section 15).
pub const MIN_STATUS: u16 = 100;

/// Highest status code defined for HTTP (RFC 9110, section 15).
pub const MAX_STATUS: u16 = 599;

/// Whether a status code can be represented outbound: it lies in the range
/// of HTTP status codes, 100 to 599.
pub open spec fn status_representable(code: u16) -> bool {
    MIN_STATUS <= code <= MAX_STATUS
}

/// Whether `http::StatusCode` accepts a code: three decimal digits, the first
/// of them non-zero.
pub open spec fn status_code_accepts(code: u16) -> bool {
    100 <= code <= 999
}

/// The outbound status for an upstream status.
pub open spec fn relayed_status(code: u16) -> u16 {
    if status_representable(code) {
        code
    } else {
        FALLBACK_STATUS
    }
}

/// A byte that may stand in a header name (an RFC 9110 token character).
pub open spec fn header_name_char(b: u8) -> bool {
    (48 <= b <= 57) || (65 <= b <= 90) || (97 <= b <= 122) || b == 33 || (35 <= b <= 39) || b
        == 42 || b == 43 || b == 45 || b == 46 || (94 <= b <= 96) || b == 124 || b == 126
}

/// ASCII upper case letters become lower case; other bytes stay.
pub open spec fn lower_byte(b: u8) -> u8 {
    if 65 <= b <= 90 {
        (b + 32) as u8
    } else {
        b
    }
}

/// The header name that a byte string parses to: lower case, or nothing when
/// it is empty, too long or holds a byte outside the token characters.
pub open spec fn parsed_header_name(s: Seq<u8>) -> Option<Seq<u8>> {
    if 1 <= s.len() <= MAX_HEADER_NAME_LEN && forall|i: int|
        0 <= i < s.len() ==> header_name_char(#[trigger] s[i]) {
        Some(s.map_values(|b: u8| lower_byte(b)))
    } else {
        None
    }
}

/// A byte that may stand in a header value: visible ASCII, space, tab, or any
/// byte from 128 up.
pub open spec fn header_value_byte(b: u8) -> bool {
    (b >= 32 && b != 127) || b == 9
}

pub open spec fn header_value_valid(s: Seq<u8>) -> bool {
    forall|i: int| 0 <= i < s.len() ==> header_value_byte(#[trigger] s[i])
}

/// The outbound form of one upstream header, or nothing when it is dropped.
pub open spec fn relayed_header(h: (Seq<u8>, Seq<u8>)) -> Option<(Seq<u8>, Seq<u8>)> {
    match parsed_header_name(h.0) {
        Some(n) => if header_value_valid(h.1) {
            Some((n, h.1))
        } else {
            None
        },
        None => None,
    }
}

/// The outbound headers for a sequence of upstream headers, in their order.
pub open spec fn relayed_headers(hs: Seq<(Seq<u8>, Seq<u8>)>) -> Seq<(Seq<u8>, Seq<u8>)>
    decreases hs.len(),
{
    if hs.len() == 0 {
        Seq::empty()
    } else {
        let rest = relayed_headers(hs.drop_last());
        match relayed_header(hs.last()) {
            Some(h) => rest.push(h),
            None => rest,
        }
    }
}

pub open spec fn header_views(hs: Seq<Header>) -> Seq<(Seq<u8>, Seq<u8>)> {
    hs.map_values(|h: Header| h@)
}

/// Relies on `http::StatusCode::from_u16`, which accepts exactly the codes
/// from 100 to 999; the code is read back with `as_u16`.
#[verifier::external_body]
fn status_from_u16(code: u16) -> (r: Option<u16>)
    ensures
        r == (if status_code_accepts(code) {
            Some(code)
        } else {
            None::<u16>
        }),
{
    axum::http::StatusCode::from_u16(code).ok().map(|s| s.as_u16())
}

/// Relies on `http::HeaderName::from_bytes`: it accepts a name of 1 to 65535
/// token characters and stores it in lower case, which `as_str` returns.
#[verifier::external_body]
fn parse_header_name(bytes: &[u8]) -> (r: Option<Vec<u8>>)
    ensures
        match r {
            Some(v) => parsed_header_name(bytes@) == Some(v@),
            None => parsed_header_name(bytes@) is None,
        },
{
    match axum::http::HeaderName::from_bytes(bytes) {
        Ok(name) => Some(name.as_str().as_bytes().to_vec()),
        Err(_) => None,
    }
}

/// Relies on `http::HeaderValue::from_bytes`: it accepts a value whose every
/// byte is a tab, or at least 32 and not 127, and keeps the bytes as given.
#[verifier::external_body]
fn parse_header_value(bytes: &[u8]) -> (r: Option<Vec<u8>>)
    ensures
        match r {
            Some(v) => header_value_valid(bytes@) && v@ == bytes@,
            None => !header_value_valid(bytes@),
        },
{
    match axum::http::HeaderValue::from_bytes(bytes) {
        Ok(value) => Some(value.as_bytes().to_vec()),
        Err(_) => None,
    }
}

/// The outbound status for an upstream status: kept when it lies in the
/// range of HTTP status codes, 400 otherwise.
pub fn relay_status(code: u16) -> (r: u16)
    ensures
        r == relayed_status(code),
{
    match status_from_u16(code) {
        Some(c) => if c <= MAX_STATUS {
            c
        } else {
            FALLBACK_STATUS
        },
        None => FALLBACK_STATUS,
    }
}

/// The outbound form of one header, or `None` when its name or its value is
/// not valid on the wire.
pub fn relay_header(h: &Header) -> (r: Option<Header>)
    ensures
        match r {
            Some(o) => relayed_header(h@) == Some(o@),
            None => relayed_header(h@) is None,
        },
{
    let name = parse_header_name(h.name.as_slice());
    let value = parse_header_value(h.value.as_slice());
    match (name, value) {
        (Some(n), Some(v)) => Some(Header { name: n, value: v }),
        _ => None,
    }
}

/// Copies the headers one by one, skipping each one that is not valid on the
/// wire; the others keep their order.
pub fn relay_headers(headers: &Vec<Header>) -> (r: Vec<Header>)
    ensures
        header_views(r@) == relayed_headers(header_views(headers@)),
{
    let mut out: Vec<Header> = Vec::new();
    let mut i: usize = 0;
    while i < headers.len()
        invariant
            i <= headers.len(),
            header_views(out@) == relayed_headers(header_views(headers@.subrange(0, i as int))),
        decreases headers.len() - i,
    {
        let ghost pre = header_views(headers@.subrange(0, i as int));
        let ghost next = header_views(headers@.subrange(0, i + 1));
        proof {
            assert(next.drop_last() =~= pre);
            assert(next.last() == headers@[i as int]@);
        }
        match relay_header(&headers[i]) {
            Some(h) => {
                proof {
                    assert(header_views(out@.push(h)) =~= header_views(out@).push(h@));
                }
                out.push(h);
            },
            None => {},
        }
        i += 1;
    }
    assert(headers@.subrange(0, headers.len() as int) =~= headers@);
    out
}

/// The outbound status and headers for an upstream status and headers.
pub fn relay_head(status: u16, headers: &Vec<Header>) -> (r: RelayHead)
    ensures
        r.status == relayed_status(status),
        header_views(r.headers@) == relayed_headers(header_views(headers@)),
{
    RelayHead { status: relay_status(status), headers: relay_headers(headers) }
}

/// A header that passes through unchanged: its name is a valid, lower case
/// header name and its value is valid.
pub open spec fn wire_valid(h: (Seq<u8>, Seq<u8>)) -> bool {
    parsed_header_name(h.0) == Some(h.0) && header_value_valid(h.1)
}

/// A control character other than tab, which no header value may hold.
pub open spec fn control_byte(b: u8) -> bool {
    (b < 32 && b != 9) || b == 127
}

/// Relaying the headers of two parts is relaying each part in turn.
pub proof fn lemma_relayed_headers_concat(a: Seq<(Seq<u8>, Seq<u8>)>, b: Seq<(Seq<u8>, Seq<u8>)>)
    ensures
        relayed_headers(a + b) == relayed_headers(a) + relayed_headers(b),
    decreases b.len(),
{
    if b.len() == 0 {
        assert(a + b =~= a);
        assert(relayed_headers(a) + relayed_headers(b) =~= relayed_headers(a));
    } else {
        lemma_relayed_headers_concat(a, b.drop_last());
        assert((a + b).drop_last() =~= a + b.drop_last());
        assert((a + b).last() == b.last());
        match relayed_header(b.last()) {
            Some(h) => {
                assert(relayed_headers(a) + relayed_headers(b.drop_last()).push(h) =~= (
                relayed_headers(a) + relayed_headers(b.drop_last())).push(h));
            },
            None => {},
        }
    }
}

/// Headers that are all valid on the wire are relayed unchanged, in order.
pub proof fn lemma_valid_headers_unchanged(hs: Seq<(Seq<u8>, Seq<u8>)>)
    requires
        forall|i: int| 0 <= i < hs.len() ==> wire_valid(#[trigger] hs[i]),
    ensures
        relayed_headers(hs) == hs,
    decreases hs.len(),
{
    if hs.len() > 0 {
        let rest = hs.drop_last();
        assert forall|i: int| 0 <= i < rest.len() implies wire_valid(#[trigger] rest[i]) by {
            assert(rest[i] == hs[i]);
        }
        lemma_valid_headers_unchanged(rest);
        assert(wire_valid(hs[hs.len() - 1]));
        assert(rest.push(hs.last()) =~= hs);
    }
}

/// With a representable status and headers that are all valid on the wire,
/// the outbound head equals the upstream head: same status, same headers in
/// the same order.
pub proof fn lemma_relay_round_trip(status: u16, hs: Seq<(Seq<u8>, Seq<u8>)>)
    requires
        status_representable(status),
        forall|i: int| 0 <= i < hs.len() ==> wire_valid(#[trigger] hs[i]),
    ensures
        relayed_status(status) == status,
        relayed_headers(hs) == hs,
{
    lemma_valid_headers_unchanged(hs);
}

/// A header whose value holds a control character is dropped, and every
/// other (valid) header is still relayed, in order.
pub proof fn lemma_control_char_header_dropped(
    before: Seq<(Seq<u8>, Seq<u8>)>,
    bad: (Seq<u8>, Seq<u8>),
    after: Seq<(Seq<u8>, Seq<u8>)>,
    k: int,
)
    requires
        forall|i: int| 0 <= i < before.len() ==> wire_valid(#[trigger] before[i]),
        forall|i: int| 0 <= i < after.len() ==> wire_valid(#[trigger] after[i]),
        0 <= k < bad.1.len(),
        control_byte(bad.1[k]),
    ensures
        relayed_headers(before + seq![bad] + after) == before + after,
{
    lemma_relayed_headers_concat(before + seq![bad], after);
    lemma_relayed_headers_concat(before, seq![bad]);
    lemma_valid_headers_unchanged(before);
    lemma_valid_headers_unchanged(after);
    assert(!header_value_byte(bad.1[k]));
    assert(!header_value_valid(bad.1));
    assert(relayed_header(bad) is None);
    assert(seq![bad].drop_last() =~= Seq::<(Seq<u8>, Seq<u8>)>::empty());
    assert(seq![bad].last() == bad);
    assert(relayed_headers(Seq::<(Seq<u8>, Seq<u8>)>::empty()) =~= Seq::<(Seq<u8>, Seq<u8>)>::empty());
    assert(relayed_headers(seq![bad]) =~= Seq::<(Seq<u8>, Seq<u8>)>::empty());
    assert(before + Seq::<(Seq<u8>, Seq<u8>)>::empty() =~= before);
}

} // verus!
