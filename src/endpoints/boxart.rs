//! The box-art search: from the free-text query to the full-text match
//! expression handed to the index.

use vstd::prelude::*;
use vstd::string::*;
use crate::errors::ApiError;

verus! {

/// Query parameters of the box-art search, each absent when empty.
#[derive(Debug, Clone, PartialEq, Eq)]
pub struct Params {
    pub q: Option<String>,
    pub system: Option<String>,
}

/// What lower-casing a string gives (full Unicode case mapping).
pub uninterp spec fn lowercase_of(s: Seq<char>) -> Seq<char>;

/// Whether a character has the Unicode `White_Space` property: tab, line
/// feed, vertical tab, form feed, carriage return, space, next line,
/// no-break space, ogham space mark, the spaces from en quad to hair space,
/// line separator, paragraph separator, narrow no-break space, medium
/// mathematical space and ideographic space.
pub open spec fn whitespace_char(c: char) -> bool {
    let n = c as u32;
    (0x09 <= n <= 0x0d) || n == 0x20 || n == 0x85 || n == 0xa0 || n == 0x1680 || (0x2000 <= n
        <= 0x200a) || n == 0x2028 || n == 0x2029 || n == 0x202f || n == 0x205f || n == 0x3000
}

/// Whether a character is alphabetic or numeric in Unicode's terms.
pub uninterp spec fn alphanumeric_char(c: char) -> bool;

/// Relies on `str::to_lowercase`: the result depends on the characters alone.
#[verifier::external_body]
fn lowercase(s: &str) -> (r: String)
    ensures
        r@ == lowercase_of(s@),
{
    s.to_lowercase()
}

/// Relies on `char::is_whitespace`, which holds exactly of the characters
/// with the Unicode `White_Space` property.
#[verifier::external_body]
fn is_whitespace(c: char) -> (r: bool)
    ensures
        r == whitespace_char(c),
{
    c.is_whitespace()
}

/// Relies on `char::is_alphanumeric`.
#[verifier::external_body]
fn is_alphanumeric(c: char) -> (r: bool)
    ensures
        r == alphanumeric_char(c),
{
    c.is_alphanumeric()
}

/// Relies on `String::from_iter`, which collects the characters in order.
#[verifier::external_body]
fn string_from_chars(v: &Vec<char>) -> (r: String)
    ensures
        r@ == v@,
{
    String::from_iter(v.iter())
}

/// The words of a text: its maximal runs of non-whitespace characters.
pub open spec fn words(s: Seq<char>) -> Seq<Seq<char>>
    decreases s.len(),
{
    if s.len() == 0 {
        Seq::empty()
    } else {
        let prev = words(s.drop_last());
        let c = s.last();
        if whitespace_char(c) {
            prev
        } else if s.len() > 1 && !whitespace_char(s[s.len() - 2]) {
            prev.update(prev.len() - 1, prev.last().push(c))
        } else {
            prev.push(seq![c])
        }
    }
}

/// The characters of a word that are kept in a match expression.
pub open spec fn term(w: Seq<char>) -> Seq<char> {
    w.filter(|c: char| alphanumeric_char(c))
}

pub open spec fn and_separator() -> Seq<char> {
    seq![' ', 'A', 'N', 'D', ' ']
}

/// The terms of the words, joined by ` AND `.
pub open spec fn joined_terms(ws: Seq<Seq<char>>) -> Seq<char>
    decreases ws.len(),
{
    if ws.len() == 0 {
        Seq::empty()
    } else if ws.len() == 1 {
        term(ws[0])
    } else {
        joined_terms(ws.drop_last()) + and_separator() + term(ws.last())
    }
}

/// The match expression for a free-text query: the lower-cased query's
/// words, each reduced to its alphanumeric characters, joined by ` AND `.
pub open spec fn match_expression(q: Seq<char>) -> Seq<char> {
    joined_terms(words(lowercase_of(q)))
}

/// Splits a text into its words.
fn split_words(text: &str) -> (r: Vec<Vec<char>>)
    ensures
        r@.len() == words(text@).len(),
        forall|k: int| 0 <= k < r@.len() ==> (#[trigger] r@[k])@ == words(text@)[k],
{
    let n = text.unicode_len();
    let mut done: Vec<Vec<char>> = Vec::new();
    let mut cur: Vec<char> = Vec::new();
    let mut i: usize = 0;
    while i < n
        invariant
            n == text@.len(),
            i <= n,
            ({
                let ws = words(text@.subrange(0, i as int));
                if i > 0 && !whitespace_char(text@[i - 1]) {
                    &&& cur@.len() > 0
                    &&& ws.len() == done@.len() + 1
                    &&& ws.last() == cur@
                    &&& forall|k: int| 0 <= k < done@.len() ==> (#[trigger] done@[k])@ == ws[k]
                } else {
                    &&& cur@.len() == 0
                    &&& ws.len() == done@.len()
                    &&& forall|k: int| 0 <= k < done@.len() ==> (#[trigger] done@[k])@ == ws[k]
                }
            }),
        decreases n - i,
    {
        let c = text.get_char(i);
        let ghost pre = text@.subrange(0, i as int);
        let ghost next = text@.subrange(0, i + 1);
        proof {
            assert(next.drop_last() =~= pre);
            assert(next.last() == c);
            if i > 0 {
                assert(next[next.len() - 2] == text@[i - 1]);
            }
        }
        if is_whitespace(c) {
            if cur.len() > 0 {
                let w = cur;
                cur = Vec::new();
                done.push(w);
            }
        } else {
            cur.push(c);
        }
        i += 1;
    }
    if cur.len() > 0 {
        let w = cur;
        done.push(w);
    }
    assert(text@.subrange(0, n as int) =~= text@);
    done
}

/// The alphanumeric characters of a word, in order.
fn keep_alphanumeric(w: &Vec<char>) -> (r: Vec<char>)
    ensures
        r@ == term(w@),
{
    let mut out: Vec<char> = Vec::new();
    let mut i: usize = 0;
    while i < w.len()
        invariant
            i <= w.len(),
            out@ == term(w@.subrange(0, i as int)),
        decreases w.len() - i,
    {
        proof {
            let next = w@.subrange(0, i + 1);
            assert(next.drop_last() =~= w@.subrange(0, i as int));
            assert(next.last() == w@[i as int]);
            reveal(Seq::filter);
        }
        if is_alphanumeric(w[i]) {
            out.push(w[i]);
        }
        i += 1;
    }
    assert(w@.subrange(0, w.len() as int) =~= w@);
    out
}

/// The full-text match expression for a free-text query.
pub fn match_query(q: &str) -> (r: String)
    ensures
        r@ == match_expression(q@),
{
    let lower = lowercase(q);
    let ws = split_words(lower.as_str());
    let ghost spec_ws = words(lower@);
    let mut out: Vec<char> = Vec::new();
    let mut i: usize = 0;
    while i < ws.len()
        invariant
            i <= ws.len(),
            ws@.len() == spec_ws.len(),
            forall|k: int| 0 <= k < ws@.len() ==> (#[trigger] ws@[k])@ == spec_ws[k],
            out@ == joined_terms(spec_ws.subrange(0, i as int)),
        decreases ws.len() - i,
    {
        let t = keep_alphanumeric(&ws[i]);
        proof {
            let next = spec_ws.subrange(0, i + 1);
            assert(next.drop_last() =~= spec_ws.subrange(0, i as int));
            assert(next.last() == spec_ws[i as int]);
            if i == 0 {
                assert(next[0] == spec_ws[0]);
            }
        }
        if i > 0 {
            out.push(' ');
            out.push('A');
            out.push('N');
            out.push('D');
            out.push(' ');
        }
        let mut j: usize = 0;
        let ghost base = out@;
        while j < t.len()
            invariant
                j <= t.len(),
                out@ == base + t@.subrange(0, j as int),
            decreases t.len() - j,
        {
            out.push(t[j]);
            proof {
                assert(base + t@.subrange(0, j + 1) =~= (base + t@.subrange(0, j as int)).push(
                    t@[j as int],
                ));
            }
            j += 1;
        }
        proof {
            assert(t@.subrange(0, t.len() as int) =~= t@);
            if i > 0 {
                assert(base =~= joined_terms(spec_ws.subrange(0, i as int)) + and_separator());
            }
        }
        i += 1;
    }
    assert(spec_ws.subrange(0, ws.len() as int) =~= spec_ws);
    string_from_chars(&out)
}

/// The match expression of a search, or an error when the query is missing.
pub fn query_from_params(params: &Params) -> (r: Result<String, ApiError>)
    ensures
        match params.q {
            None => r matches Err(ApiError::MissingQuery(m)) && m@ == "missing query param"@,
            Some(q) => r matches Ok(e) && e@ == match_expression(q@),
        },
{
    match &params.q {
        None => Err(ApiError::MissingQuery("missing query param")),
        Some(q) => Ok(match_query(q.as_str())),
    }
}

} // verus!
