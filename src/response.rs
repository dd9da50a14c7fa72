//! The backend-neutral response model.

use crate::resolve::text_of;
use crate::text::{split_first, split_once};
use std::time::Duration;
use vstd::prelude::*;
use vstd::utf8::{decode_utf8, valid_utf8};

verus! {

/// Timing breakdown of a transfer; phases without data are zero.
#[derive(Debug, Clone, Copy)]
pub struct Timing {
    pub dns: Duration,
    pub connect: Duration,
    pub tls: Duration,
    pub starttransfer: Duration,
    pub total: Duration,
    pub redirect: Duration,
}

/// The outcome of one transaction.
#[derive(Debug, Clone)]
pub struct Response {
    /// Final status code.
    pub status_code: u32,
    /// Raw header lines as received, the status line excluded.
    pub headers: Vec<String>,
    /// Body; empty when it was written to a file.
    pub body: Vec<u8>,
    /// Timing breakdown, present only when requested and measurable.
    pub timing: Option<Timing>,
}

/// What `String::from_utf8_lossy` returns for a byte sequence.
pub uninterp spec fn lossy_text(b: Seq<u8>) -> Seq<char>;

/// Relies on `String::from_utf8_lossy`: valid UTF-8 is decoded as it is, and
/// each invalid sequence becomes U+FFFD; the result depends on the bytes alone.
#[verifier::external_body]
fn decode_lossy(b: &[u8]) -> (r: String)
    ensures
        r@ == lossy_text(b@),
        valid_utf8(b@) ==> r@ == decode_utf8(b@),
{
    String::from_utf8_lossy(b).into_owned()
}

/// What `str::to_lowercase` returns for a text.
pub uninterp spec fn lower_of(s: Seq<char>) -> Seq<char>;

/// Relies on `str::to_lowercase`: the lower-case mapping of each character,
/// a function of the characters alone.
#[verifier::external_body]
fn to_lower(s: &str) -> (r: String)
    ensures
        r@ == lower_of(s@),
{
    s.to_lowercase()
}

/// White space as Unicode's `White_Space` property defines it.
pub open spec fn is_white_space(c: char) -> bool {
    ||| '\u{9}' <= c <= '\u{d}'
    ||| c == ' '
    ||| c == '\u{85}'
    ||| c == '\u{a0}'
    ||| c == '\u{1680}'
    ||| '\u{2000}' <= c <= '\u{200a}'
    ||| c == '\u{2028}'
    ||| c == '\u{2029}'
    ||| c == '\u{202f}'
    ||| c == '\u{205f}'
    ||| c == '\u{3000}'
}

fn white_space(c: char) -> (r: bool)
    ensures
        r == is_white_space(c),
{
    ('\u{9}' <= c && c <= '\u{d}') || c == ' ' || c == '\u{85}' || c == '\u{a0}' || c == '\u{1680}'
        || ('\u{2000}' <= c && c <= '\u{200a}') || c == '\u{2028}' || c == '\u{2029}' || c
        == '\u{202f}' || c == '\u{205f}' || c == '\u{3000}'
}

/// `s` without its leading white space.
pub open spec fn trim_start(s: Seq<char>) -> Seq<char>
    decreases s.len(),
{
    if s.len() > 0 && is_white_space(s[0]) {
        trim_start(s.drop_first())
    } else {
        s
    }
}

/// `s` without its trailing white space.
pub open spec fn trim_end(s: Seq<char>) -> Seq<char>
    decreases s.len(),
{
    if s.len() > 0 && is_white_space(s.last()) {
        trim_end(s.drop_last())
    } else {
        s
    }
}

/// `s` without leading and trailing white space.
pub open spec fn trim(s: Seq<char>) -> Seq<char> {
    trim_end(trim_start(s))
}

/// Removes leading and trailing white space.
pub fn trim_text(s: &str) -> (r: String)
    ensures
        r@ == trim(s@),
{
    let n = s.unicode_len();
    let mut lo: usize = 0;
    assert(s@.subrange(0, n as int) =~= s@);
    while lo < n && white_space(s.get_char(lo))
        invariant
            n == s@.len(),
            lo <= n,
            trim_start(s@) == trim_start(s@.subrange(lo as int, n as int)),
        decreases n - lo,
    {
        assert(s@.subrange(lo as int, n as int).drop_first() =~= s@.subrange(lo + 1, n as int));
        lo = lo + 1;
    }
    assert(trim_start(s@) == s@.subrange(lo as int, n as int)) by {
        if lo < n {
            assert(s@.subrange(lo as int, n as int)[0] == s@[lo as int]);
        }
    }
    let mut hi: usize = n;
    while hi > lo && white_space(s.get_char(hi - 1))
        invariant
            n == s@.len(),
            lo <= hi <= n,
            trim_end(s@.subrange(lo as int, n as int)) == trim_end(s@.subrange(lo as int, hi as int)),
        decreases hi,
    {
        assert(s@.subrange(lo as int, hi as int).drop_last() =~= s@.subrange(lo as int, hi - 1));
        hi = hi - 1;
    }
    assert(trim_end(s@.subrange(lo as int, hi as int)) == s@.subrange(lo as int, hi as int)) by {
        if hi > lo {
            assert(s@.subrange(lo as int, hi as int).last() == s@[hi - 1]);
        }
    }
    String::from_str(s.substring_char(lo, hi))
}

/// The entry of one raw header line: the lower-cased name before the first
/// colon and the value after it, both trimmed; none for a line without a
/// colon (such as a status line).
pub open spec fn header_entry(line: Seq<char>) -> Option<(Seq<char>, Seq<char>)> {
    match split_first(line, ':') {
        Some((k, v)) => Some((lower_of(trim(k)), trim(v))),
        None => None,
    }
}

/// The entries of a list of raw header lines, in order.
pub open spec fn header_entries(lines: Seq<Seq<char>>) -> Seq<(Seq<char>, Seq<char>)>
    decreases lines.len(),
{
    if lines.len() == 0 {
        Seq::empty()
    } else {
        let rest = header_entries(lines.drop_last());
        match header_entry(lines.last()) {
            Some(e) => rest.push(e),
            None => rest,
        }
    }
}

/// The value of the first entry whose name is `key`.
pub open spec fn find_header(entries: Seq<(Seq<char>, Seq<char>)>, key: Seq<char>) -> Option<Seq<char>>
    decreases entries.len(),
{
    if entries.len() == 0 {
        None
    } else if entries[0].0 == key {
        Some(entries[0].1)
    } else {
        find_header(entries.drop_first(), key)
    }
}

/// The texts of a list of name/value pairs.
pub open spec fn pair_texts(v: Seq<(String, String)>) -> Seq<(Seq<char>, Seq<char>)> {
    v.map_values(|p: (String, String)| (p.0@, p.1@))
}

impl Response {
    /// The body as text, with invalid UTF-8 replaced.
    pub fn body_string(&self) -> (r: String)
        ensures
            r@ == lossy_text(self.body@),
            valid_utf8(self.body@) ==> r@ == decode_utf8(self.body@),
    {
        decode_lossy(self.body.as_slice())
    }

    /// The headers as (lower-cased name, value) pairs, in order; lines
    /// without a colon are skipped.
    pub fn header_map(&self) -> (r: Vec<(String, String)>)
        ensures
            pair_texts(r@) == header_entries(self.headers.deep_view()),
    {
        let mut out: Vec<(String, String)> = Vec::new();
        let mut i: usize = 0;
        while i < self.headers.len()
            invariant
                i <= self.headers@.len(),
                pair_texts(out@) == header_entries(self.headers.deep_view().subrange(0, i as int)),
            decreases self.headers@.len() - i,
        {
            let line = self.headers[i].as_str();
            let ghost lines = self.headers.deep_view().subrange(0, i + 1);
            assert(lines.drop_last() =~= self.headers.deep_view().subrange(0, i as int));
            assert(lines.last() == line@);
            match split_once(line, ':') {
                Some((k, v)) => {
                    let kt = trim_text(k.as_str());
                    let key = to_lower(kt.as_str());
                    let value = trim_text(v.as_str());
                    let ghost before = out@;
                    out.push((key, value));
                    assert(pair_texts(out@) =~= pair_texts(before).push((key@, value@)));
                },
                None => {},
            }
            i = i + 1;
        }
        assert(self.headers.deep_view().subrange(0, i as int) =~= self.headers.deep_view());
        out
    }

    /// The value of the first header named `name`, compared without regard
    /// to case.
    pub fn get_header(&self, name: &str) -> (r: Option<String>)
        ensures
            text_of(r) == find_header(header_entries(self.headers.deep_view()), lower_of(name@)),
    {
        let wanted = to_lower(name);
        let entries = self.header_map();
        let mut i: usize = 0;
        assert(pair_texts(entries@).subrange(0, entries@.len() as int) =~= pair_texts(entries@));
        while i < entries.len()
            invariant
                i <= entries@.len(),
                wanted@ == lower_of(name@),
                pair_texts(entries@) == header_entries(self.headers.deep_view()),
                find_header(pair_texts(entries@), wanted@) == find_header(
                    pair_texts(entries@).subrange(i as int, entries@.len() as int),
                    wanted@,
                ),
            decreases entries@.len() - i,
        {
            let ghost rest = pair_texts(entries@).subrange(i as int, entries@.len() as int);
            assert(rest.drop_first() =~= pair_texts(entries@).subrange(i + 1, entries@.len() as int));
            assert(rest[0] == (entries@[i as int].0@, entries@[i as int].1@));
            if entries[i].0 == wanted {
                assert(find_header(rest, wanted@) == Some(rest[0].1));
                return Some(entries[i].1.clone());
            }
            i = i + 1;
        }
        None
    }
}

} // verus!
