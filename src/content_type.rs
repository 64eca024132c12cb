//! The rule that decides whether a request's `Content-Type` announces XML.

use vstd::prelude::*;

verus! {

/// Optional whitespace around a media type: space or horizontal tab.
pub open spec fn is_ows(c: char) -> bool {
    c == ' ' || c == '\t'
}

/// Number of characters before the first `;`, i.e. before any parameter.
pub open spec fn essence_end(s: Seq<char>) -> nat
    decreases s.len(),
{
    if s.len() == 0 || s[0] == ';' {
        0
    } else {
        1 + essence_end(s.drop_first())
    }
}

/// `s` without leading and trailing optional whitespace.
pub open spec fn trim_ows(s: Seq<char>) -> Seq<char>
    decreases s.len(),
{
    if s.len() == 0 {
        s
    } else if is_ows(s[0]) {
        trim_ows(s.drop_first())
    } else if is_ows(s.last()) {
        trim_ows(s.drop_last())
    } else {
        s
    }
}

/// The media type of a header value: the part before any `;`, trimmed.
pub open spec fn media_essence(s: Seq<char>) -> Seq<char> {
    trim_ows(s.take(essence_end(s) as int))
}

pub open spec fn has_suffix(s: Seq<char>, suffix: Seq<char>) -> bool {
    s.len() >= suffix.len() && s.subrange(s.len() - suffix.len(), s.len() as int) == suffix
}

/// A media type that is XML: `application/xml`, `text/xml`, or any type with
/// the `+xml` structured syntax suffix.
pub open spec fn is_xml_essence(e: Seq<char>) -> bool {
    e == "application/xml"@ || e == "text/xml"@ || has_suffix(e, "+xml"@)
}

/// Whether a header value announces an XML body; parameters do not matter.
pub open spec fn is_xml_media_type(s: Seq<char>) -> bool {
    is_xml_essence(media_essence(s))
}

/// Whether a request with this `Content-Type` (or none) has an XML body.
pub open spec fn accepts_xml(content_type: Option<Seq<char>>) -> bool {
    match content_type {
        Some(s) => is_xml_media_type(s),
        None => false,
    }
}

/// The view of an optional header value.
pub open spec fn header_view(content_type: Option<&str>) -> Option<Seq<char>> {
    match content_type {
        Some(s) => Some(s@),
        None => None,
    }
}

fn ows_char(c: char) -> (r: bool)
    ensures
        r == is_ows(c),
{
    c == ' ' || c == '\t'
}

/// Whether the characters of `s` in `[lo, hi)` are exactly `lit`.
fn range_equals(s: &str, lo: usize, hi: usize, lit: &str) -> (r: bool)
    requires
        lo <= hi <= s@.len(),
    ensures
        r == (s@.subrange(lo as int, hi as int) == lit@),
{
    let m = lit.unicode_len();
    if hi - lo != m {
        return false;
    }
    let mut j: usize = 0;
    while j < m
        invariant
            lo <= hi <= s@.len(),
            hi - lo == m,
            m == lit@.len(),
            0 <= j <= m,
            forall|k: int| 0 <= k < j ==> s@[lo + k] == lit@[k],
        decreases m - j,
    {
        if s.get_char(lo + j) != lit.get_char(j) {
            assert(s@.subrange(lo as int, hi as int)[j as int] != lit@[j as int]);
            return false;
        }
        j += 1;
    }
    assert(s@.subrange(lo as int, hi as int) =~= lit@);
    true
}

/// Whether the characters of `s` in `[lo, hi)` end with `suffix`.
fn range_ends_with(s: &str, lo: usize, hi: usize, suffix: &str) -> (r: bool)
    requires
        lo <= hi <= s@.len(),
    ensures
        r == has_suffix(s@.subrange(lo as int, hi as int), suffix@),
{
    let m = suffix.unicode_len();
    if hi - lo < m {
        return false;
    }
    let r = range_equals(s, hi - m, hi, suffix);
    let ghost e = s@.subrange(lo as int, hi as int);
    assert(e.subrange(e.len() - m, e.len() as int) =~= s@.subrange(hi - m, hi as int));
    r
}

/// Whether a present header value announces an XML body.
pub fn is_xml_media_type_str(s: &str) -> (r: bool)
    ensures
        r == is_xml_media_type(s@),
{
    let n = s.unicode_len();
    let mut end: usize = 0;
    assert(s@.subrange(0, n as int) =~= s@);
    while end < n && s.get_char(end) != ';'
        invariant
            n == s@.len(),
            end <= n,
            essence_end(s@) == end + essence_end(s@.subrange(end as int, n as int)),
        decreases n - end,
    {
        assert(s@.subrange(end as int, n as int).drop_first() =~= s@.subrange(end + 1, n as int));
        end += 1;
    }
    assert(essence_end(s@) == end);
    assert(s@.take(end as int) =~= s@.subrange(0, end as int));
    let mut lo: usize = 0;
    let mut hi: usize = end;
    while lo < hi && ows_char(s.get_char(lo))
        invariant
            n == s@.len(),
            lo <= hi,
            hi == end <= n,
            trim_ows(s@.subrange(lo as int, hi as int)) == media_essence(s@),
        decreases hi - lo,
    {
        assert(s@.subrange(lo as int, hi as int).drop_first() =~= s@.subrange(lo + 1, hi as int));
        lo += 1;
    }
    while lo < hi && ows_char(s.get_char(hi - 1))
        invariant
            n == s@.len(),
            lo <= hi <= end <= n,
            lo < hi ==> !is_ows(s@[lo as int]),
            trim_ows(s@.subrange(lo as int, hi as int)) == media_essence(s@),
        decreases hi - lo,
    {
        assert(s@.subrange(lo as int, hi as int).drop_last() =~= s@.subrange(lo as int, hi - 1));
        hi -= 1;
    }
    assert(trim_ows(s@.subrange(lo as int, hi as int)) == s@.subrange(lo as int, hi as int));
    range_equals(s, lo, hi, "application/xml") || range_equals(s, lo, hi, "text/xml")
        || range_ends_with(s, lo, hi, "+xml")
}

/// Whether a request whose `Content-Type` header is `content_type` (`None`
/// when absent) carries an XML body. Parameters after `;` and whitespace
/// around the media type are ignored.
pub fn is_xml_content_type(content_type: Option<&str>) -> (r: bool)
    ensures
        r == accepts_xml(header_view(content_type)),
{
    match content_type {
        Some(s) => is_xml_media_type_str(s),
        None => false,
    }
}

} // verus!
