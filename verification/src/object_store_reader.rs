//! Descriptions of files held in an object store and helpers for their
//! locations.

use vstd::prelude::*;
use vstd::slice::slice_subrange;
use vstd::string::StringExecFns;
use crate::error::CsvError;
use crate::text::{chars_of, string_of};

verus! {

/// Metadata about a delimited-text file in an object store.
#[derive(Debug)]
pub struct CsvFileMetadata {
    /// File path or location.
    pub location: String,
    /// File size in bytes.
    pub size: usize,
    /// Last-modified timestamp, when known.
    pub last_modified: Option<i64>,
}

/// `CsvFileMetadata` with the location as a sequence of characters.
pub struct MetadataView {
    pub location: Seq<char>,
    pub size: usize,
    pub last_modified: Option<i64>,
}

impl View for CsvFileMetadata {
    type V = MetadataView;

    open spec fn view(&self) -> MetadataView {
        MetadataView {
            location: self.location@,
            size: self.size,
            last_modified: self.last_modified,
        }
    }
}

impl Clone for CsvFileMetadata {
    fn clone(&self) -> (copy: Self)
        ensures
            copy@ == self@,
    {
        CsvFileMetadata {
            location: self.location.clone(),
            size: self.size,
            last_modified: self.last_modified,
        }
    }
}

impl CsvFileMetadata {
    /// Metadata of a file at `location` of `size` bytes, last modified at an
    /// unknown time.
    pub fn new(location: &str, size: usize) -> (meta: Self)
        ensures
            meta@ == (MetadataView { location: location@, size, last_modified: None }),
    {
        CsvFileMetadata { location: String::from_str(location), size, last_modified: None }
    }

    /// Sets the last-modified timestamp.
    pub fn with_last_modified(self, timestamp: i64) -> (meta: Self)
        ensures
            meta@ == (MetadataView { last_modified: Some(timestamp), ..self@ }),
    {
        CsvFileMetadata { last_modified: Some(timestamp), ..self }
    }

    /// Whether the file holds no bytes.
    pub fn is_empty(&self) -> (empty: bool)
        ensures
            empty == (self@.size == 0),
    {
        self.size == 0
    }
}

/// `s` without its leading occurrences of `c`.
pub open spec fn trim_leading(s: Seq<char>, c: char) -> Seq<char>
    decreases s.len(),
{
    if s.len() > 0 && s[0] == c {
        trim_leading(s.drop_first(), c)
    } else {
        s
    }
}

/// The URL of `path` in `bucket` under `scheme`; the path alone, for the
/// local file system, when the scheme is empty.
pub open spec fn spec_make_url(scheme: Seq<char>, bucket: Seq<char>, path: Seq<char>) -> Seq<char> {
    if scheme.len() == 0 {
        path
    } else {
        scheme + "://"@ + bucket + "/"@ + trim_leading(path, '/')
    }
}

/// Builds the URL of an object: `scheme://bucket/path`, the path without its
/// leading slashes. With an empty scheme the path is a local one and is
/// returned as it is.
pub fn make_url(scheme: &str, bucket: &str, path: &str) -> (url: String)
    ensures
        url@ == spec_make_url(scheme@, bucket@, path@),
{
    if scheme.is_empty() {
        String::from_str(path)
    } else {
        let chars = chars_of(path);
        let n = chars.len();
        let mut start: usize = 0;
        assert(chars@.skip(0) =~= chars@);
        while start < n && chars[start] == '/'
            invariant
                n == chars@.len(),
                start <= n,
                trim_leading(chars@, '/') == trim_leading(chars@.skip(start as int), '/'),
            decreases n - start,
        {
            assert(chars@.skip(start as int).drop_first() =~= chars@.skip(start + 1));
            start = start + 1;
        }
        let rest = string_of(slice_subrange(chars.as_slice(), start, n));
        assert(rest@ =~= trim_leading(path@, '/'));
        String::from_str(scheme).concat("://").concat(bucket).concat("/").concat(rest.as_str())
    }
}

/// Whether `s` holds `://` at position `i`.
pub open spec fn separator_at(s: Seq<char>, i: int) -> bool {
    0 <= i && i + 3 <= s.len() && s[i] == ':' && s[i + 1] == '/' && s[i + 2] == '/'
}

/// The first position at or after `from` where `s` holds `://`, or the
/// length of `s` when there is none.
pub open spec fn first_separator(s: Seq<char>, from: int) -> int
    decreases s.len() - from,
{
    if from < 0 || from + 3 > s.len() {
        s.len() as int
    } else if separator_at(s, from) {
        from
    } else {
        first_separator(s, from + 1)
    }
}

/// The scheme of `url`, if it has one, and what follows the first `://`; a
/// URL without `://` is a local path without scheme.
pub open spec fn spec_parse_url(url: Seq<char>) -> (Option<Seq<char>>, Seq<char>) {
    let at = first_separator(url, 0);
    if at < url.len() {
        (Some(url.take(at)), url.skip(at + 3))
    } else {
        (None, url)
    }
}

/// Splits an object store URL at its first `://` into scheme and rest. This
/// never fails: a URL without `://` is a local path.
pub fn parse_url(url: &str) -> (parts: Result<(Option<String>, String), CsvError>)
    ensures
        parts matches Ok((scheme, rest)) && {
            &&& rest@ == spec_parse_url(url@).1
            &&& match scheme {
                Some(s) => spec_parse_url(url@).0 == Some(s@),
                None => spec_parse_url(url@).0 is None,
            }
        },
{
    let chars = chars_of(url);
    let n = chars.len();
    if n < 3 {
        return Ok((None, String::from_str(url)));
    }
    let last = n - 3;
    let mut at: usize = 0;
    while at <= last && !(chars[at] == ':' && chars[at + 1] == '/' && chars[at + 2] == '/')
        invariant
            n == chars@.len(),
            last == n - 3,
            at <= last + 1,
            first_separator(chars@, 0) == first_separator(chars@, at as int),
        decreases last + 1 - at,
    {
        at = at + 1;
    }
    if at <= last {
        let scheme = string_of(slice_subrange(chars.as_slice(), 0, at));
        let rest = string_of(slice_subrange(chars.as_slice(), at + 3, n));
        Ok((Some(scheme), rest))
    } else {
        Ok((None, String::from_str(url)))
    }
}

} // verus!
