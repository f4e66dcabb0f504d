//! What the settings need to know of a URL.

use crate::config::text_of;
use vstd::prelude::*;
use vstd::string::StrSliceExecFns;

verus! {

/// The path of the absolute URL that `input` is, or nothing where `input` is
/// no absolute URL.
pub uninterp spec fn spec_url_path(input: Seq<char>) -> Option<Seq<char>>;

/// Parses `input` with `url::Url::parse` and hands out the path of the URL,
/// as `url::Url::path` gives it. Nothing is claimed of what parses or of
/// what the path is, but that both depend on `input` alone: the result is
/// what `spec_url_path` names.
#[verifier::external_body]
fn url_path(input: &str) -> (path: Option<String>)
    ensures
        text_of(path) == spec_url_path(input@),
{
    match url::Url::parse(input) {
        Ok(parsed) => Some(parsed.path().to_string()),
        Err(_) => None,
    }
}

/// Whether `path`, cut at its slashes after the one it begins with, has an
/// empty segment: the path is a lone slash, ends in a slash, or holds two
/// slashes in a row. A path that does not begin with a slash has no
/// segments.
pub open spec fn has_empty_segment(path: Seq<char>) -> bool {
    &&& path.len() > 0
    &&& path[0] == '/'
    &&& exists|start: int| #[trigger] segment_is_empty(path, start)
}

/// A segment of `path` begins at `start`, behind a slash, and ends at once.
pub open spec fn segment_is_empty(path: Seq<char>, start: int) -> bool {
    &&& 1 <= start <= path.len()
    &&& path[start - 1] == '/'
    &&& (start == path.len() || path[start] == '/')
}

/// What is known of an address after parsing it.
pub enum UrlShape {
    /// It is no absolute URL.
    Invalid,
    /// It is an absolute URL, and one of the segments of its path is empty.
    EmptySegment,
    /// It is an absolute URL, and its path has no empty segment.
    Sound,
}

/// The shape of an address, from the path that parsing it gave.
pub open spec fn spec_shape_of_path(path: Option<Seq<char>>) -> UrlShape {
    match path {
        None => UrlShape::Invalid,
        Some(path) => if has_empty_segment(path) {
            UrlShape::EmptySegment
        } else {
            UrlShape::Sound
        },
    }
}

/// Decides whether a segment of `path` is empty.
pub fn find_empty_segment(path: &str) -> (found: bool)
    ensures
        found == has_empty_segment(path@),
{
    let length = path.unicode_len();
    if length == 0 {
        return false;
    }
    if path.get_char(0) != '/' {
        return false;
    }
    let mut start: usize = 1;
    while start < length
        invariant
            length == path@.len(),
            path@[0] == '/',
            1 <= start <= length,
            forall|earlier: int| 1 <= earlier < start ==> !segment_is_empty(path@, earlier),
        decreases length - start,
    {
        if path.get_char(start - 1) == '/' && path.get_char(start) == '/' {
            assert(segment_is_empty(path@, start as int));
            return true;
        }
        start = start + 1;
    }
    let found = path.get_char(length - 1) == '/';
    proof {
        if found {
            assert(segment_is_empty(path@, length as int));
        } else {
            assert forall|any: int| !segment_is_empty(path@, any) by {
                if 1 <= any < length {
                    assert(!segment_is_empty(path@, any));
                }
            }
        }
    }
    found
}

/// The shape of an address, from the path that parsing it gave.
pub fn shape_of_path(path: Option<&str>) -> (shape: UrlShape)
    ensures
        shape == spec_shape_of_path(
            match path {
                Some(text) => Some(text@),
                None => None,
            },
        ),
{
    match path {
        None => UrlShape::Invalid,
        Some(text) => if find_empty_segment(text) {
            UrlShape::EmptySegment
        } else {
            UrlShape::Sound
        },
    }
}

/// Parses `address` and tells its shape.
pub fn shape_of(address: &str) -> (shape: UrlShape)
    ensures
        shape == spec_shape_of_path(spec_url_path(address@)),
{
    match url_path(address) {
        Some(path) => shape_of_path(Some(path.as_str())),
        None => shape_of_path(None),
    }
}

} // verus!
