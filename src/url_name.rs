use vstd::prelude::*;

use crate::error::FetchError;

verus! {

/// What parsing `s` as a URL gives: `None` where it does not parse,
/// `Some(None)` where the URL has no path segments (a cannot-be-a-base URL),
/// and otherwise its path segments in order.
pub uninterp spec fn url_path_segments(s: Seq<char>) -> Option<Option<Seq<Seq<char>>>>;

/// The text of each segment.
pub open spec fn segs_view(o: Option<Vec<String>>) -> Option<Seq<Seq<char>>> {
    match o {
        Some(v) => Some(v@.map_values(|seg: String| seg@)),
        None => None,
    }
}

/// Relies on `url::Url::parse` and `url::Url::path_segments`: the URL's path
/// segments, which depend on the text alone.
#[verifier::external_body]
fn parse_path_segments(s: &str) -> (r: Option<Option<Vec<String>>>)
    ensures
        r is None <==> url_path_segments(s@) is None,
        r matches Some(o) ==> url_path_segments(s@) == Some(segs_view(o)),
{
    match url::Url::parse(s) {
        Ok(u) => Some(u.path_segments().map(|p| p.map(|seg| seg.to_string()).collect())),
        Err(_) => None,
    }
}

/// The file name named by the path segments of a URL: the last one.
pub open spec fn name_from_segments(p: Option<Option<Seq<Seq<char>>>>) -> Result<
    Seq<char>,
    FetchError,
> {
    match p {
        None => Err(FetchError::UrlParseError),
        Some(None) => Err(FetchError::MissingPathSegment),
        Some(Some(segs)) => if segs.len() == 0 {
            Err(FetchError::MissingPathSegment)
        } else {
            Ok(segs.last())
        },
    }
}

/// The file name that URL `u` names, or why there is none.
pub open spec fn file_name_spec(u: Seq<char>) -> Result<Seq<char>, FetchError> {
    name_from_segments(url_path_segments(u))
}

/// Picks the file name out of the outcome of parsing a URL: the last path
/// segment, or the error kind.
pub fn file_name_from_parsed(parsed: Option<Option<Vec<String>>>) -> (r: Result<
    String,
    FetchError,
>)
    ensures
        match name_from_segments(
            match parsed {
                Some(o) => Some(segs_view(o)),
                None => None,
            },
        ) {
            Ok(n) => r matches Ok(s) && s@ == n,
            Err(e) => r == Err::<String, FetchError>(e),
        },
{
    match parsed {
        None => Err(FetchError::UrlParseError),
        Some(None) => Err(FetchError::MissingPathSegment),
        Some(Some(mut segs)) => {
            let ghost all = segs@;
            match segs.pop() {
                None => Err(FetchError::MissingPathSegment),
                Some(last) => {
                    assert(all.map_values(|seg: String| seg@).last() == last@);
                    Ok(last)
                },
            }
        },
    }
}

/// The file name of a resource: the last path segment of its URL.
pub fn file_name_of(url: &str) -> (r: Result<String, FetchError>)
    ensures
        match file_name_spec(url@) {
            Ok(n) => r matches Ok(s) && s@ == n,
            Err(e) => r == Err::<String, FetchError>(e),
        },
{
    file_name_from_parsed(parse_path_segments(url))
}

} // verus!
