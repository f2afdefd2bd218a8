//! Resolving segment and key URIs against the manifest's base location.

use vstd::prelude::*;
use crate::error::DownloadError;
use crate::text::{chars_of, has_prefix, starts_with_chars};

verus! {

/// The serialized URL that joining `reference` onto the URL `base` gives, per
/// the URL standard; `None` when `base` is not a URL or the join fails.
pub uninterp spec fn url_join(base: Seq<char>, reference: Seq<char>) -> Option<Seq<char>>;

/// Relies on `url::Url::parse` for the base and `url::Url::join` for the
/// reference: the joined URL is a function of the two strings.
#[verifier::external_body]
fn join_url(base: &str, reference: &str) -> (r: Option<String>)
    ensures
        match r {
            Some(s) => url_join(base@, reference@) == Some(s@),
            None => url_join(base@, reference@) is None,
        },
{
    match url::Url::parse(base) {
        Ok(b) => match b.join(reference) {
            Ok(u) => Some(u.to_string()),
            Err(_) => None,
        },
        Err(_) => None,
    }
}

/// `uri` already names an HTTP or HTTPS resource in full.
pub open spec fn is_absolute_http(uri: Seq<char>) -> bool {
    has_prefix(uri, seq!['h', 't', 't', 'p', ':', '/', '/'])
        || has_prefix(uri, seq!['h', 't', 't', 'p', 's', ':', '/', '/'])
}

/// The location that `uri` names relative to `base`: an absolute `http://` or
/// `https://` URI as it stands, any other joined onto the base.
pub open spec fn resolved(base: Seq<char>, uri: Seq<char>) -> Option<Seq<char>> {
    if is_absolute_http(uri) {
        Some(uri)
    } else {
        url_join(base, uri)
    }
}

/// Resolves `url` against the base location `base_url`. Absolute HTTP(S)
/// URIs pass through unchanged; others are joined onto the base, and a join
/// that fails is a `ParseError`.
pub fn resolve_url(base_url: &str, url: &str) -> (r: Result<String, DownloadError>)
    ensures
        match resolved(base_url@, url@) {
            Some(s) => (r matches Ok(v) && v@ == s),
            None => r matches Err(DownloadError::ParseError(_)),
        },
{
    let cs = chars_of(url);
    let http = chars_of("http://");
    let https = chars_of("https://");
    proof {
        reveal_strlit("http://");
        reveal_strlit("https://");
        assert(http@ =~= seq!['h', 't', 't', 'p', ':', '/', '/']);
        assert(https@ =~= seq!['h', 't', 't', 'p', 's', ':', '/', '/']);
    }
    if starts_with_chars(&cs, &http) || starts_with_chars(&cs, &https) {
        return Ok(url.to_owned());
    }
    match join_url(base_url, url) {
        Some(s) => Ok(s),
        None => Err(DownloadError::ParseError(String::from_str("cannot resolve the location against the base"))),
    }
}

} // verus!
