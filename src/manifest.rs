//! What the downloader reads from a playlist manifest: the segment URIs, in
//! order, and the location of the single decryption key, if one is declared.

use vstd::prelude::*;
use crate::error::DownloadError;
use crate::text::{chars_of, find_chars, find_from, has_prefix, starts_with_chars};

verus! {

/// The segment URIs, in manifest order, that the media-playlist parser reads
/// from `content`; `None` when it does not parse as a media playlist.
pub uninterp spec fn media_playlist_uris(content: Seq<char>) -> Option<Seq<Seq<char>>>;

/// Relies on `m3u8_rs::parse_media_playlist`: the parsed playlist's segments,
/// each reduced to its URI, in the order the parser lists them.
#[verifier::external_body]
fn parse_media_playlist_uris(content: &str) -> (r: Option<Vec<String>>)
    ensures
        match r {
            Some(v) => media_playlist_uris(content@) == Some(v@.map_values(|u: String| u@)),
            None => media_playlist_uris(content@) is None,
        },
{
    match m3u8_rs::parse_media_playlist(content.as_bytes()) {
        Ok((_, playlist)) => Some(playlist.segments.into_iter().map(|s| s.uri).collect()),
        Err(_) => None,
    }
}

/// The segment URIs of a media playlist, in manifest order; `ParseError` when
/// the content is not a media playlist.
pub fn parse_m3u8(content: &str) -> (r: Result<Vec<String>, DownloadError>)
    ensures
        match media_playlist_uris(content@) {
            Some(uris) => (r matches Ok(v) && v@.map_values(|u: String| u@) == uris),
            None => r matches Err(DownloadError::ParseError(_)),
        },
{
    match parse_media_playlist_uris(content) {
        Some(v) => Ok(v),
        None => Err(DownloadError::ParseError(String::from_str("not a media playlist"))),
    }
}

/// `#EXT-X-KEY:`, the tag that declares a decryption key.
pub open spec fn key_tag() -> Seq<char> {
    seq!['#', 'E', 'X', 'T', '-', 'X', '-', 'K', 'E', 'Y', ':']
}

/// `URI="`, which opens the key's location inside the tag.
pub open spec fn uri_attr() -> Seq<char> {
    seq!['U', 'R', 'I', '=', '"']
}

/// The key location declared on one manifest line: the line starts with the
/// key tag, and the location is what stands between the first `URI="` and the
/// next `"`.
pub open spec fn line_key_uri(line: Seq<char>) -> Option<Seq<char>> {
    if !has_prefix(line, key_tag()) {
        None
    } else {
        match find_from(line, uri_attr(), 0) {
            None => None,
            Some(a) => match find_from(line, seq!['"'], a + 5) {
                None => None,
                Some(e) => Some(line.subrange(a + 5, e)),
            },
        }
    }
}

/// Index of the first line break at or after `i`, or the length of `s`.
pub open spec fn line_end(s: Seq<char>, i: int) -> int
    decreases s.len() - i,
{
    if i >= s.len() {
        s.len() as int
    } else if s[i] == '\n' {
        i
    } else {
        line_end(s, i + 1)
    }
}

/// Where the line that starts at `i` ends, and that it holds no line break.
pub proof fn lemma_line_end(s: Seq<char>, i: int)
    requires
        0 <= i,
    ensures
        i <= line_end(s, i) || (i > s.len() && line_end(s, i) == s.len()),
        line_end(s, i) <= s.len() || i > s.len(),
        line_end(s, i) < s.len() ==> s[line_end(s, i)] == '\n',
        forall|k: int| i <= k < line_end(s, i) ==> s[k] != '\n',
    decreases s.len() - i,
{
    if i < s.len() && s[i] != '\n' {
        lemma_line_end(s, i + 1);
    }
}

/// The key location of the first line, from the line that starts at `start`
/// on, that declares one.
pub open spec fn key_uri_from(content: Seq<char>, start: int) -> Option<Seq<char>>
    decreases content.len() - start,
{
    if start < 0 || start > content.len() {
        None
    } else {
        let end = line_end(content, start);
        match line_key_uri(content.subrange(start, end)) {
            Some(u) => Some(u),
            None => if end >= content.len() {
                None
            } else {
                proof {
                    lemma_line_end(content, start);
                }
                key_uri_from(content, end + 1)
            },
        }
    }
}

/// The key location that `content` declares: that of its first line which
/// starts with `#EXT-X-KEY:` and holds a complete `URI="..."` attribute.
pub open spec fn manifest_key_uri(content: Seq<char>) -> Option<Seq<char>> {
    key_uri_from(content, 0)
}

/// Index of the first line break at or after `i`, or the length of `s`.
fn find_line_end(s: &Vec<char>, i: usize) -> (r: usize)
    requires
        i <= s@.len(),
    ensures
        r == line_end(s@, i as int),
        i <= r <= s@.len(),
{
    let mut j: usize = i;
    while j < s.len() && s[j] != '\n'
        invariant
            i <= j <= s@.len(),
            line_end(s@, j as int) == line_end(s@, i as int),
        decreases s@.len() - j,
    {
        j = j + 1;
    }
    j
}

/// The key location declared on `line`, as character indices into it.
fn line_key_span(line: &Vec<char>, tag: &Vec<char>, attr: &Vec<char>, quote: &Vec<char>) -> (r: Option<(usize, usize)>)
    requires
        tag@ == key_tag(),
        attr@ == uri_attr(),
        quote@ == seq!['"'],
    ensures
        match line_key_uri(line@) {
            Some(u) => (r matches Some((a, e)) && a <= e <= line@.len() && line@.subrange(a as int, e as int) == u),
            None => r is None,
        },
{
    if !starts_with_chars(line, tag) {
        return None;
    }
    match find_chars(line, attr, 0) {
        None => None,
        Some(a) => {
            proof {
                lemma_find_from_bounds(line@, attr@, 0);
            }
            let n = line.len();
            assert(a + 5 <= n);
            match find_chars(line, quote, a + 5) {
                None => None,
                Some(e) => {
                    proof {
                        lemma_find_from_bounds(line@, quote@, a + 5);
                    }
                    Some((a + 5, e))
                },
            }
        },
    }
}

proof fn lemma_find_from_bounds(s: Seq<char>, pat: Seq<char>, i: int)
    ensures
        find_from(s, pat, i) matches Some(j) ==> i <= j && j + pat.len() <= s.len(),
    decreases s.len() + 1 - i,
{
    if !(i < 0 || i + pat.len() > s.len()) && s.subrange(i, i + pat.len()) != pat {
        lemma_find_from_bounds(s, pat, i + 1);
    }
}

/// The location of the decryption key that the manifest `content` declares:
/// the text between `URI="` and the next `"` on the first line that starts
/// with `#EXT-X-KEY:` and holds both; `None` when no line does.
pub fn find_key_uri(content: &str) -> (r: Option<String>)
    ensures
        match manifest_key_uri(content@) {
            Some(u) => (r matches Some(s) && s@ == u),
            None => r is None,
        },
{
    let cs = chars_of(content);
    let tag = chars_of("#EXT-X-KEY:");
    let attr = chars_of("URI=\"");
    let quote = chars_of("\"");
    proof {
        reveal_strlit("#EXT-X-KEY:");
        reveal_strlit("URI=\"");
        reveal_strlit("\"");
        assert(tag@ =~= key_tag());
        assert(attr@ =~= uri_attr());
        assert(quote@ =~= seq!['"']);
    }
    let mut start: usize = 0;
    while start <= cs.len()
        invariant
            cs@ == content@,
            tag@ == key_tag(),
            attr@ == uri_attr(),
            quote@ == seq!['"'],
            key_uri_from(cs@, start as int) == manifest_key_uri(content@),
        decreases cs@.len() + 1 - start,
    {
        let end = find_line_end(&cs, start);
        let mut line: Vec<char> = Vec::new();
        let mut k: usize = start;
        while k < end
            invariant
                start <= k <= end <= cs@.len(),
                line@ == cs@.subrange(start as int, k as int),
            decreases end - k,
        {
            line.push(cs[k]);
            assert(line@ =~= cs@.subrange(start as int, k + 1));
            k = k + 1;
        }
        match line_key_span(&line, &tag, &attr, &quote) {
            Some((a, e)) => {
                assert(cs@.subrange(start as int, end as int).subrange(a as int, e as int)
                    =~= cs@.subrange(start + a, start + e));
                let uri = content.substring_char(start + a, start + e);
                return Some(uri.to_owned());
            },
            None => {
                if end >= cs.len() {
                    return None;
                }
                start = end + 1;
            },
        }
    }
    None
}

} // verus!
