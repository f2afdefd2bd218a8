use m3u8_downloader::error::DownloadError;
use m3u8_downloader::location::resolve_url;

const BASE: &str = "https://example.com/a/b/index.m3u8";

#[test]
fn relative_uri_is_joined() {
    assert_eq!(resolve_url(BASE, "seg.ts").unwrap(), "https://example.com/a/b/seg.ts");
    assert_eq!(resolve_url(BASE, "/root.ts").unwrap(), "https://example.com/root.ts");
    assert_eq!(resolve_url(BASE, "../up.ts").unwrap(), "https://example.com/a/up.ts");
}

#[test]
fn absolute_uri_passes_through() {
    assert_eq!(resolve_url(BASE, "http://other.org/x.ts").unwrap(), "http://other.org/x.ts");
    assert_eq!(resolve_url("not a url", "https://other.org/y.ts").unwrap(), "https://other.org/y.ts");
}

#[test]
fn unresolvable_uri_is_parse_error() {
    assert!(matches!(resolve_url("not a url", "seg.ts"), Err(DownloadError::ParseError(_))));
}
