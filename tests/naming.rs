use m3u8_downloader::naming::{get_segment_filename, uri_file_name};

#[test]
fn segment_name_from_uri() {
    assert_eq!(get_segment_filename("seg1.ts", 0), "seg1.ts");
    assert_eq!(get_segment_filename("http://example.com/a/b/seg2.ts", 3), "seg2.ts");
    assert_eq!(get_segment_filename("dir/", 2), "dir");
    assert_eq!(get_segment_filename("a/./", 2), "a");
    assert_eq!(get_segment_filename("./b", 2), "b");
    assert_eq!(get_segment_filename("a//b.ts", 9), "b.ts");
}

#[test]
fn segment_name_fallback() {
    assert_eq!(get_segment_filename("", 7), "segment_000007.ts");
    assert_eq!(get_segment_filename("/", 12), "segment_000012.ts");
    assert_eq!(get_segment_filename(".", 0), "segment_000000.ts");
    assert_eq!(get_segment_filename("a/..", 1), "segment_000001.ts");
    assert_eq!(get_segment_filename("..", 999999), "segment_999999.ts");
    assert_eq!(get_segment_filename("", 1234567), "segment_1234567.ts");
    assert_eq!(get_segment_filename("", usize::MAX), format!("segment_{:06}.ts", usize::MAX));
}

#[test]
fn segment_name_is_stable() {
    assert_eq!(get_segment_filename("x/y.ts", 4), get_segment_filename("x/y.ts", 4));
    assert_eq!(get_segment_filename("", 4), get_segment_filename("", 4));
}

#[test]
fn uri_file_name_cases() {
    assert_eq!(uri_file_name("a/b"), Some("b".to_string()));
    assert_eq!(uri_file_name("a/b/.."), None);
    assert_eq!(uri_file_name("///"), None);
    assert_eq!(uri_file_name("..."), Some("...".to_string()));
    assert_eq!(uri_file_name("é/ü.ts"), Some("ü.ts".to_string()));
}

#[test]
fn segment_name_agrees_with_path_file_name() {
    let uris = [
        "seg.ts", "a/b/c.ts", "a/b/", "a/b/.", "a/b/..", "/", "", ".", "..", "./x", "x/./", "//x//", "https://h/p/q.ts?token=1",
        "../seg.ts", "a/.../b", "a/..b",
    ];
    for (i, uri) in uris.iter().enumerate() {
        let expected = std::path::Path::new(uri)
            .file_name()
            .and_then(|n| n.to_str())
            .map(|n| n.to_string())
            .unwrap_or(format!("segment_{:06}.ts", i));
        assert_eq!(get_segment_filename(uri, i), expected, "uri {:?}", uri);
    }
}
