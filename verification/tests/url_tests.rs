use tmpc::urls::canonicalize_url;

#[test]
fn short_url_becomes_watch_url() {
    assert_eq!(
        canonicalize_url("https://youtu.be/abc?t=10"),
        "https://youtube.com/watch?v=abc&t=10"
    );
}

#[test]
fn short_url_with_timestamp_42() {
    assert_eq!(
        canonicalize_url("https://youtu.be/dQw4w9WgXcQ?t=42"),
        "https://youtube.com/watch?v=dQw4w9WgXcQ&t=42"
    );
}

#[test]
fn short_url_without_query() {
    assert_eq!(
        canonicalize_url("https://youtu.be/abc"),
        "https://youtube.com/watch?v=abc"
    );
}

#[test]
fn watch_url_goes_through_unchanged() {
    assert_eq!(
        canonicalize_url("https://youtube.com/watch?v=abc&t=10"),
        "https://youtube.com/watch?v=abc&t=10"
    );
    assert_eq!(
        canonicalize_url("https://example.com/clip?x=1"),
        "https://example.com/clip?x=1"
    );
}
