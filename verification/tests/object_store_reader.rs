use datafusion_csv::object_store_reader::{make_url, parse_url, CsvFileMetadata};

#[test]
fn test_csv_file_metadata() {
    let meta = CsvFileMetadata::new("test.csv", 1024).with_last_modified(1234567890);

    assert_eq!(meta.location, "test.csv");
    assert_eq!(meta.size, 1024);
    assert_eq!(meta.last_modified, Some(1234567890));
    assert!(!meta.is_empty());

    let empty_meta = CsvFileMetadata::new("empty.csv", 0);
    assert!(empty_meta.is_empty());
}

#[test]
fn test_make_url() {
    assert_eq!(make_url("", "", "data/test.csv"), "data/test.csv");
    assert_eq!(
        make_url("s3", "my-bucket", "data/test.csv"),
        "s3://my-bucket/data/test.csv"
    );
    assert_eq!(
        make_url("s3", "my-bucket", "/data/test.csv"),
        "s3://my-bucket/data/test.csv"
    );
}

#[test]
fn test_parse_url() {
    let (scheme, path) = parse_url("s3://bucket/path/file.csv").unwrap();
    assert_eq!(scheme, Some("s3".to_string()));
    assert_eq!(path, "bucket/path/file.csv");

    let (scheme, path) = parse_url("local/path/file.csv").unwrap();
    assert_eq!(scheme, None);
    assert_eq!(path, "local/path/file.csv");
}

#[test]
fn metadata_starts_without_timestamp() {
    let meta = CsvFileMetadata::new("a/b.csv", 7);
    assert_eq!(meta.location, "a/b.csv");
    assert_eq!(meta.size, 7);
    assert_eq!(meta.last_modified, None);
    let copy = meta.clone();
    assert_eq!(copy.location, "a/b.csv");
    assert_eq!(copy.size, 7);
    assert_eq!(copy.last_modified, None);
}

#[test]
fn make_url_strips_every_leading_slash() {
    assert_eq!(make_url("gs", "b", "///x/y.csv"), "gs://b/x/y.csv");
    assert_eq!(make_url("gs", "b", "///"), "gs://b/");
    assert_eq!(make_url("gs", "b", ""), "gs://b/");
    assert_eq!(make_url("gs", "", "x//y"), "gs:///x//y");
}

#[test]
fn make_url_keeps_a_local_path_as_it_is() {
    assert_eq!(make_url("", "ignored", "/abs/path.csv"), "/abs/path.csv");
    assert_eq!(make_url("", "", ""), "");
}

#[test]
fn parse_url_splits_at_the_first_separator() {
    let (scheme, rest) = parse_url("http://a://b").unwrap();
    assert_eq!(scheme, Some("http".to_string()));
    assert_eq!(rest, "a://b");

    let (scheme, rest) = parse_url("://x").unwrap();
    assert_eq!(scheme, Some(String::new()));
    assert_eq!(rest, "x");

    let (scheme, rest) = parse_url("s3://").unwrap();
    assert_eq!(scheme, Some("s3".to_string()));
    assert_eq!(rest, "");
}

#[test]
fn parse_url_takes_anything_else_as_a_local_path() {
    for text in ["", ":", ":/", "a:/b", "a/:/b", "été/ü.csv"] {
        let (scheme, rest) = parse_url(text).unwrap();
        assert_eq!(scheme, None);
        assert_eq!(rest, text);
    }
}

#[test]
fn parse_url_agrees_with_splitn() {
    for text in ["s3://b/k", "x://", "://", "a://b://c", "no-scheme", "é://ü", ":/:// ", "a:://b"] {
        let (scheme, rest) = parse_url(text).unwrap();
        let parts: Vec<&str> = text.splitn(2, "://").collect();
        if parts.len() == 2 {
            assert_eq!(scheme.as_deref(), Some(parts[0]));
            assert_eq!(rest, parts[1]);
        } else {
            assert_eq!(scheme, None);
            assert_eq!(rest, text);
        }
    }
}
