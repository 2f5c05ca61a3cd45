use datafusion_csv::error::CsvError;
use datafusion_csv::file_format::CsvFormatOptions;
use datafusion_csv::file_source::{
    http_store_base_url, is_http_url, listing_extension, plan_table, store_base_url,
    CsvSourceBuilder,
};

#[test]
fn http_urls_are_recognised_by_their_prefix() {
    assert!(is_http_url("http://host/a.csv"));
    assert!(is_http_url("https://host/a.csv"));
    assert!(is_http_url("http://"));
    assert!(!is_http_url("HTTP://host/a.csv"));
    assert!(!is_http_url("ftp://host/a.csv"));
    assert!(!is_http_url("http:/host"));
    assert!(!is_http_url(" https://host"));
    assert!(!is_http_url("tests/data/users.csv"));
    assert!(!is_http_url(""));
}

#[test]
fn the_store_of_a_url_is_its_scheme_and_host() {
    assert_eq!(
        http_store_base_url("https://pub-1234.r2.dev/readers/csv/customers-100.csv").unwrap(),
        "https://pub-1234.r2.dev"
    );
    assert_eq!(http_store_base_url("HTTP://Example.COM:8080/a/b.csv?x=1").unwrap(), "http://example.com");
    assert_eq!(http_store_base_url("http://127.0.0.1/x").unwrap(), "http://127.0.0.1");
}

#[test]
fn a_url_without_a_host_has_no_store() {
    match http_store_base_url("data:text/plain,Stuff") {
        Err(CsvError::InvalidUrl(message)) => assert_eq!(message, "URL has no host"),
        other => panic!("{:?}", other),
    }
    match http_store_base_url("not a url") {
        Err(CsvError::InvalidUrl(message)) => {
            assert!(message.starts_with("Failed to parse URL: "), "{}", message);
            assert!(message.len() > "Failed to parse URL: ".len());
        },
        other => panic!("{:?}", other),
    }
    match http_store_base_url("http://") {
        Err(CsvError::InvalidUrl(message)) => {
            assert!(message.starts_with("Failed to parse URL: "), "{}", message)
        },
        other => panic!("{:?}", other),
    }
}

#[test]
fn the_store_from_parsed_parts() {
    assert_eq!(
        store_base_url(Ok(("s3".to_string(), Some("bucket".to_string())))).unwrap(),
        "s3://bucket"
    );
    assert!(matches!(store_base_url(Ok(("unix".to_string(), None))), Err(CsvError::InvalidUrl(_))));
    match store_base_url(Err("empty host".to_string())) {
        Err(CsvError::InvalidUrl(message)) => {
            assert_eq!(message, "Failed to parse URL: empty host")
        },
        other => panic!("{:?}", other),
    }
}

#[test]
fn the_listing_extension() {
    let defaults = CsvFormatOptions::new();
    assert_eq!(listing_extension(&defaults, None), ".csv");
    assert_eq!(listing_extension(&defaults, Some("tsv".to_string())), ".tsv");
    assert_eq!(listing_extension(&defaults, Some(".tsv".to_string())), ".tsv");
    assert_eq!(listing_extension(&defaults, Some(String::new())), ".");
    let set = CsvFormatOptions::new().with_file_extension("dat");
    assert_eq!(listing_extension(&set, None), ".dat");
    assert_eq!(listing_extension(&set, Some("tsv".to_string())), ".dat");
    let bare = CsvFormatOptions::new().with_file_extension("csv");
    assert_eq!(listing_extension(&bare, Some("tsv".to_string())), ".csv");
}

#[test]
fn planning_a_local_table() {
    let plan = plan_table("tests/e2e_data/sales_data.tsv", &CsvFormatOptions::new()).unwrap();
    assert_eq!(plan.store_base_url, None);
    assert_eq!(plan.file_extension, ".tsv");
    let plan = plan_table("tests/e2e_data/users.csv", &CsvFormatOptions::new()).unwrap();
    assert_eq!(plan.file_extension, ".csv");
    let plan = plan_table("tests/e2e_data", &CsvFormatOptions::new()).unwrap();
    assert_eq!(plan.file_extension, ".csv");
    let options = CsvFormatOptions::new().with_file_extension("txt");
    let plan = plan_table("tests/e2e_data/users.csv", &options).unwrap();
    assert_eq!(plan.file_extension, ".txt");
}

#[test]
fn planning_a_remote_table() {
    let plan = plan_table("https://example.org/data/customers-100.csv", &CsvFormatOptions::new())
        .unwrap();
    assert_eq!(plan.store_base_url, Some("https://example.org".to_string()));
    assert_eq!(plan.file_extension, ".csv");
    assert!(matches!(
        plan_table("http://", &CsvFormatOptions::new()),
        Err(CsvError::InvalidUrl(_))
    ));
}

#[test]
fn the_builder_collects_path_and_options() {
    let builder = CsvSourceBuilder::new("data/sales.tsv");
    assert_eq!(builder.path(), "data/sales.tsv");
    assert_eq!(builder.options().delimiter, b',');
    assert!(builder.options().has_header);
    let builder = builder.with_delimiter(b'\t').with_has_header(false);
    assert_eq!(builder.options().delimiter, b'\t');
    assert!(!builder.options().has_header);
    assert_eq!(builder.options().batch_size, 8192);
    assert_eq!(builder.path(), "data/sales.tsv");
    let builder = builder.with_options(CsvFormatOptions::new().with_batch_size(3));
    assert_eq!(builder.options().batch_size, 3);
    assert_eq!(builder.options().delimiter, b',');
    assert!(builder.options().has_header);
    assert_eq!(builder.path(), "data/sales.tsv");
}
