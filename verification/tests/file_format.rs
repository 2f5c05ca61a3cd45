use datafusion_csv::file_format::{dotted, CsvFormat, CsvFormatOptions};
use datafusion_csv::schema::DataType;

#[test]
fn default_options() {
    for options in [CsvFormatOptions::new(), CsvFormatOptions::default()] {
        assert!(options.has_header);
        assert_eq!(options.delimiter, b',');
        assert_eq!(options.schema_infer_max_rec, Some(1000));
        assert_eq!(options.batch_size, 8192);
        assert_eq!(options.file_extension, ".csv");
    }
}

#[test]
fn each_setter_changes_one_option() {
    let options = CsvFormatOptions::new().with_has_header(false);
    assert!(!options.has_header);
    assert_eq!(options.delimiter, b',');
    let options = options.with_delimiter(b';');
    assert_eq!(options.delimiter, b';');
    assert!(!options.has_header);
    let options = options.with_schema_infer_max_rec(None);
    assert_eq!(options.schema_infer_max_rec, None);
    let options = options.with_batch_size(17);
    assert_eq!(options.batch_size, 17);
    let options = options.with_file_extension("tsv");
    assert_eq!(options.file_extension, "tsv");
    assert_eq!(options.delimiter, b';');
    assert_eq!(options.batch_size, 17);
    assert_eq!(options.schema_infer_max_rec, None);
    assert!(!options.has_header);
    let copy = options.clone();
    assert_eq!(copy.file_extension, "tsv");
    assert_eq!(copy.batch_size, 17);
}

#[test]
fn extensions_get_their_dot() {
    assert_eq!(CsvFormatOptions::new().file_extension_with_dot(), ".csv");
    assert_eq!(CsvFormatOptions::new().with_file_extension("tsv").file_extension_with_dot(), ".tsv");
    assert_eq!(CsvFormatOptions::new().with_file_extension(".tsv").file_extension_with_dot(), ".tsv");
    assert_eq!(CsvFormatOptions::new().with_file_extension("").file_extension_with_dot(), ".");
    assert_eq!(dotted("csv.gz"), ".csv.gz");
    assert_eq!(dotted("..x"), "..x");
}

#[test]
fn the_format_reports_its_name_and_extension() {
    let format = CsvFormat::new(CsvFormatOptions::new().with_file_extension("txt"));
    assert_eq!(format.to_string(), "CSV");
    assert_eq!(format.get_ext(), ".txt");
    assert_eq!(format.options().file_extension, "txt");
    assert_eq!(CsvFormat::default().get_ext(), ".csv");
    assert_eq!(format.clone().get_ext(), ".txt");
}

#[test]
fn the_format_infers_from_the_first_file() {
    let format = CsvFormat::new(CsvFormatOptions::new().with_delimiter(b';'));
    let schema = format.infer_schema(None).unwrap();
    assert_eq!(schema.len(), 0);
    let schema = format.infer_schema(Some(b"a;b\n1;x\n")).unwrap();
    assert_eq!(schema.len(), 2);
    assert_eq!(schema.field(0).name(), "a");
    assert_eq!(schema.field(0).data_type(), DataType::Int64);
    assert_eq!(schema.field(1).data_type(), DataType::Utf8);
    assert!(format.infer_schema(Some(b"")).is_err());
}
