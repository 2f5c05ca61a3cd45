//! Schema inference and batch reading.
//!
//! Inference looks at a bounded sample of records and decides one type per
//! column. Reading pulls records from the tokenizer a batch at a time and
//! converts each column's text to the type that the schema declares.
//!
//! The two do not look at a value alike, and a schema that was inferred may
//! read as nulls for that reason:
//!
//! - Inference trims a value before it looks at it; reading converts the
//!   text as it stands, so that ` 30` is an integer to inference and null in
//!   an integer column.
//! - Inference takes `true` and `false` in any mix of case; reading takes
//!   the exact words only, so that `TRUE` is null in a boolean column.
//! - Inference counts every floating-point literal without a decimal point
//!   as an integer; `1e5` and `inf` are null in an integer column.
//!
//! A record that cannot be tokenized is left out of the sample that types are
//! inferred from, but it fails a read and ends it: dropping a row from a
//! result would go unseen. The only record that cannot be tokenized is one
//! that is not UTF-8. Records may differ in length: a record with fewer
//! fields than the schema has columns is kept, its missing cells absent and
//! read as null, and fields beyond the schema's columns are not read.
//!
//! The batch size is meant to be positive. A size of 0 is accepted all the
//! same: such a stream reads nothing and yields the end at every pull,
//! without ever finishing.

use vstd::prelude::*;
use vstd::slice::slice_to_vec;
use vstd::string::StringExecFns;
use crate::batch::{Batch, BatchView, CellValue, Column, ColumnView};
use crate::error::{
    empty_input_message, header_failure_message, invalid_projection_message,
    missing_header_message, no_records_message, record_failure_message, CsvError, ErrorView,
};
use crate::file_format::{CsvFormatOptions, OptionsView};
use crate::schema::{output_fields, valid_projection, DataType, Field, FieldView, Schema};
use crate::text::{
    chars_of, contains_char, decimal_digits, is_bool_token, is_float_literal, parse_bool,
    parse_int64, push_decimal, spec_is_bool_token, spec_is_float_literal, spec_parse_bool,
    spec_parse_int64, string_of, trim, trimmed,
};
use crate::tokenizer::{
    csv_header, csv_records, next_record, open_reader, read_header, reader_pending, row_view,
    same_records, RowOutcome, Tokenizer,
};

verus! {

/// The fields of one record.
pub type Row = Seq<Seq<char>>;

// ---------------------------------------------------------------------------
// Type inference for one column
// ---------------------------------------------------------------------------

/// What a sampled value counts as.
#[derive(Clone, Copy, Debug, PartialEq, Eq, Structural)]
pub enum ValueKind {
    /// Nothing but whitespace: not counted.
    Empty,
    /// `true` or `false`, in any mix of case.
    Boolean,
    /// A floating-point literal with a decimal point.
    Float,
    /// A floating-point literal without a decimal point.
    Integer,
    /// Anything else.
    Other,
}

/// How many sampled records the type of a column is decided from.
pub const TYPE_SCAN_ROWS: usize = 100;

/// How many records are sampled when the options do not say.
pub const DEFAULT_SAMPLE_ROWS: usize = 1000;

/// What `cell` counts as, once trimmed.
pub open spec fn spec_classify(cell: Seq<char>) -> ValueKind {
    let value = trimmed(cell);
    if value.len() == 0 {
        ValueKind::Empty
    } else if spec_is_bool_token(value) {
        ValueKind::Boolean
    } else if spec_is_float_literal(value) {
        if value.contains('.') {
            ValueKind::Float
        } else {
            ValueKind::Integer
        }
    } else {
        ValueKind::Other
    }
}

/// What `cell` counts as, once trimmed.
pub fn classify(cell: &str) -> (kind: ValueKind)
    ensures
        kind == spec_classify(cell@),
{
    let chars = chars_of(cell);
    let value = trim(chars.as_slice());
    if value.len() == 0 {
        ValueKind::Empty
    } else if is_bool_token(value) {
        ValueKind::Boolean
    } else if is_float_literal(value) {
        if contains_char(value, '.') {
            ValueKind::Float
        } else {
            ValueKind::Integer
        }
    } else {
        ValueKind::Other
    }
}

/// The text of column `col` in `row`, if the row reaches that far.
pub open spec fn cell_at(row: Row, col: int) -> Option<Seq<char>> {
    if 0 <= col < row.len() {
        Some(row[col])
    } else {
        None
    }
}

/// What column `col` of record `r` counts as; a record that is too short
/// counts as empty there.
pub open spec fn kind_at(rows: Seq<Row>, r: int, col: int) -> ValueKind {
    match cell_at(rows[r], col) {
        Some(text) => spec_classify(text),
        None => ValueKind::Empty,
    }
}

/// Whether one of the first `n` records has a value of kind `kind` in
/// column `col`.
pub open spec fn seen(rows: Seq<Row>, col: int, kind: ValueKind, n: int) -> bool {
    exists|r: int| 0 <= r < n && r < rows.len() && #[trigger] kind_at(rows, r, col) == kind
}

/// The type for a column in which the given kinds of value were seen.
///
/// A value with a decimal point makes the column floating-point, whatever
/// else the column holds. Without one, a value that is neither a boolean nor
/// a number makes the column text: it voids what booleans and integers beside
/// it would say. Without such a value either, booleans and no integer make
/// the column boolean, any integer makes it integer, and a column without
/// any value is text.
pub open spec fn decide_type(
    has_bool: bool,
    has_float: bool,
    has_int: bool,
    has_other: bool,
) -> DataType {
    if has_float {
        DataType::Float64
    } else if has_other {
        DataType::Utf8
    } else if has_bool && !has_int {
        DataType::Boolean
    } else if has_int {
        DataType::Int64
    } else {
        DataType::Utf8
    }
}

/// The number of records that the type of a column is decided from.
pub open spec fn scanned_rows(rows: Seq<Row>) -> int {
    if rows.len() < TYPE_SCAN_ROWS {
        rows.len() as int
    } else {
        TYPE_SCAN_ROWS as int
    }
}

/// The type inferred for column `col` from the sample `rows`.
pub open spec fn spec_infer_column_type(rows: Seq<Row>, col: int) -> DataType {
    let n = scanned_rows(rows);
    decide_type(
        seen(rows, col, ValueKind::Boolean, n),
        seen(rows, col, ValueKind::Float, n),
        seen(rows, col, ValueKind::Integer, n),
        seen(rows, col, ValueKind::Other, n),
    )
}

/// Infers the type of column `col_idx` from the first records of a sample.
///
/// Values are trimmed, and empty ones do not count. A value with a decimal
/// point that reads as a number gives `Float64`. Otherwise a value that is
/// neither a boolean nor a number gives `Utf8`, also beside booleans or
/// integers. Otherwise booleans alone give `Boolean`, integers, alone or
/// beside booleans, give `Int64`, and no value at all gives `Utf8`.
pub fn infer_column_type(records: &Vec<Vec<String>>, col_idx: usize) -> (data_type: DataType)
    ensures
        data_type == spec_infer_column_type(records.deep_view(), col_idx as int),
{
    let ghost rows = records.deep_view();
    let mut has_float = false;
    let mut has_int = false;
    let mut has_bool = false;
    let mut has_other = false;
    let scanned = if records.len() < TYPE_SCAN_ROWS {
        records.len()
    } else {
        TYPE_SCAN_ROWS
    };
    let mut r: usize = 0;
    while r < scanned
        invariant
            rows == records.deep_view(),
            scanned == scanned_rows(rows),
            r <= scanned <= records@.len(),
            has_bool == seen(rows, col_idx as int, ValueKind::Boolean, r as int),
            has_float == seen(rows, col_idx as int, ValueKind::Float, r as int),
            has_int == seen(rows, col_idx as int, ValueKind::Integer, r as int),
            has_other == seen(rows, col_idx as int, ValueKind::Other, r as int),
        decreases scanned - r,
    {
        let record = &records[r];
        let kind = if col_idx < record.len() {
            classify(record[col_idx].as_str())
        } else {
            ValueKind::Empty
        };
        assert(kind == kind_at(rows, r as int, col_idx as int));
        match kind {
            ValueKind::Boolean => {
                has_bool = true;
            },
            ValueKind::Float => {
                has_float = true;
            },
            ValueKind::Integer => {
                has_int = true;
            },
            ValueKind::Other => {
                has_other = true;
            },
            ValueKind::Empty => {},
        }
        r = r + 1;
    }
    if has_float {
        DataType::Float64
    } else if has_other {
        DataType::Utf8
    } else if has_bool && !has_int {
        DataType::Boolean
    } else if has_int {
        DataType::Int64
    } else {
        DataType::Utf8
    }
}

// ---------------------------------------------------------------------------
// Column names
// ---------------------------------------------------------------------------

/// The name given to column `i` of input without a header row.
pub open spec fn column_name(i: nat) -> Seq<char> {
    "column_"@ + decimal_digits(i)
}

/// The names `column_0`, `column_1`, ... of `n` columns.
pub open spec fn spec_positional_names(n: nat) -> Seq<Seq<char>> {
    Seq::new(n, |i: int| column_name(i as nat))
}

/// The names `column_0`, `column_1`, ... of `n` columns.
pub fn positional_names(n: usize) -> (names: Vec<String>)
    ensures
        names.deep_view() == spec_positional_names(n as nat),
{
    let mut names: Vec<String> = Vec::new();
    let mut i: usize = 0;
    while i < n
        invariant
            i <= n,
            names@.len() == i,
            forall|j: int| 0 <= j < i ==> (#[trigger] names@[j])@ == column_name(j as nat),
        decreases n - i,
    {
        let mut name = chars_of("column_");
        push_decimal(&mut name, i);
        names.push(string_of(name.as_slice()));
        i = i + 1;
    }
    names
}

/// The column names that a header row gives, or why it gives none.
pub open spec fn spec_header_names(header: RowOutcome) -> Result<Seq<Seq<char>>, ErrorView> {
    match header {
        Ok(names) => if names.len() == 0 {
            Err(ErrorView::HeaderRead(missing_header_message()))
        } else {
            Ok(names)
        },
        Err(detail) => Err(ErrorView::HeaderRead(header_failure_message(detail))),
    }
}

/// The column names for input without a header row: one positional name per
/// field of the first record. That record has to be there and to be sound.
pub open spec fn spec_first_row_names(first: Option<RowOutcome>) -> Result<
    Seq<Seq<char>>,
    ErrorView,
> {
    match first {
        Some(Ok(fields)) => Ok(spec_positional_names(fields.len())),
        _ => Err(ErrorView::HeaderRead(empty_input_message())),
    }
}

/// Names as the functions below return them, in the terms of their contracts.
pub open spec fn names_view(names: Result<Vec<String>, CsvError>) -> Result<
    Seq<Seq<char>>,
    ErrorView,
> {
    match names {
        Ok(names) => Ok(names.deep_view()),
        Err(e) => Err(e@),
    }
}

/// Takes the column names from what the tokenizer returned for the header
/// row. An input without any row has no header row, which is an error, as is
/// a header row that the tokenizer rejected.
pub fn header_names(header: Result<Vec<String>, String>) -> (names: Result<Vec<String>, CsvError>)
    ensures
        names_view(names) == spec_header_names(row_view(header)),
{
    match header {
        Ok(names) => {
            if names.len() == 0 {
                Err(CsvError::missing_header())
            } else {
                Ok(names)
            }
        },
        Err(detail) => Err(CsvError::header_failure(detail.as_str())),
    }
}

/// Makes up the column names from the first record of input without a header
/// row.
pub fn first_row_names(first: Option<Result<Vec<String>, String>>) -> (names: Result<
    Vec<String>,
    CsvError,
>)
    ensures
        names_view(names) == spec_first_row_names(
            match first {
                Some(row) => Some(row_view(row)),
                None => None,
            },
        ),
{
    match first {
        Some(Ok(fields)) => Ok(positional_names(fields.len())),
        _ => Err(CsvError::empty_input()),
    }
}

// ---------------------------------------------------------------------------
// Schema inference
// ---------------------------------------------------------------------------

/// The records among `rows` that were tokenized without error, in order.
pub open spec fn successes(rows: Seq<RowOutcome>) -> Seq<Row>
    decreases rows.len(),
{
    if rows.len() == 0 {
        Seq::empty()
    } else {
        match rows.last() {
            Ok(fields) => successes(rows.drop_last()).push(fields),
            Err(_) => successes(rows.drop_last()),
        }
    }
}

/// The sample taken from `rows`: of the first `max_records` of them, those
/// that were tokenized without error.
pub open spec fn sample_of(rows: Seq<RowOutcome>, max_records: nat) -> Seq<Row> {
    if rows.len() <= max_records {
        successes(rows)
    } else {
        successes(rows.take(max_records as int))
    }
}

/// The sample does not depend on what the messages of the errors say.
proof fn lemma_sample_ignores_messages(a: Seq<RowOutcome>, b: Seq<RowOutcome>, max_records: nat)
    requires
        same_records(a, b),
    ensures
        sample_of(a, max_records) == sample_of(b, max_records),
{
    if a.len() <= max_records {
        lemma_successes_ignore_messages(a, b);
    } else {
        lemma_successes_ignore_messages(a.take(max_records as int), b.take(max_records as int));
    }
}

proof fn lemma_successes_ignore_messages(a: Seq<RowOutcome>, b: Seq<RowOutcome>)
    requires
        same_records(a, b),
    ensures
        successes(a) == successes(b),
    decreases a.len(),
{
    if a.len() > 0 {
        lemma_successes_ignore_messages(a.drop_last(), b.drop_last());
    }
}

/// The schema with the given column names and the types inferred from
/// `sample`, every field nullable.
pub open spec fn schema_of(names: Seq<Seq<char>>, sample: Seq<Row>) -> Seq<FieldView> {
    Seq::new(
        names.len(),
        |i: int|
            FieldView {
                name: names[i],
                data_type: spec_infer_column_type(sample, i),
                nullable: true,
            },
    )
}

/// The schema with the given column names and the types inferred from
/// `sample`, every field nullable.
pub fn schema_from_sample(names: Vec<String>, sample: &Vec<Vec<String>>) -> (schema: Schema)
    ensures
        schema@ == schema_of(names.deep_view(), sample.deep_view()),
{
    let mut fields: Vec<Field> = Vec::new();
    let mut col_idx: usize = 0;
    while col_idx < names.len()
        invariant
            col_idx <= names@.len(),
            fields@.len() == col_idx,
            forall|j: int|
                0 <= j < col_idx ==> (#[trigger] fields@[j])@ == schema_of(
                    names.deep_view(),
                    sample.deep_view(),
                )[j],
        decreases names@.len() - col_idx,
    {
        let data_type = infer_column_type(sample, col_idx);
        fields.push(Field::new(names[col_idx].as_str(), data_type, true));
        col_idx = col_idx + 1;
    }
    let schema = Schema::new(fields);
    schema
}

/// How many records inference samples under the given cap.
pub open spec fn sample_cap(max_rec: Option<usize>) -> nat {
    match max_rec {
        Some(n) => n as nat,
        None => DEFAULT_SAMPLE_ROWS as nat,
    }
}

/// The schema inferred from a header outcome and the outcomes of the records.
///
/// With a header row the names are the header's and the sample is taken from
/// all records. Without one the first record only serves to count the columns,
/// and the sample is taken from the records after it.
pub open spec fn spec_infer_schema(
    header: RowOutcome,
    rows: Seq<RowOutcome>,
    has_header: bool,
    max_records: nat,
) -> Result<Seq<FieldView>, ErrorView> {
    if has_header {
        match spec_header_names(header) {
            Ok(names) => Ok(schema_of(names, sample_of(rows, max_records))),
            Err(e) => Err(e),
        }
    } else {
        let first = if rows.len() > 0 {
            Some(rows[0])
        } else {
            None
        };
        match spec_first_row_names(first) {
            Ok(names) => Ok(schema_of(names, sample_of(rows.skip(1), max_records))),
            Err(e) => Err(e),
        }
    }
}

/// The schema inferred from `bytes` under `options`: a function of the two
/// alone, so that inferring twice gives the same schema or the same error.
pub open spec fn inferred(bytes: Seq<u8>, options: OptionsView) -> Result<
    Seq<FieldView>,
    ErrorView,
> {
    spec_infer_schema(
        csv_header(bytes, options.delimiter),
        csv_records(bytes, options.delimiter, options.has_header),
        options.has_header,
        sample_cap(options.schema_infer_max_rec),
    )
}

/// A schema or an error, in the terms of the contracts.
pub open spec fn schema_outcome(outcome: Result<Schema, CsvError>) -> Result<
    Seq<FieldView>,
    ErrorView,
> {
    match outcome {
        Ok(schema) => Ok(schema@),
        Err(e) => Err(e@),
    }
}

/// Reads up to `max_records` records and keeps those that were tokenized
/// without error.
fn read_sample(reader: &mut Tokenizer, max_records: usize) -> (sample: Vec<Vec<String>>)
    ensures
        sample.deep_view() == sample_of(reader_pending(*old(reader)), max_records as nat),
{
    let ghost pending = reader_pending(*reader);
    let mut sample: Vec<Vec<String>> = Vec::new();
    let mut i: usize = 0;
    assert(pending.skip(0) =~= pending);
    while i < max_records
        invariant
            i <= max_records,
            i <= pending.len(),
            pending == reader_pending(*old(reader)),
            reader_pending(*reader) == pending.skip(i as int),
            sample.deep_view() == successes(pending.take(i as int)),
        decreases max_records - i,
    {
        match next_record(reader) {
            None => {
                assert(pending.take(i as int) =~= pending);
                return sample;
            },
            Some(Ok(record)) => {
                sample.push(record);
            },
            Some(Err(_)) => {},
        }
        assert(pending.take(i + 1).drop_last() =~= pending.take(i as int));
        i = i + 1;
    }
    sample
}

/// Infers a schema from the bytes of a delimited-text file.
///
/// The names come from the header row, or are `column_0`, `column_1`, ...
/// when there is none. The types come from a sample of the records; a record
/// that cannot be tokenized is left out of the sample. Every field is
/// nullable. The only failures are a header row that is absent or rejected
/// and, without a header row, a first record that is absent or rejected.
pub fn infer_schema(bytes: &[u8], options: &CsvFormatOptions) -> (outcome: Result<Schema, CsvError>)
    ensures
        schema_outcome(outcome) == inferred(bytes@, options@),
{
    let mut reader = open_reader(bytes, options.delimiter, options.has_header);
    let ghost rows = reader_pending(reader);
    let names = if options.has_header {
        let header = read_header(&mut reader);
        proof {
            lemma_sample_ignores_messages(
                reader_pending(reader),
                rows,
                sample_cap(options.schema_infer_max_rec),
            );
        }
        header_names(header)
    } else {
        let first = next_record(&mut reader);
        first_row_names(first)
    };
    let names = match names {
        Ok(names) => names,
        Err(e) => {
            return Err(e);
        },
    };
    let max_records = match options.schema_infer_max_rec {
        Some(n) => n,
        None => DEFAULT_SAMPLE_ROWS,
    };
    let sample = read_sample(&mut reader, max_records);
    Ok(schema_from_sample(names, &sample))
}

// ---------------------------------------------------------------------------
// Conversion of text to typed columns
// ---------------------------------------------------------------------------

/// The cell that text `raw` becomes in a column of type `data_type`.
///
/// Absent text is null. Text passes through as it is. A number or a boolean
/// that does not parse is null: a mismatch between a value and the declared
/// type never fails.
pub open spec fn convert_cell(data_type: DataType, raw: Option<Seq<char>>) -> CellValue {
    match raw {
        None => CellValue::Null,
        Some(text) => match data_type {
            DataType::Utf8 => CellValue::Utf8(text),
            DataType::Int64 => match spec_parse_int64(text) {
                Some(n) => CellValue::Int64(n),
                None => CellValue::Null,
            },
            DataType::Float64 => if spec_is_float_literal(text) {
                CellValue::Float64(text)
            } else {
                CellValue::Null
            },
            DataType::Boolean => match spec_parse_bool(text) {
                Some(b) => CellValue::Boolean(b),
                None => CellValue::Null,
            },
        },
    }
}

/// The column of type `data_type` that the texts `raw` become.
pub open spec fn convert_column(data_type: DataType, raw: Seq<Option<Seq<char>>>) -> ColumnView {
    ColumnView { data_type, cells: Seq::new(raw.len(), |i: int| convert_cell(data_type, raw[i])) }
}

/// The text of column `col` in each of `rows`.
pub open spec fn spec_column_text(rows: Seq<Row>, col: int) -> Seq<Option<Seq<char>>> {
    Seq::new(rows.len(), |r: int| cell_at(rows[r], col))
}

/// The text of column `col` in each record; `None` where a record has fewer
/// fields.
pub fn column_text<'a>(records: &'a Vec<Vec<String>>, col: usize) -> (data: Vec<Option<&'a str>>)
    ensures
        data.deep_view() == spec_column_text(records.deep_view(), col as int),
{
    let mut data: Vec<Option<&'a str>> = Vec::new();
    let mut r: usize = 0;
    while r < records.len()
        invariant
            r <= records@.len(),
            data@.len() == r,
            forall|k: int|
                0 <= k < r ==> (#[trigger] data@[k]).deep_view() == cell_at(
                    records.deep_view()[k],
                    col as int,
                ),
        decreases records@.len() - r,
    {
        let record = &records[r];
        if col < record.len() {
            data.push(Some(record[col].as_str()));
        } else {
            data.push(None);
        }
        r = r + 1;
    }
    data
}

// ---------------------------------------------------------------------------
// Batches from records
// ---------------------------------------------------------------------------

/// The column of the file that output column `j` is read from.
pub open spec fn source_column(projection: Option<Seq<usize>>, j: int) -> int {
    match projection {
        Some(p) => p[j] as int,
        None => j,
    }
}

/// The batch that `rows` become under `schema` and `projection`.
///
/// It has the projected columns in projection order, or all columns in schema
/// order without a projection, each converted to its field's type, and as many
/// rows as there are records, also when no column is selected.
pub open spec fn spec_batch_of(
    rows: Seq<Row>,
    schema: Seq<FieldView>,
    projection: Option<Seq<usize>>,
) -> BatchView {
    let fields = output_fields(schema, projection);
    BatchView {
        schema: fields,
        columns: Seq::new(
            fields.len(),
            |j: int|
                convert_column(
                    fields[j].data_type,
                    spec_column_text(rows, source_column(projection, j)),
                ),
        ),
        num_rows: rows.len(),
    }
}

/// What converting `rows` gives: their batch, or an error where there are no
/// records. Nothing else fails a conversion.
pub open spec fn spec_records_to_batch(
    rows: Seq<Row>,
    schema: Seq<FieldView>,
    projection: Option<Seq<usize>>,
) -> Result<BatchView, ErrorView> {
    if rows.len() == 0 {
        Err(ErrorView::BatchAssembly(no_records_message()))
    } else {
        Ok(spec_batch_of(rows, schema, projection))
    }
}

/// A batch or an error, in the terms of the contracts.
pub open spec fn batch_outcome(outcome: Result<Batch, CsvError>) -> Result<BatchView, ErrorView> {
    match outcome {
        Ok(batch) => Ok(batch@),
        Err(e) => Err(e@),
    }
}

/// A projection in the terms of the contracts.
pub open spec fn projection_view(projection: Option<Vec<usize>>) -> Option<Seq<usize>> {
    match projection {
        Some(p) => Some(p@),
        None => None,
    }
}

/// Whether `projection`, if there is one, names only columns of a schema with
/// `columns` fields.
pub open spec fn projection_fits(columns: nat, projection: Option<Seq<usize>>) -> bool {
    match projection {
        Some(p) => valid_projection(columns, p),
        None => true,
    }
}

// ---------------------------------------------------------------------------
// The opener
// ---------------------------------------------------------------------------

/// What a read is configured with: the format options, the schema of the
/// file, the columns to read and the number of rows of a full batch.
#[derive(Debug)]
pub struct CsvOpener {
    options: CsvFormatOptions,
    schema: Schema,
    projection: Option<Vec<usize>>,
    batch_size: usize,
}

/// A `CsvOpener` in the terms of the contracts.
pub struct OpenerView {
    pub options: OptionsView,
    pub schema: Seq<FieldView>,
    pub projection: Option<Seq<usize>>,
    pub batch_size: usize,
}

impl View for CsvOpener {
    type V = OpenerView;

    closed spec fn view(&self) -> OpenerView {
        OpenerView {
            options: self.options@,
            schema: self.schema@,
            projection: projection_view(self.projection),
            batch_size: self.batch_size,
        }
    }
}

/// The number of rows of a full batch when none is set.
pub const DEFAULT_BATCH_SIZE: usize = 8192;

impl Clone for CsvOpener {
    fn clone(&self) -> (copy: Self)
        ensures
            copy@ == self@,
    {
        let projection = match &self.projection {
            Some(p) => Some(slice_to_vec(p.as_slice())),
            None => None,
        };
        CsvOpener {
            options: self.options.clone(),
            schema: self.schema.clone(),
            projection,
            batch_size: self.batch_size,
        }
    }
}

impl CsvOpener {
    /// An opener for files of the given schema, reading the projected columns
    /// in batches of `DEFAULT_BATCH_SIZE` rows.
    pub fn new(options: CsvFormatOptions, schema: Schema, projection: Option<Vec<usize>>) -> (opener:
        Self)
        ensures
            opener@ == (OpenerView {
                options: options@,
                schema: schema@,
                projection: projection_view(projection),
                batch_size: DEFAULT_BATCH_SIZE,
            }),
    {
        CsvOpener { options, schema, projection, batch_size: DEFAULT_BATCH_SIZE }
    }

    /// Sets the number of rows of a full batch.
    pub fn with_batch_size(self, batch_size: usize) -> (opener: Self)
        ensures
            opener@ == (OpenerView { batch_size, ..self@ }),
    {
        CsvOpener { batch_size, ..self }
    }

    /// The schema of the batches that a read will produce: the file's schema
    /// or its projection. `None` when the projection names a column that the
    /// schema does not have.
    pub fn output_schema(&self) -> (schema: Option<Schema>)
        ensures
            schema is Some <==> projection_fits(self@.schema.len(), self@.projection),
            schema matches Some(s) ==> s@ == output_fields(self@.schema, self@.projection),
    {
        match &self.projection {
            Some(p) => self.schema.project(p.as_slice()),
            None => Some(self.schema.clone()),
        }
    }

    /// Starts a read of the bytes of one file.
    pub fn open(&self, bytes: &[u8]) -> (stream: Result<CsvStream, CsvError>)
        ensures
            stream_outcome(stream) == spec_open(bytes@, self@),
    {
        CsvStream::new(bytes, self.clone())
    }
}

// ---------------------------------------------------------------------------
// The stream
// ---------------------------------------------------------------------------

/// A single pass over the records of one file that yields them as batches.
///
/// Each pull reads up to a batch size of records from the tokenizer and
/// converts them; nothing is read ahead. The stream is active until the
/// tokenizer is exhausted or a pull fails, and finished from then on.
#[derive(Debug)]
pub struct CsvStream {
    reader: Tokenizer,
    plan: ReadPlan,
    record_buffer: Vec<Vec<String>>,
    finished: bool,
}

/// What a stream reads by: an opener whose projection names columns of its
/// schema, and the schema of the batches that come out.
#[derive(Debug)]
struct ReadPlan {
    opener: CsvOpener,
    schema: Schema,
}

impl ReadPlan {
    #[verifier::type_invariant]
    spec fn well_formed(&self) -> bool {
        &&& projection_fits(self.opener@.schema.len(), self.opener@.projection)
        &&& self.schema@ == output_fields(self.opener@.schema, self.opener@.projection)
    }
}

/// A stream as what it was opened with, what the tokenizer has yet to yield
/// and whether it has finished.
pub struct StreamView {
    pub schema: Seq<FieldView>,
    pub projection: Option<Seq<usize>>,
    pub batch_size: nat,
    pub pending: Seq<RowOutcome>,
    pub finished: bool,
}

/// What one pull yields.
pub enum Pulled {
    /// The stream has ended.
    End,
    /// The next batch.
    Batch(BatchView),
    /// The read failed.
    Failed(ErrorView),
}

/// The records that one pull looks at: the next `batch_size` pending ones,
/// or all that are left.
pub open spec fn window(s: StreamView) -> Seq<RowOutcome> {
    if s.pending.len() <= s.batch_size {
        s.pending
    } else {
        s.pending.take(s.batch_size as int)
    }
}

/// Whether every one of `rows` was tokenized.
pub open spec fn all_sound(rows: Seq<RowOutcome>) -> bool {
    forall|k: int| 0 <= k < rows.len() ==> (#[trigger] rows[k]) is Ok
}

/// The first position at or after `from` of a record of `rows` that was not
/// tokenized, or the length of `rows` when there is none.
pub open spec fn first_failure(rows: Seq<RowOutcome>, from: int) -> int
    decreases rows.len() - from,
{
    if from < 0 || from >= rows.len() {
        rows.len() as int
    } else if rows[from] is Err {
        from
    } else {
        first_failure(rows, from + 1)
    }
}

/// The fields of a record that was tokenized.
pub open spec fn fields_of(outcome: RowOutcome) -> Row {
    match outcome {
        Ok(fields) => fields,
        Err(_) => Seq::empty(),
    }
}

/// The message of a record that was not tokenized.
pub open spec fn failure_of(outcome: RowOutcome) -> Seq<char> {
    match outcome {
        Ok(_) => Seq::empty(),
        Err(message) => message,
    }
}

/// The fields of each of `rows`.
pub open spec fn rows_of(rows: Seq<RowOutcome>) -> Seq<Row> {
    Seq::new(rows.len(), |i: int| fields_of(rows[i]))
}

/// One pull: what it yields and the stream that it leaves.
///
/// A finished stream yields the end again and stays as it is. An active one
/// looks at the next `batch_size` pending records. If one of them was not
/// tokenized, the pull fails with that record's message and the stream is
/// finished, past that record. Otherwise the pull moves past the records and
/// yields their batch, or the end if there is none; the stream is finished if
/// fewer than `batch_size` records were left.
pub open spec fn pull(s: StreamView) -> (Pulled, StreamView) {
    let seen = window(s);
    let bad = first_failure(seen, 0);
    if s.finished {
        (Pulled::End, s)
    } else if bad < seen.len() {
        (
            Pulled::Failed(ErrorView::RecordParse(record_failure_message(failure_of(seen[bad])))),
            StreamView { pending: s.pending.skip(bad + 1), finished: true, ..s },
        )
    } else {
        let after = StreamView {
            pending: s.pending.skip(seen.len() as int),
            finished: s.pending.len() < s.batch_size,
            ..s
        };
        if seen.len() == 0 {
            (Pulled::End, after)
        } else {
            (Pulled::Batch(spec_batch_of(rows_of(seen), s.schema, s.projection)), after)
        }
    }
}

/// What a pull returned, in the terms of the contracts.
pub open spec fn pulled_view(outcome: Result<Option<Batch>, CsvError>) -> Pulled {
    match outcome {
        Ok(Some(batch)) => Pulled::Batch(batch@),
        Ok(None) => Pulled::End,
        Err(e) => Pulled::Failed(e@),
    }
}

/// The stream that opening `bytes` gives, or why there is none: the
/// projection has to name columns of the schema.
pub open spec fn spec_open(bytes: Seq<u8>, opener: OpenerView) -> Result<StreamView, ErrorView> {
    if projection_fits(opener.schema.len(), opener.projection) {
        Ok(
            StreamView {
                schema: opener.schema,
                projection: opener.projection,
                batch_size: opener.batch_size as nat,
                pending: csv_records(bytes, opener.options.delimiter, opener.options.has_header),
                finished: false,
            },
        )
    } else {
        Err(ErrorView::BatchAssembly(invalid_projection_message()))
    }
}

/// A stream or an error, in the terms of the contracts.
pub open spec fn stream_outcome(outcome: Result<CsvStream, CsvError>) -> Result<
    StreamView,
    ErrorView,
> {
    match outcome {
        Ok(stream) => Ok(stream@),
        Err(e) => Err(e@),
    }
}

impl View for CsvStream {
    type V = StreamView;

    closed spec fn view(&self) -> StreamView {
        StreamView {
            schema: self.plan.opener@.schema,
            projection: self.plan.opener@.projection,
            batch_size: self.plan.opener@.batch_size as nat,
            pending: reader_pending(self.reader),
            finished: self.finished,
        }
    }
}

impl CsvStream {
    /// Starts a read of `bytes` as `opener` configures it.
    pub fn new(bytes: &[u8], opener: CsvOpener) -> (stream: Result<CsvStream, CsvError>)
        ensures
            stream_outcome(stream) == spec_open(bytes@, opener@),
    {
        let schema = match opener.output_schema() {
            Some(schema) => schema,
            None => {
                return Err(CsvError::invalid_projection());
            },
        };
        let reader = open_reader(bytes, opener.options.delimiter, opener.options.has_header);
        let plan = ReadPlan { opener, schema };
        Ok(CsvStream { reader, plan, record_buffer: Vec::new(), finished: false })
    }

    /// The schema of the batches that this stream yields.
    pub fn schema(&self) -> (schema: &Schema)
        ensures
            schema@ == output_fields(self@.schema, self@.projection),
            projection_fits(self@.schema.len(), self@.projection),
    {
        proof {
            use_type_invariant(&self.plan);
        }
        &self.plan.schema
    }

    /// Whether the stream has finished.
    pub fn is_finished(&self) -> (finished: bool)
        ensures
            finished == self@.finished,
    {
        self.finished
    }

    /// Builds the typed column of `field` from the text of its cells.
    pub fn build_array(field: &Field, data: &Vec<Option<&str>>) -> (column: Column)
        ensures
            column@ == convert_column(field@.data_type, data.deep_view()),
    {
        let n = data.len();
        let ghost raw = data.deep_view();
        match field.data_type() {
            DataType::Utf8 => {
                let mut values: Vec<Option<String>> = Vec::new();
                let mut i: usize = 0;
                while i < n
                    invariant
                        n == data@.len(),
                        raw == data.deep_view(),
                        i <= n,
                        values@.len() == i,
                        forall|k: int|
                            0 <= k < i ==> Column::Utf8(values)@.cells[k] == convert_cell(
                                DataType::Utf8,
                                #[trigger] raw[k],
                            ),
                    decreases n - i,
                {
                    let value = match data[i] {
                        Some(text) => Some(String::from_str(text)),
                        None => None,
                    };
                    values.push(value);
                    i = i + 1;
                }
                let column = Column::Utf8(values);
                assert(column@.cells =~= convert_column(DataType::Utf8, raw).cells);
                column
            },
            DataType::Int64 => {
                let mut values: Vec<Option<i64>> = Vec::new();
                let mut i: usize = 0;
                while i < n
                    invariant
                        n == data@.len(),
                        raw == data.deep_view(),
                        i <= n,
                        values@.len() == i,
                        forall|k: int|
                            0 <= k < i ==> Column::Int64(values)@.cells[k] == convert_cell(
                                DataType::Int64,
                                #[trigger] raw[k],
                            ),
                    decreases n - i,
                {
                    let value = match data[i] {
                        Some(text) => parse_int64(chars_of(text).as_slice()),
                        None => None,
                    };
                    values.push(value);
                    i = i + 1;
                }
                let column = Column::Int64(values);
                assert(column@.cells =~= convert_column(DataType::Int64, raw).cells);
                column
            },
            DataType::Float64 => {
                let mut values: Vec<Option<String>> = Vec::new();
                let mut i: usize = 0;
                while i < n
                    invariant
                        n == data@.len(),
                        raw == data.deep_view(),
                        i <= n,
                        values@.len() == i,
                        forall|k: int|
                            0 <= k < i ==> Column::Float64(values)@.cells[k] == convert_cell(
                                DataType::Float64,
                                #[trigger] raw[k],
                            ),
                    decreases n - i,
                {
                    let value = match data[i] {
                        Some(text) => if is_float_literal(chars_of(text).as_slice()) {
                            Some(String::from_str(text))
                        } else {
                            None
                        },
                        None => None,
                    };
                    values.push(value);
                    i = i + 1;
                }
                let column = Column::Float64(values);
                assert(column@.cells =~= convert_column(DataType::Float64, raw).cells);
                column
            },
            DataType::Boolean => {
                let mut values: Vec<Option<bool>> = Vec::new();
                let mut i: usize = 0;
                while i < n
                    invariant
                        n == data@.len(),
                        raw == data.deep_view(),
                        i <= n,
                        values@.len() == i,
                        forall|k: int|
                            0 <= k < i ==> Column::Boolean(values)@.cells[k] == convert_cell(
                                DataType::Boolean,
                                #[trigger] raw[k],
                            ),
                    decreases n - i,
                {
                    let value = match data[i] {
                        Some(text) => parse_bool(chars_of(text).as_slice()),
                        None => None,
                    };
                    values.push(value);
                    i = i + 1;
                }
                let column = Column::Boolean(values);
                assert(column@.cells =~= convert_column(DataType::Boolean, raw).cells);
                column
            },
        }
    }

    /// Converts records to a batch of this stream's columns.
    pub fn records_to_batch(&self, records: &Vec<Vec<String>>) -> (outcome: Result<Batch, CsvError>)
        ensures
            batch_outcome(outcome) == spec_records_to_batch(
                records.deep_view(),
                self@.schema,
                self@.projection,
            ),
    {
        proof {
            use_type_invariant(&self.plan);
        }
        if records.len() == 0 {
            return Err(CsvError::no_records());
        }
        let ghost rows = records.deep_view();
        let ghost projection = self@.projection;
        let ghost fields = output_fields(self@.schema, projection);
        let width = self.plan.schema.len();
        let mut columns: Vec<Column> = Vec::new();
        let mut j: usize = 0;
        while j < width
            invariant
                j <= width,
                width == fields.len(),
                rows == records.deep_view(),
                projection == self@.projection,
                projection == projection_view(self.plan.opener.projection),
                fields == output_fields(self@.schema, projection),
                fields == self.plan.schema@,
                self@.schema == self.plan.opener.schema@,
                projection_fits(self@.schema.len(), projection),
                columns@.len() == j,
                forall|k: int|
                    0 <= k < j ==> (#[trigger] columns@[k])@ == convert_column(
                        fields[k].data_type,
                        spec_column_text(rows, source_column(projection, k)),
                    ),
            decreases width - j,
        {
            let actual_idx = match &self.plan.opener.projection {
                Some(p) => p[j],
                None => j,
            };
            let field = self.plan.opener.schema.field(actual_idx);
            let column_data = column_text(records, actual_idx);
            let array = CsvStream::build_array(field, &column_data);
            columns.push(array);
            j = j + 1;
        }
        let ghost expected = spec_batch_of(rows, self@.schema, projection);
        assert(Seq::new(columns@.len(), |k: int| columns@[k]@) =~= expected.columns);
        Ok(Batch::assemble(self.plan.schema.clone(), columns, records.len()))
    }

    /// Pulls the next batch: `Ok(None)` at the end of the stream.
    ///
    /// A record that cannot be tokenized fails the pull and ends the stream;
    /// the records read before it in the same pull are not handed out.
    pub fn read_next_batch(&mut self) -> (outcome: Result<Option<Batch>, CsvError>)
        ensures
            (pulled_view(outcome), final(self)@) == pull(old(self)@),
    {
        if self.finished {
            return Ok(None);
        }
        let ghost start = self@;
        let ghost pending = start.pending;
        let batch_size = self.plan.opener.batch_size;
        self.record_buffer.clear();
        let mut count: usize = 0;
        proof {
            assert(pending.skip(0) =~= pending);
        }
        while count < batch_size && !self.finished
            invariant
                self.plan == old(self).plan,
                start == old(self)@,
                pending == start.pending,
                batch_size == start.batch_size,
                !start.finished,
                count <= batch_size,
                count <= pending.len(),
                reader_pending(self.reader) == pending.skip(count as int),
                forall|k: int| 0 <= k < count ==> (#[trigger] pending[k]) is Ok,
                self.record_buffer.deep_view() == rows_of(pending.take(count as int)),
                self.finished ==> count == pending.len() && count < batch_size,
            decreases (batch_size - count) + (if self.finished { 0int } else { 1int }),
        {
            let ghost before = self.record_buffer.deep_view();
            match next_record(&mut self.reader) {
                Some(Ok(record)) => {
                    let ghost fields = record.deep_view();
                    self.record_buffer.push(record);
                    proof {
                        assert(self.record_buffer.deep_view() =~= before.push(fields));
                    }
                    count = count + 1;
                },
                Some(Err(detail)) => {
                    self.finished = true;
                    proof {
                        assert(pending.skip(count as int).skip(1) =~= pending.skip(count + 1));
                        assert(all_sound(window(start).take(count as int)));
                        lemma_first_failure_found(window(start), 0, count as int);
                    }
                    return Err(CsvError::record_failure(detail.as_str()));
                },
                None => {
                    self.finished = true;
                },
            }
        }
        proof {
            assert(all_sound(window(start)));
            lemma_first_failure_none(window(start), 0);
        }
        if self.record_buffer.len() == 0 {
            return Ok(None);
        }
        match self.records_to_batch(&self.record_buffer) {
            Ok(batch) => Ok(Some(batch)),
            Err(e) => Err(e),
        }
    }
}

/// Where every record was tokenized, there is no failure.
pub(crate) proof fn lemma_first_failure_none(rows: Seq<RowOutcome>, from: int)
    requires
        0 <= from,
        all_sound(rows),
    ensures
        first_failure(rows, from) == rows.len(),
    decreases rows.len() - from,
{
    if from < rows.len() {
        lemma_first_failure_none(rows, from + 1);
    }
}

/// The first failure is the first record that was not tokenized.
proof fn lemma_first_failure_found(rows: Seq<RowOutcome>, from: int, bad: int)
    requires
        0 <= from <= bad < rows.len(),
        rows[bad] is Err,
        all_sound(rows.take(bad)),
    ensures
        first_failure(rows, from) == bad,
    decreases bad - from,
{
    if from < bad {
        assert(rows.take(bad)[from] is Ok);
        lemma_first_failure_found(rows, from + 1, bad);
    }
}

} // verus!
