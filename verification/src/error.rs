//! The failures that schema inference and batch reading report.

use vstd::prelude::*;
use vstd::string::StringExecFns;

verus! {

/// A failure of schema inference, of batch reading or of locating a source.
#[derive(Debug)]
pub enum CsvError {
    /// No header row could be obtained, or there was no first row to count
    /// columns from.
    HeaderRead(String),
    /// A record could not be tokenized.
    RecordParse(String),
    /// Columns could not be assembled into a batch.
    BatchAssembly(String),
    /// A location is not a usable URL.
    InvalidUrl(String),
}

/// A `CsvError` with its message as a sequence of characters.
pub enum ErrorView {
    HeaderRead(Seq<char>),
    RecordParse(Seq<char>),
    BatchAssembly(Seq<char>),
    InvalidUrl(Seq<char>),
}

impl View for CsvError {
    type V = ErrorView;

    open spec fn view(&self) -> ErrorView {
        match self {
            CsvError::HeaderRead(m) => ErrorView::HeaderRead(m@),
            CsvError::RecordParse(m) => ErrorView::RecordParse(m@),
            CsvError::BatchAssembly(m) => ErrorView::BatchAssembly(m@),
            CsvError::InvalidUrl(m) => ErrorView::InvalidUrl(m@),
        }
    }
}

impl ErrorView {
    /// The message that the error carries.
    pub open spec fn message(self) -> Seq<char> {
        match self {
            ErrorView::HeaderRead(m) => m,
            ErrorView::RecordParse(m) => m,
            ErrorView::BatchAssembly(m) => m,
            ErrorView::InvalidUrl(m) => m,
        }
    }
}

/// What is reported when a header row was expected and the input has none.
pub open spec fn missing_header_message() -> Seq<char> {
    "Failed to read headers: the input has no header row"@
}

/// What is reported when column names have to be counted from a first row
/// and there is none.
pub open spec fn empty_input_message() -> Seq<char> {
    "Cannot infer schema from empty file"@
}

/// What is reported when a batch is asked for without any record.
pub open spec fn no_records_message() -> Seq<char> {
    "No records to convert"@
}

/// What is reported for a projection that names a column which the schema
/// does not have.
pub open spec fn invalid_projection_message() -> Seq<char> {
    "Projection names a column that the schema does not have"@
}

/// What is reported for a header row that the tokenizer rejected with `detail`.
pub open spec fn header_failure_message(detail: Seq<char>) -> Seq<char> {
    "Failed to read headers: "@ + detail
}

/// What is reported for a record that the tokenizer rejected with `detail`.
pub open spec fn record_failure_message(detail: Seq<char>) -> Seq<char> {
    "CSV parse error: "@ + detail
}

impl CsvError {
    /// The message that the error carries.
    pub fn message(&self) -> (m: &str)
        ensures
            m@ == self@.message(),
    {
        match self {
            CsvError::HeaderRead(m) => m.as_str(),
            CsvError::RecordParse(m) => m.as_str(),
            CsvError::BatchAssembly(m) => m.as_str(),
            CsvError::InvalidUrl(m) => m.as_str(),
        }
    }

    /// The error for a header row that was expected and is absent.
    pub fn missing_header() -> (e: CsvError)
        ensures
            e@ == ErrorView::HeaderRead(missing_header_message()),
    {
        CsvError::HeaderRead(String::from_str("Failed to read headers: the input has no header row"))
    }

    /// The error for an input without a first row to count columns from.
    pub fn empty_input() -> (e: CsvError)
        ensures
            e@ == ErrorView::HeaderRead(empty_input_message()),
    {
        CsvError::HeaderRead(String::from_str("Cannot infer schema from empty file"))
    }

    /// The error for a batch asked for without any record.
    pub fn no_records() -> (e: CsvError)
        ensures
            e@ == ErrorView::BatchAssembly(no_records_message()),
    {
        CsvError::BatchAssembly(String::from_str("No records to convert"))
    }

    /// The error for a projection that names a column which the schema does
    /// not have.
    pub fn invalid_projection() -> (e: CsvError)
        ensures
            e@ == ErrorView::BatchAssembly(invalid_projection_message()),
    {
        CsvError::BatchAssembly(
            String::from_str("Projection names a column that the schema does not have"),
        )
    }

    /// The error for a header row that the tokenizer rejected with `detail`.
    pub fn header_failure(detail: &str) -> (e: CsvError)
        ensures
            e@ == ErrorView::HeaderRead(header_failure_message(detail@)),
    {
        CsvError::HeaderRead(String::from_str("Failed to read headers: ").concat(detail))
    }

    /// The error for a record that the tokenizer rejected with `detail`.
    pub fn record_failure(detail: &str) -> (e: CsvError)
        ensures
            e@ == ErrorView::RecordParse(record_failure_message(detail@)),
    {
        CsvError::RecordParse(String::from_str("CSV parse error: ").concat(detail))
    }
}

} // verus!
