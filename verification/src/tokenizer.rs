//! The record tokenizer: the `csv` crate's reader over a byte buffer.
//!
//! Nothing in this file is proved. It declares the reader's type, gives names
//! to what the reader yields, and wraps the three calls that the library
//! makes. Each contract states what the `csv` crate's source shows of the
//! call, for a reader built with the crate's defaults but for the delimiter,
//! the header flag and flexibility: the reader takes records of any number of
//! fields.

use std::io::Cursor;
use vstd::prelude::*;

verus! {

/// `csv::Reader`, opaque to the verifier.
#[verifier::external_type_specification]
#[verifier::external_body]
#[verifier::reject_recursive_types(R)]
pub struct ExReader<R>(csv::Reader<R>);

/// `std::io::Cursor`, opaque to the verifier.
#[verifier::external_type_specification]
#[verifier::external_body]
#[verifier::reject_recursive_types(T)]
pub struct ExCursor<T>(Cursor<T>);

/// The reader that this library uses: it owns a copy of the bytes it reads.
pub type Tokenizer = csv::Reader<Cursor<Vec<u8>>>;

/// One record as the tokenizer hands it out: its fields, or the message of
/// the error that the record raised.
pub type RowOutcome = Result<Seq<Seq<char>>, Seq<char>>;

/// The first row of `bytes` as `csv::Reader::headers` returns it: its
/// fields, no field at all when the input holds no row, or the message of the
/// error raised by a first row that is not UTF-8.
pub uninterp spec fn csv_header(bytes: Seq<u8>, delimiter: u8) -> Result<
    Seq<Seq<char>>,
    Seq<char>,
>;

/// Everything that the iterator of `csv::Reader::records` yields over
/// `bytes` when nothing else is asked of the reader, in order: each record's
/// fields, or the message of its error. With `has_header` the first row is
/// not among them. The reader is flexible, so that a record may have any
/// number of fields; the only record that is an error is one that is not
/// UTF-8.
pub uninterp spec fn csv_records(bytes: Seq<u8>, delimiter: u8, has_header: bool) -> Seq<
    Result<Seq<Seq<char>>, Seq<char>>,
>;

/// What `headers` returns on this reader.
pub uninterp spec fn reader_header(reader: Tokenizer) -> Result<Seq<Seq<char>>, Seq<char>>;

/// What this reader has yet to yield: the outcomes of its remaining records,
/// next one first.
pub uninterp spec fn reader_pending(reader: Tokenizer) -> Seq<Result<Seq<Seq<char>>, Seq<char>>>;

/// A row as the wrappers return it, in the terms of the names above.
pub open spec fn row_view(row: Result<Vec<String>, String>) -> RowOutcome {
    match row {
        Ok(fields) => Ok(fields.deep_view()),
        Err(message) => Err(message@),
    }
}

/// `csv::ReaderBuilder::from_reader`, after `delimiter`, `has_headers` and
/// `flexible(true)`, over a cursor on a copy of `bytes`. The new reader has
/// read nothing: its header and its records are those of `bytes`.
#[verifier::external_body]
pub(crate) fn open_reader(bytes: &[u8], delimiter: u8, has_header: bool) -> (reader: Tokenizer)
    ensures
        reader_header(reader) == csv_header(bytes@, delimiter),
        reader_pending(reader) == csv_records(bytes@, delimiter, has_header),
{
    csv::ReaderBuilder::new()
        .delimiter(delimiter)
        .has_headers(has_header)
        .flexible(true)
        .from_reader(Cursor::new(bytes.to_vec()))
}

/// Whether two runs of outcomes hold the same records at the same places and
/// errors at the same places. The messages of the errors may differ.
pub open spec fn same_records(a: Seq<RowOutcome>, b: Seq<RowOutcome>) -> bool {
    &&& a.len() == b.len()
    &&& forall|i: int|
        0 <= i < a.len() ==> match (#[trigger] a[i], b[i]) {
            (Ok(x), Ok(y)) => x == y,
            (Err(_), Err(_)) => true,
            _ => false,
        }
}

/// `csv::Reader::headers`. It returns the first row, reading it if it has
/// not been read, with an error handed out as its message. The reader goes on
/// to yield the records that it would have yielded; only the position that an
/// error message quotes may have changed.
#[verifier::external_body]
pub(crate) fn read_header(reader: &mut Tokenizer) -> (header: Result<Vec<String>, String>)
    ensures
        row_view(header) == reader_header(*old(reader)),
        same_records(reader_pending(*final(reader)), reader_pending(*old(reader))),
{
    match reader.headers() {
        Ok(record) => Ok(record.iter().map(|field| field.to_string()).collect()),
        Err(error) => Err(error.to_string()),
    }
}

/// One `next` on the iterator of `csv::Reader::records`. It yields the next
/// record, or the error that the record raised as its message, and moves past
/// it; at the end of the input it yields nothing and the reader stays at the
/// end.
#[verifier::external_body]
pub(crate) fn next_record(reader: &mut Tokenizer) -> (row: Option<Result<Vec<String>, String>>)
    ensures
        match row {
            Some(outcome) => {
                &&& reader_pending(*old(reader)).len() > 0
                &&& row_view(outcome) == reader_pending(*old(reader))[0]
                &&& reader_pending(*final(reader)) == reader_pending(*old(reader)).skip(1)
            },
            None => {
                &&& reader_pending(*old(reader)).len() == 0
                &&& reader_pending(*final(reader)) == reader_pending(*old(reader))
            },
        },
{
    match reader.records().next() {
        Some(Ok(record)) => Some(Ok(record.iter().map(|field| field.to_string()).collect())),
        Some(Err(error)) => Some(Err(error.to_string())),
        None => None,
    }
}

} // verus!
