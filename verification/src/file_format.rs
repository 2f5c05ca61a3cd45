//! Format configuration for delimited text.

use vstd::prelude::*;
use vstd::string::StringExecFns;
use crate::error::{CsvError, ErrorView};
use crate::physical_exec::{infer_schema, inferred, schema_outcome};
use crate::schema::{FieldView, Schema};
use crate::text::chars_of;

verus! {

/// Configuration of the delimited-text format.
#[derive(Debug)]
pub struct CsvFormatOptions {
    /// Whether the first row is a header row (default: true).
    pub has_header: bool,
    /// The field delimiter, a single byte (default: `,`).
    pub delimiter: u8,
    /// The most records to look at when inferring a schema (default: 1000).
    pub schema_infer_max_rec: Option<usize>,
    /// The number of rows of a full batch (default: 8192).
    pub batch_size: usize,
    /// The extension of the files to read (default: `.csv`).
    pub file_extension: String,
}

/// `CsvFormatOptions` with the extension as a sequence of characters.
pub struct OptionsView {
    pub has_header: bool,
    pub delimiter: u8,
    pub schema_infer_max_rec: Option<usize>,
    pub batch_size: usize,
    pub file_extension: Seq<char>,
}

impl View for CsvFormatOptions {
    type V = OptionsView;

    open spec fn view(&self) -> OptionsView {
        OptionsView {
            has_header: self.has_header,
            delimiter: self.delimiter,
            schema_infer_max_rec: self.schema_infer_max_rec,
            batch_size: self.batch_size,
            file_extension: self.file_extension@,
        }
    }
}

/// The options that apply when none are given.
pub open spec fn default_options() -> OptionsView {
    OptionsView {
        has_header: true,
        delimiter: 44u8,
        schema_infer_max_rec: Some(1000usize),
        batch_size: 8192usize,
        file_extension: ".csv"@,
    }
}

/// `extension` with a dot in front, unless it has one.
pub open spec fn with_leading_dot(extension: Seq<char>) -> Seq<char> {
    if extension.len() > 0 && extension[0] == '.' {
        extension
    } else {
        seq!['.'] + extension
    }
}

impl Default for CsvFormatOptions {
    fn default() -> (options: Self)
        ensures
            options@ == default_options(),
    {
        CsvFormatOptions {
            has_header: true,
            delimiter: 44u8,
            schema_infer_max_rec: Some(1000),
            batch_size: 8192,
            file_extension: String::from_str(".csv"),
        }
    }
}

impl Clone for CsvFormatOptions {
    fn clone(&self) -> (copy: Self)
        ensures
            copy@ == self@,
    {
        CsvFormatOptions {
            has_header: self.has_header,
            delimiter: self.delimiter,
            schema_infer_max_rec: self.schema_infer_max_rec,
            batch_size: self.batch_size,
            file_extension: self.file_extension.clone(),
        }
    }
}

impl CsvFormatOptions {
    /// The default options.
    pub fn new() -> (options: Self)
        ensures
            options@ == default_options(),
    {
        CsvFormatOptions {
            has_header: true,
            delimiter: 44u8,
            schema_infer_max_rec: Some(1000),
            batch_size: 8192,
            file_extension: String::from_str(".csv"),
        }
    }

    /// Sets whether the first row is a header row.
    pub fn with_has_header(self, has_header: bool) -> (options: Self)
        ensures
            options@ == (OptionsView { has_header, ..self@ }),
    {
        CsvFormatOptions { has_header, ..self }
    }

    /// Sets the field delimiter.
    pub fn with_delimiter(self, delimiter: u8) -> (options: Self)
        ensures
            options@ == (OptionsView { delimiter, ..self@ }),
    {
        CsvFormatOptions { delimiter, ..self }
    }

    /// Sets the most records to look at when inferring a schema.
    pub fn with_schema_infer_max_rec(self, max_rec: Option<usize>) -> (options: Self)
        ensures
            options@ == (OptionsView { schema_infer_max_rec: max_rec, ..self@ }),
    {
        CsvFormatOptions { schema_infer_max_rec: max_rec, ..self }
    }

    /// Sets the number of rows of a full batch.
    pub fn with_batch_size(self, batch_size: usize) -> (options: Self)
        ensures
            options@ == (OptionsView { batch_size, ..self@ }),
    {
        CsvFormatOptions { batch_size, ..self }
    }

    /// Sets the extension of the files to read.
    pub fn with_file_extension(self, ext: &str) -> (options: Self)
        ensures
            options@ == (OptionsView { file_extension: ext@, ..self@ }),
    {
        CsvFormatOptions { file_extension: String::from_str(ext), ..self }
    }

    /// The file extension, with its leading dot.
    pub fn file_extension_with_dot(&self) -> (extension: String)
        ensures
            extension@ == with_leading_dot(self@.file_extension),
    {
        dotted(self.file_extension.as_str())
    }
}

/// `extension` with a dot in front, unless it has one.
pub fn dotted(extension: &str) -> (with_dot: String)
    ensures
        with_dot@ == with_leading_dot(extension@),
{
    let chars = chars_of(extension);
    if chars.len() > 0 && chars[0] == '.' {
        String::from_str(extension)
    } else {
        proof {
            reveal_strlit(".");
        }
        String::from_str(".").concat(extension)
    }
}

/// The delimited-text file format under given options.
#[derive(Debug)]
pub struct CsvFormat {
    options: CsvFormatOptions,
}

impl View for CsvFormat {
    type V = OptionsView;

    closed spec fn view(&self) -> OptionsView {
        self.options@
    }
}

impl Clone for CsvFormat {
    fn clone(&self) -> (copy: Self)
        ensures
            copy@ == self@,
    {
        CsvFormat { options: self.options.clone() }
    }
}

impl Default for CsvFormat {
    fn default() -> (format: Self)
        ensures
            format@ == default_options(),
    {
        CsvFormat { options: CsvFormatOptions::new() }
    }
}

/// The schema of a table of files: that of no columns where there is no
/// file, else the schema inferred from the first file's bytes.
pub open spec fn spec_table_schema(first_file: Option<Seq<u8>>, options: OptionsView) -> Result<
    Seq<FieldView>,
    ErrorView,
> {
    match first_file {
        None => Ok(Seq::empty()),
        Some(bytes) => inferred(bytes, options),
    }
}

impl CsvFormat {
    /// The format under `options`.
    pub fn new(options: CsvFormatOptions) -> (format: Self)
        ensures
            format@ == options@,
    {
        CsvFormat { options }
    }

    /// The options of the format.
    pub fn options(&self) -> (options: &CsvFormatOptions)
        ensures
            options@ == self@,
    {
        &self.options
    }

    /// The format's name.
    pub fn to_string(&self) -> (name: String)
        ensures
            name@ == "CSV"@,
    {
        String::from_str("CSV")
    }

    /// The extension of the files of this format, with its leading dot.
    pub fn get_ext(&self) -> (extension: String)
        ensures
            extension@ == with_leading_dot(self@.file_extension),
    {
        self.options.file_extension_with_dot()
    }

    /// Infers the schema of a table from the bytes of its first file; a table
    /// without any file has the schema of no columns.
    pub fn infer_schema(&self, first_file: Option<&[u8]>) -> (outcome: Result<Schema, CsvError>)
        ensures
            schema_outcome(outcome) == spec_table_schema(
                match first_file {
                    Some(bytes) => Some(bytes@),
                    None => None,
                },
                self@,
            ),
    {
        match first_file {
            None => Ok(Schema::empty()),
            Some(bytes) => infer_schema(bytes, &self.options),
        }
    }
}

/// `std::path::Path::extension` on `path`: the part of the final component
/// after its last dot, if it has one that does not start the component.
/// Nothing is claimed of the result: what counts as a component depends on
/// the platform.
#[verifier::external_body]
pub(crate) fn detect_file_extension(path: &str) -> (extension: Option<String>) {
    std::path::Path::new(path).extension().and_then(|e| e.to_str()).map(|s| s.to_string())
}

} // verus!
