//! How a table of delimited-text files is set up: where its files are looked
//! for and which remote store has to be known before they can be read.

use vstd::prelude::*;
use vstd::string::StringExecFns;
use crate::error::{CsvError, ErrorView};
use crate::file_format::{
    default_options, detect_file_extension, dotted, with_leading_dot, CsvFormatOptions,
    OptionsView,
};
use crate::text::{chars_of, same_text, starts_with};

verus! {

// ---------------------------------------------------------------------------
// URLs, by the `url` crate
// ---------------------------------------------------------------------------

/// What `url::Url::parse` makes of `url`: the scheme and, where there is
/// one, the host of the parsed URL, as `scheme` and `host_str` return them,
/// or the message of the parse error.
pub uninterp spec fn url_scheme_and_host(url: Seq<char>) -> Result<
    (Seq<char>, Option<Seq<char>>),
    Seq<char>,
>;

/// The parts of a URL as the wrapper returns them, in the terms of the name
/// above.
pub open spec fn url_parts_view(parts: Result<(String, Option<String>), String>) -> Result<
    (Seq<char>, Option<Seq<char>>),
    Seq<char>,
> {
    match parts {
        Ok((scheme, Some(host))) => Ok((scheme@, Some(host@))),
        Ok((scheme, None)) => Ok((scheme@, None)),
        Err(message) => Err(message@),
    }
}

/// `url::Url::parse`, then `scheme` and `host_str` on the parsed URL. The
/// result is a function of the text alone.
#[verifier::external_body]
fn parse_scheme_and_host(url: &str) -> (parts: Result<(String, Option<String>), String>)
    ensures
        url_parts_view(parts) == url_scheme_and_host(url@),
{
    match url::Url::parse(url) {
        Ok(parsed) => Ok(
            (parsed.scheme().to_string(), parsed.host_str().map(|host| host.to_string())),
        ),
        Err(error) => Err(error.to_string()),
    }
}

/// What is reported for a URL without a host.
pub open spec fn no_host_message() -> Seq<char> {
    "URL has no host"@
}

/// What is reported for a URL that was rejected with `detail`.
pub open spec fn url_failure_message(detail: Seq<char>) -> Seq<char> {
    "Failed to parse URL: "@ + detail
}

/// The base URL of the store behind a parsed URL: its scheme and its host.
pub open spec fn spec_store_base_url(
    parts: Result<(Seq<char>, Option<Seq<char>>), Seq<char>>,
) -> Result<Seq<char>, ErrorView> {
    match parts {
        Ok((scheme, Some(host))) => Ok(scheme + "://"@ + host),
        Ok((_, None)) => Err(ErrorView::InvalidUrl(no_host_message())),
        Err(detail) => Err(ErrorView::InvalidUrl(url_failure_message(detail))),
    }
}

/// Text or an error, in the terms of the contracts.
pub open spec fn text_outcome(outcome: Result<String, CsvError>) -> Result<Seq<char>, ErrorView> {
    match outcome {
        Ok(text) => Ok(text@),
        Err(e) => Err(e@),
    }
}

/// The base URL of the store behind a parsed URL, `scheme://host`. A URL
/// that did not parse or that has no host has none.
pub fn store_base_url(parts: Result<(String, Option<String>), String>) -> (base: Result<
    String,
    CsvError,
>)
    ensures
        text_outcome(base) == spec_store_base_url(url_parts_view(parts)),
{
    match parts {
        Ok((scheme, Some(host))) => Ok(scheme.concat("://").concat(host.as_str())),
        Ok((_, None)) => Err(CsvError::InvalidUrl(String::from_str("URL has no host"))),
        Err(detail) => Err(
            CsvError::InvalidUrl(String::from_str("Failed to parse URL: ").concat(detail.as_str())),
        ),
    }
}

/// The base URL of the HTTP store that serves `url`.
pub fn http_store_base_url(url: &str) -> (base: Result<String, CsvError>)
    ensures
        text_outcome(base) == spec_store_base_url(url_scheme_and_host(url@)),
{
    store_base_url(parse_scheme_and_host(url))
}

/// Whether `path` is an HTTP or HTTPS URL.
pub open spec fn spec_is_http_url(path: Seq<char>) -> bool {
    "http://"@.is_prefix_of(path) || "https://"@.is_prefix_of(path)
}

/// Whether `path` is an HTTP or HTTPS URL.
pub fn is_http_url(path: &str) -> (http: bool)
    ensures
        http == spec_is_http_url(path@),
{
    let chars = chars_of(path);
    let http = chars_of("http://");
    let https = chars_of("https://");
    starts_with(chars.as_slice(), http.as_slice()) || starts_with(
        chars.as_slice(),
        https.as_slice(),
    )
}

// ---------------------------------------------------------------------------
// The extension of the files that are listed
// ---------------------------------------------------------------------------

/// The extension that files are listed by. Options that keep the default
/// extension let the path decide: its own extension is taken if it has one.
/// Any other extension in the options is taken as it is set.
pub open spec fn spec_listing_extension(options: OptionsView, detected: Option<Seq<char>>) -> Seq<
    char,
> {
    if options.file_extension == ".csv"@ {
        match detected {
            Some(extension) => with_leading_dot(extension),
            None => ".csv"@,
        }
    } else {
        with_leading_dot(options.file_extension)
    }
}

/// The extension that files are listed by, given the extension that was
/// detected in the table's path.
pub fn listing_extension(options: &CsvFormatOptions, detected: Option<String>) -> (extension: String)
    ensures
        extension@ == spec_listing_extension(options@, optional_text(detected)),
{
    let configured = chars_of(options.file_extension.as_str());
    let default_extension = chars_of(".csv");
    if same_text(configured.as_slice(), default_extension.as_slice()) {
        match detected {
            Some(extension) => dotted(extension.as_str()),
            None => String::from_str(".csv"),
        }
    } else {
        options.file_extension_with_dot()
    }
}

// ---------------------------------------------------------------------------
// Setting up a table
// ---------------------------------------------------------------------------

/// What has to be done before the files of a table can be listed and read.
#[derive(Debug)]
pub struct TablePlan {
    /// The base URL of the HTTP store to make known first, for a table
    /// behind an HTTP or HTTPS URL.
    pub store_base_url: Option<String>,
    /// The extension that the table's files are listed by.
    pub file_extension: String,
}

/// The store that has to be made known for a table at `path`: the base URL
/// of an HTTP or HTTPS URL, none for any other path. An HTTP or HTTPS URL
/// without a base is an error.
pub open spec fn spec_store_of(path: Seq<char>) -> Result<Option<Seq<char>>, ErrorView> {
    if spec_is_http_url(path) {
        match spec_store_base_url(url_scheme_and_host(path)) {
            Ok(base) => Ok(Some(base)),
            Err(e) => Err(e),
        }
    } else {
        Ok(None)
    }
}

/// An optional text in the terms of the contracts.
pub open spec fn optional_text(text: Option<String>) -> Option<Seq<char>> {
    match text {
        Some(t) => Some(t@),
        None => None,
    }
}

/// How a table at `path` is set up under `options`.
///
/// The plan names the store that `spec_store_of` gives, and fails where that
/// fails. Its extension is the one that `spec_listing_extension` gives for
/// whatever extension the platform finds in the path.
pub fn plan_table(path: &str, options: &CsvFormatOptions) -> (plan: Result<TablePlan, CsvError>)
    ensures
        match spec_store_of(path@) {
            Ok(store) => {
                &&& plan matches Ok(p)
                &&& optional_text(p.store_base_url) == store
                &&& exists|detected: Option<Seq<char>>|
                    p.file_extension@ == spec_listing_extension(options@, detected)
            },
            Err(e) => plan matches Err(f) && f@ == e,
        },
{
    let store_base_url = if is_http_url(path) {
        match http_store_base_url(path) {
            Ok(base) => Some(base),
            Err(e) => {
                return Err(e);
            },
        }
    } else {
        None
    };
    let detected = detect_file_extension(path);
    let file_extension = listing_extension(options, detected);
    Ok(TablePlan { store_base_url, file_extension })
}

/// Builds a table of delimited-text files step by step.
#[derive(Debug)]
pub struct CsvSourceBuilder {
    path: String,
    options: CsvFormatOptions,
}

/// A `CsvSourceBuilder` in the terms of the contracts.
pub struct BuilderView {
    pub path: Seq<char>,
    pub options: OptionsView,
}

impl View for CsvSourceBuilder {
    type V = BuilderView;

    closed spec fn view(&self) -> BuilderView {
        BuilderView { path: self.path@, options: self.options@ }
    }
}

impl CsvSourceBuilder {
    /// A builder for the table at `path`, with the default options.
    pub fn new(path: &str) -> (builder: Self)
        ensures
            builder@ == (BuilderView { path: path@, options: default_options() }),
    {
        CsvSourceBuilder { path: String::from_str(path), options: CsvFormatOptions::new() }
    }

    /// Sets all format options.
    pub fn with_options(self, options: CsvFormatOptions) -> (builder: Self)
        ensures
            builder@ == (BuilderView { options: options@, ..self@ }),
    {
        CsvSourceBuilder { options, ..self }
    }

    /// Sets the field delimiter.
    pub fn with_delimiter(self, delimiter: u8) -> (builder: Self)
        ensures
            builder@ == (BuilderView {
                options: OptionsView { delimiter, ..self@.options },
                ..self@
            }),
    {
        CsvSourceBuilder { path: self.path, options: self.options.with_delimiter(delimiter) }
    }

    /// Sets whether the files have a header row.
    pub fn with_has_header(self, has_header: bool) -> (builder: Self)
        ensures
            builder@ == (BuilderView {
                options: OptionsView { has_header, ..self@.options },
                ..self@
            }),
    {
        CsvSourceBuilder { path: self.path, options: self.options.with_has_header(has_header) }
    }

    /// The path of the table.
    pub fn path(&self) -> (path: &str)
        ensures
            path@ == self@.path,
    {
        self.path.as_str()
    }

    /// The format options.
    pub fn options(&self) -> (options: &CsvFormatOptions)
        ensures
            options@ == self@.options,
    {
        &self.options
    }
}

} // verus!
