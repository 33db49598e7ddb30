//! The response envelope, its metadata and the output formats.

use vstd::prelude::*;
use crate::error::ApiError;
use crate::text::same_text;

verus! {

/// The envelope around every command result: data on success, an error on
/// failure, and metadata either way.
#[derive(Debug)]
pub struct Response<T> {
    pub data: Option<T>,
    pub error: Option<ApiError>,
    pub meta: Option<ResponseMeta>,
}

impl<T> Response<T> {
    /// A successful response carrying `data`.
    pub fn success(data: T, meta: Option<ResponseMeta>) -> (r: Self)
        ensures
            r.data == Some(data),
            r.error is None,
            r.meta == meta,
    {
        Response { data: Some(data), error: None, meta }
    }

    /// A failed response carrying `err`.
    pub fn error(err: ApiError, meta: Option<ResponseMeta>) -> (r: Self)
        ensures
            r.data is None,
            r.error == Some(err),
            r.meta == meta,
    {
        Response { data: None, error: Some(err), meta }
    }
}

/// Metadata of a response: the client version and any notices for the user.
#[derive(Debug, Clone)]
pub struct ResponseMeta {
    pub version: String,
    pub notices: Vec<Notice>,
}

/// Something the user should be told besides the result.
#[derive(Debug, Clone)]
pub enum Notice {
    /// A newer release is available.
    Update { current: String, latest: String, message: String },
}

/// How results are printed.
#[derive(Clone, Copy, Debug, PartialEq, Eq, Structural)]
pub enum OutputFormat {
    Json,
    Markdown,
}

/// The format that the name `s` selects, if any.
pub open spec fn format_named(s: Seq<char>) -> Option<OutputFormat> {
    if s == "json"@ {
        Some(OutputFormat::Json)
    } else if s == "markdown"@ {
        Some(OutputFormat::Markdown)
    } else {
        None
    }
}

impl OutputFormat {
    /// Parses a format name: `json` or `markdown`, nothing else.
    pub fn from_str_opt(s: &str) -> (r: Option<Self>)
        ensures
            r == format_named(s@),
    {
        if same_text(s, "json") {
            Some(OutputFormat::Json)
        } else if same_text(s, "markdown") {
            Some(OutputFormat::Markdown)
        } else {
            None
        }
    }
}

/// A command result that can be shown to a person.
pub trait Render {
    /// Renders the value as markdown.
    fn to_markdown(&self) -> String;
}

/// `m` is a markdown text that rendering `d` can give.
pub open spec fn renders_as<T: Render>(d: &T, m: Seq<char>) -> bool {
    exists|s: String| call_ensures(T::to_markdown, (d,), s) && s@ == m
}

/// A machine-readable description of a command, for tools that drive the
/// client.  `input` and `wire_output` hold JSON Schema documents as text.
#[derive(Debug)]
pub struct CommandSchema {
    pub name: String,
    pub description: String,
    pub input: String,
    pub wire_output: String,
    pub errors: Vec<ErrorSchemaEntry>,
}

/// A schema by the characters of its parts: name, description, input,
/// wire output, and each error's code, description and retryability.
pub open spec fn schema_view(s: CommandSchema) -> (
    Seq<char>,
    Seq<char>,
    Seq<char>,
    Seq<char>,
    Seq<(Seq<char>, Seq<char>, bool)>,
) {
    (
        s.name@,
        s.description@,
        s.input@,
        s.wire_output@,
        s.errors@.map_values(|e: ErrorSchemaEntry| (e.code@, e.description@, e.retryable)),
    )
}

/// One error code that a command can report.
#[derive(Debug, Clone)]
pub struct ErrorSchemaEntry {
    pub code: String,
    pub description: String,
    pub retryable: bool,
}

} // verus!
