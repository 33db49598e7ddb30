//! Errors of the client and the wire form in which they are reported.

use vstd::prelude::*;
use vstd::std_specs::convert::FromSpecImpl;
use crate::decimal::{dec_signed, i64_text};
use crate::text::{cat, cat3, owned};

verus! {

/// Everything that can go wrong while running a command.
#[derive(Debug)]
pub enum TuhucarError {
    /// The transport failed; holds the transport error's text.
    Network(String),
    /// No configuration file exists yet.
    ConfigMissing { suggestion: String },
    /// The configuration could not be read or written.
    ConfigParse(String),
    /// No car model matched the description.
    CarNotFound { suggestion: String },
    /// The MCP server (or a gateway behind it) reported a failure.
    McpError { code: i64, message: String },
    /// The command line could not be understood.
    InvalidArgs { message: String, suggestion: String },
}

/// The error object of the response envelope.
#[derive(Debug, Clone)]
pub struct ApiError {
    pub code: String,
    pub message: String,
    pub retryable: bool,
    pub suggestion: Option<String>,
    pub upstream: Option<UpstreamError>,
}

/// What an upstream service answered, when an error came from one.
#[derive(Debug, Clone)]
pub struct UpstreamError {
    pub status: u16,
    pub code: String,
    pub message: String,
}

/// `o` holds a string with the characters `t`.
pub open spec fn holds_text(o: Option<String>, t: Seq<char>) -> bool {
    o matches Some(s) && s@ == t
}

/// The human-readable text of an error (its `Display` form).
pub open spec fn error_text(e: TuhucarError) -> Seq<char> {
    match e {
        TuhucarError::Network(t) => "Network error: "@ + t@,
        TuhucarError::ConfigMissing { suggestion } => "Config missing: "@ + suggestion@,
        TuhucarError::ConfigParse(m) => "Config parse error: "@ + m@,
        TuhucarError::CarNotFound { .. } => "Car not found"@,
        TuhucarError::McpError { code, message } => "MCP error ("@ + dec_signed(code as int)
            + "): "@ + message@,
        TuhucarError::InvalidArgs { message, .. } => "Invalid arguments: "@ + message@,
    }
}

/// `a` is the envelope error that `e` is reported as.
pub open spec fn reported_as(e: TuhucarError, a: ApiError) -> bool {
    match e {
        TuhucarError::Network(_) => {
            &&& a.code@ == "NETWORK_ERROR"@
            &&& a.message@ == error_text(e)
            &&& a.retryable
            &&& a.suggestion is None
            &&& a.upstream is None
        },
        TuhucarError::ConfigMissing { suggestion } => {
            &&& a.code@ == "CONFIG_MISSING"@
            &&& a.message@ == "Configuration not found"@
            &&& !a.retryable
            &&& holds_text(a.suggestion, suggestion@)
            &&& a.upstream is None
        },
        TuhucarError::ConfigParse(msg) => {
            &&& a.code@ == "CONFIG_PARSE_ERROR"@
            &&& a.message@ == msg@
            &&& !a.retryable
            &&& holds_text(a.suggestion, "Check ~/.tuhucar/config.toml for syntax errors"@)
            &&& a.upstream is None
        },
        TuhucarError::CarNotFound { suggestion } => {
            &&& a.code@ == "CAR_NOT_FOUND"@
            &&& a.message@ == "No matching car model found"@
            &&& !a.retryable
            &&& holds_text(a.suggestion, suggestion@)
            &&& a.upstream is None
        },
        TuhucarError::McpError { code, message } => {
            &&& a.code@ == "MCP_ERROR"@
            &&& a.message@ == message@
            &&& a.retryable == (code >= 500)
            &&& a.suggestion is None
            &&& a.upstream matches Some(u) && u.status == (code as u16) && u.code@
                == "MCP_ERROR"@ && u.message@ == message@
        },
        TuhucarError::InvalidArgs { message, suggestion } => {
            &&& a.code@ == "INVALID_ARGS"@
            &&& a.message@ == message@
            &&& !a.retryable
            &&& holds_text(a.suggestion, suggestion@)
            &&& a.upstream is None
        },
    }
}

impl TuhucarError {
    /// The human-readable text of the error, as its `Display` form writes it.
    pub fn display_text(&self) -> (s: String)
        ensures
            s@ == error_text(*self),
    {
        match self {
            TuhucarError::Network(t) => cat("Network error: ", t.as_str()),
            TuhucarError::ConfigMissing { suggestion } => cat(
                "Config missing: ",
                suggestion.as_str(),
            ),
            TuhucarError::ConfigParse(m) => cat("Config parse error: ", m.as_str()),
            TuhucarError::CarNotFound { .. } => owned("Car not found"),
            TuhucarError::McpError { code, message } => {
                let c = i64_text(*code);
                let head = cat3("MCP error (", c.as_str(), "): ");
                cat(head.as_str(), message.as_str())
            },
            TuhucarError::InvalidArgs { message, .. } => cat(
                "Invalid arguments: ",
                message.as_str(),
            ),
        }
    }
}

impl From<TuhucarError> for ApiError {
    /// Reports an error in the envelope: a stable code, whether retrying
    /// may help, and, for upstream failures, what the upstream said.
    fn from(err: TuhucarError) -> (a: ApiError)
        ensures
            reported_as(err, a),
    {
        match err {
            TuhucarError::Network(_) => {
                let message = err.display_text();
                ApiError {
                    code: owned("NETWORK_ERROR"),
                    message,
                    retryable: true,
                    suggestion: None,
                    upstream: None,
                }
            },
            TuhucarError::ConfigMissing { suggestion } => ApiError {
                code: owned("CONFIG_MISSING"),
                message: owned("Configuration not found"),
                retryable: false,
                suggestion: Some(suggestion),
                upstream: None,
            },
            TuhucarError::ConfigParse(msg) => ApiError {
                code: owned("CONFIG_PARSE_ERROR"),
                message: msg,
                retryable: false,
                suggestion: Some(owned("Check ~/.tuhucar/config.toml for syntax errors")),
                upstream: None,
            },
            TuhucarError::CarNotFound { suggestion } => ApiError {
                code: owned("CAR_NOT_FOUND"),
                message: owned("No matching car model found"),
                retryable: false,
                suggestion: Some(suggestion),
                upstream: None,
            },
            TuhucarError::McpError { code, message } => {
                let status: u16 = #[verifier::truncate] (code as u16);
                ApiError {
                    code: owned("MCP_ERROR"),
                    message: message.clone(),
                    retryable: code >= 500,
                    suggestion: None,
                    upstream: Some(UpstreamError { status, code: owned("MCP_ERROR"), message }),
                }
            },
            TuhucarError::InvalidArgs { message, suggestion } => ApiError {
                code: owned("INVALID_ARGS"),
                message,
                retryable: false,
                suggestion: Some(suggestion),
                upstream: None,
            },
        }
    }
}

impl FromSpecImpl<TuhucarError> for ApiError {
    /// `reported_as` pins every view of the result, not the result itself,
    /// so `from` is not claimed to equal one spec value.
    open spec fn obeys_from_spec() -> bool {
        false
    }

    open spec fn from_spec(v: TuhucarError) -> ApiError {
        choose|a: ApiError| reported_as(v, a)
    }
}

/// Retrying is suggested exactly for transport failures and for upstream
/// failures with a code of 500 or more; an upstream failure also carries
/// its code, as a 16-bit status, in the upstream part.
pub proof fn retryable_means_transient(e: TuhucarError, a: ApiError)
    requires
        reported_as(e, a),
    ensures
        a.retryable <==> (e is Network || (e matches TuhucarError::McpError { code, .. } && code
            >= 500)),
        (a.upstream matches Some(u)) <==> e is McpError,
        e matches TuhucarError::McpError { code, .. } ==> a.upstream.unwrap().status == (
        code as u16),
{
}

} // verus!
