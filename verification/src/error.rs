//! Error taxonomy of the scaffolder: one variant per failure kind, a
//! user-facing message for each, and conversions from the error types of the
//! crates the library leans on.

use vstd::prelude::*;
use vstd::string::StringExecFns;

verus! {

/// Every failure the scaffolder can report.
#[derive(Debug)]
pub enum Error {
    /// Template not found in discovery results.
    TemplateNotFound(String),
    /// Invalid manifest schema.
    InvalidSchema(String),
    /// A manifest field or value violates a documented constraint.
    ValidationError {
        /// Dotted path of the offending field.
        field: String,
        /// What the field violates.
        message: String,
    },
    /// A network operation failed.
    NetworkError(String),
    /// A local file-system operation failed.
    FileSystemError(String),
    /// A user-supplied parameter was rejected.
    ParameterError(String),
    /// Template parsing or substitution failed.
    RenderError(String),
    /// The code-hosting API refused or garbled a request.
    GitHubApiError(String),
    /// The manifest text could not be parsed.
    TomlError(String),
    /// A cache operation failed.
    CacheError(String),
    /// The user cancelled an interaction.
    Cancelled,
    /// Anything else.
    Other(String),
}

/// Mathematical image of an [`Error`]: the same variants over character
/// sequences, so contracts can speak of errors that spec functions build.
pub ghost enum ErrorV {
    /// Template not found in discovery results.
    TemplateNotFound(Seq<char>),
    /// Invalid manifest schema.
    InvalidSchema(Seq<char>),
    /// A manifest field or value violates a documented constraint.
    ValidationError { field: Seq<char>, message: Seq<char> },
    /// A network operation failed.
    NetworkError(Seq<char>),
    /// A local file-system operation failed.
    FileSystemError(Seq<char>),
    /// A user-supplied parameter was rejected.
    ParameterError(Seq<char>),
    /// Template parsing or substitution failed.
    RenderError(Seq<char>),
    /// The code-hosting API refused or garbled a request.
    GitHubApiError(Seq<char>),
    /// The manifest text could not be parsed.
    TomlError(Seq<char>),
    /// A cache operation failed.
    CacheError(Seq<char>),
    /// The user cancelled an interaction.
    Cancelled,
    /// Anything else.
    Other(Seq<char>),
}

impl View for Error {
    type V = ErrorV;

    open spec fn view(&self) -> ErrorV {
        match self {
            Error::TemplateNotFound(s) => ErrorV::TemplateNotFound(s@),
            Error::InvalidSchema(s) => ErrorV::InvalidSchema(s@),
            Error::ValidationError { field, message } => ErrorV::ValidationError {
                field: field@,
                message: message@,
            },
            Error::NetworkError(s) => ErrorV::NetworkError(s@),
            Error::FileSystemError(s) => ErrorV::FileSystemError(s@),
            Error::ParameterError(s) => ErrorV::ParameterError(s@),
            Error::RenderError(s) => ErrorV::RenderError(s@),
            Error::GitHubApiError(s) => ErrorV::GitHubApiError(s@),
            Error::TomlError(s) => ErrorV::TomlError(s@),
            Error::CacheError(s) => ErrorV::CacheError(s@),
            Error::Cancelled => ErrorV::Cancelled,
            Error::Other(s) => ErrorV::Other(s@),
        }
    }
}

/// The user-facing message of an error, as a character sequence.
pub open spec fn spec_message(e: ErrorV) -> Seq<char> {
    match e {
        ErrorV::TemplateNotFound(name) => "Template '"@ + name + "' not found\n\nRun 'cargo-x402 list' to see available templates"@,
        ErrorV::InvalidSchema(msg) => "Invalid x402.toml schema: "@ + msg + "\n\nSee TEMPLATE_SCHEMA.md for details"@,
        ErrorV::ValidationError { field, message } => "Validation error in '"@ + field + "': "@ + message,
        ErrorV::NetworkError(msg) => "Network error: "@ + msg + "\n\nMake sure you have internet connectivity"@,
        ErrorV::FileSystemError(msg) => "File system error: "@ + msg,
        ErrorV::ParameterError(msg) => "Parameter error: "@ + msg,
        ErrorV::RenderError(msg) => "Template rendering error: "@ + msg,
        ErrorV::GitHubApiError(msg) => "GitHub API error: "@ + msg + "\n\nCheck your internet connection or rate limits"@,
        ErrorV::TomlError(msg) => "TOML parsing error: "@ + msg,
        ErrorV::CacheError(msg) => "Cache error: "@ + msg,
        ErrorV::Cancelled => "Operation cancelled by user"@,
        ErrorV::Other(msg) => msg,
    }
}

impl Error {
    /// The user-facing message of this error, with guidance where the failure
    /// kind calls for it.
    pub fn message(&self) -> (r: String)
        ensures
            r@ == spec_message(self@),
    {
        match self {
            Error::TemplateNotFound(name) => {
                String::from_str("Template '").concat(name.as_str()).concat(
                    "' not found\n\nRun 'cargo-x402 list' to see available templates",
                )
            },
            Error::InvalidSchema(msg) => {
                String::from_str("Invalid x402.toml schema: ").concat(msg.as_str()).concat(
                    "\n\nSee TEMPLATE_SCHEMA.md for details",
                )
            },
            Error::ValidationError { field, message } => {
                String::from_str("Validation error in '").concat(field.as_str()).concat(
                    "': ",
                ).concat(message.as_str())
            },
            Error::NetworkError(msg) => {
                String::from_str("Network error: ").concat(msg.as_str()).concat(
                    "\n\nMake sure you have internet connectivity",
                )
            },
            Error::FileSystemError(msg) => {
                String::from_str("File system error: ").concat(msg.as_str())
            },
            Error::ParameterError(msg) => {
                String::from_str("Parameter error: ").concat(msg.as_str())
            },
            Error::RenderError(msg) => {
                String::from_str("Template rendering error: ").concat(msg.as_str())
            },
            Error::GitHubApiError(msg) => {
                String::from_str("GitHub API error: ").concat(msg.as_str()).concat(
                    "\n\nCheck your internet connection or rate limits",
                )
            },
            Error::TomlError(msg) => String::from_str("TOML parsing error: ").concat(msg.as_str()),
            Error::CacheError(msg) => String::from_str("Cache error: ").concat(msg.as_str()),
            Error::Cancelled => String::from_str("Operation cancelled by user"),
            Error::Other(msg) => msg.clone(),
        }
    }
}

impl From<std::io::Error> for Error {
    /// A file or stream failure reads as a file-system error.
    fn from(err: std::io::Error) -> Self {
        Error::FileSystemError(
            String::from_str("IO error: ").concat(
                crate::trusted::io_error_message(&err).as_str(),
            ),
        )
    }
}

impl vstd::std_specs::convert::FromSpecImpl<std::io::Error> for Error {
    open spec fn obeys_from_spec() -> bool {
        false
    }

    open spec fn from_spec(v: std::io::Error) -> Error {
        arbitrary()
    }
}

impl From<toml::de::Error> for Error {
    /// A manifest-text parse failure reads as a parsing error.
    fn from(err: toml::de::Error) -> Self {
        Error::TomlError(
            String::from_str("TOML parsing error: ").concat(
                crate::trusted::toml_error_message(&err).as_str(),
            ),
        )
    }
}

impl vstd::std_specs::convert::FromSpecImpl<toml::de::Error> for Error {
    open spec fn obeys_from_spec() -> bool {
        false
    }

    open spec fn from_spec(v: toml::de::Error) -> Error {
        arbitrary()
    }
}

impl From<serde_json::Error> for Error {
    /// A JSON failure reads as a parsing error too; the cache is the only
    /// JSON the scaffolder touches.
    fn from(err: serde_json::Error) -> Self {
        Error::TomlError(
            String::from_str("JSON error: ").concat(
                crate::trusted::json_error_message(&err).as_str(),
            ),
        )
    }
}

impl vstd::std_specs::convert::FromSpecImpl<serde_json::Error> for Error {
    open spec fn obeys_from_spec() -> bool {
        false
    }

    open spec fn from_spec(v: serde_json::Error) -> Error {
        arbitrary()
    }
}

impl From<regex::Error> for Error {
    /// A failed pattern compilation reads as a validation error on the
    /// `pattern` field.
    fn from(err: regex::Error) -> Self {
        Error::ValidationError {
            field: String::from_str("pattern"),
            message: crate::trusted::regex_error_message(&err),
        }
    }
}

impl vstd::std_specs::convert::FromSpecImpl<regex::Error> for Error {
    open spec fn obeys_from_spec() -> bool {
        false
    }

    open spec fn from_spec(v: regex::Error) -> Error {
        arbitrary()
    }
}

/// The result type of every fallible operation of the scaffolder.
pub type Result<T> = core::result::Result<T, Error>;

} // verus!
