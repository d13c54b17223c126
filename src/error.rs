//! The errors the tools report: a bad configuration stops a run before any
//! source is read; a source that cannot be opened or read is reported and
//! skipped.

use vstd::prelude::*;

verus! {

pub enum ToolError {
    /// An invalid argument, found before any input is read.
    ConfigError { message: String },
    /// A source that could not be opened, and why.
    SourceOpenError { source: String, cause: String },
    /// A read from a source that failed, and why.
    SourceReadError { source: String, cause: String },
}

/// The message reported for an error.
pub open spec fn error_message(e: ToolError) -> Seq<char> {
    match e {
        ToolError::ConfigError { message } => message@,
        ToolError::SourceOpenError { source, cause } => "Failed to open "@ + source@ + ": "@
            + cause@,
        ToolError::SourceReadError { source, cause } => "Failed to read "@ + source@ + ": "@
            + cause@,
    }
}

impl ToolError {
    /// The message reported for this error.
    pub fn to_string(&self) -> (r: String)
        ensures
            r@ == error_message(*self),
    {
        match self {
            ToolError::ConfigError { message } => message.clone(),
            ToolError::SourceOpenError { source, cause } => {
                let r = String::from_str("Failed to open ").concat(source.as_str()).concat(
                    ": ",
                ).concat(cause.as_str());
                r
            },
            ToolError::SourceReadError { source, cause } => {
                let r = String::from_str("Failed to read ").concat(source.as_str()).concat(
                    ": ",
                ).concat(cause.as_str());
                r
            },
        }
    }
}

} // verus!
