//! The library's error type and the messages it renders.

use vstd::prelude::*;

verus! {

/// Errors reported by the library.
#[derive(Debug, Clone)]
pub enum ClaudeError {
    /// An MCP server failed.
    McpServer { message: String },
    /// An operation was not permitted.
    Permission { operation: String },
    /// A field held a value that is not accepted.
    Validation { field: String, message: String },
    /// Any other failure, with its message.
    General(String),
    /// A feature that is not available.
    NotImplemented { feature: String },
}

/// The library's result type.
pub type Result<T> = std::result::Result<T, ClaudeError>;

/// `prefix` followed by `msg`, as a fresh string.
pub fn concat_str(prefix: &str, msg: &str) -> (res: String)
    ensures
        res@ == prefix@ + msg@,
{
    let mut s = String::from_str(prefix);
    s.append(msg);
    s
}

/// The message that `to_string` gives for each kind of error.
pub open spec fn error_message(e: ClaudeError) -> Seq<char> {
    match e {
        ClaudeError::McpServer { message } => "MCP server error: "@ + message@,
        ClaudeError::Permission { operation } => "Permission denied: "@ + operation@,
        ClaudeError::Validation { field, message } => "Validation error: "@ + field@ + " - "@ + message@,
        ClaudeError::General(m) => "General error: "@ + m@,
        ClaudeError::NotImplemented { feature } => "Feature not implemented: "@ + feature@,
    }
}

/// A general error whose message is `prefix` followed by `msg`.
pub open spec fn is_general_with(e: ClaudeError, prefix: Seq<char>, msg: Seq<char>) -> bool {
    e matches ClaudeError::General(m) && m@ == prefix + msg
}

/// A general error whose message is `msg`.
pub open spec fn is_general_msg(e: ClaudeError, msg: Seq<char>) -> bool {
    e matches ClaudeError::General(m) && m@ == msg
}

impl ClaudeError {
    /// A configuration error: a general error whose message starts with "Configuration error: ".
    pub fn config_error(msg: &str) -> (e: ClaudeError)
        ensures
            is_general_with(e, "Configuration error: "@, msg@),
    {
        ClaudeError::General(concat_str("Configuration error: ", msg))
    }

    /// A network error: a general error whose message starts with "Network error: ".
    pub fn network_error(msg: &str) -> (e: ClaudeError)
        ensures
            is_general_with(e, "Network error: "@, msg@),
    {
        ClaudeError::General(concat_str("Network error: ", msg))
    }

    /// A file system error: a general error whose message starts with "File system error: ".
    pub fn fs_error(msg: &str) -> (e: ClaudeError)
        ensures
            is_general_with(e, "File system error: "@, msg@),
    {
        ClaudeError::General(concat_str("File system error: ", msg))
    }

    /// An MCP server error carrying `msg`.
    pub fn mcp_error(msg: &str) -> (e: ClaudeError)
        ensures
            e matches ClaudeError::McpServer { message } && message@ == msg@,
    {
        ClaudeError::McpServer { message: String::from_str(msg) }
    }

    /// A permission error for `operation`.
    pub fn permission_error(operation: &str) -> (e: ClaudeError)
        ensures
            e matches ClaudeError::Permission { operation: o } && o@ == operation@,
    {
        ClaudeError::Permission { operation: String::from_str(operation) }
    }

    /// A validation error on `field` with `message`.
    pub fn validation_error(field: &str, message: &str) -> (e: ClaudeError)
        ensures
            e matches ClaudeError::Validation { field: f, message: m } && f@ == field@ && m@ == message@,
    {
        ClaudeError::Validation { field: String::from_str(field), message: String::from_str(message) }
    }

    /// An error for a feature that is not available.
    pub fn not_implemented(feature: &str) -> (e: ClaudeError)
        ensures
            e matches ClaudeError::NotImplemented { feature: f } && f@ == feature@,
    {
        ClaudeError::NotImplemented { feature: String::from_str(feature) }
    }

    /// The human-readable message of the error.
    pub fn to_string(&self) -> (s: String)
        ensures
            s@ == error_message(*self),
    {
        match self {
            ClaudeError::McpServer { message } => concat_str("MCP server error: ", message.as_str()),
            ClaudeError::Permission { operation } => concat_str("Permission denied: ", operation.as_str()),
            ClaudeError::Validation { field, message } => {
                let mut s = concat_str("Validation error: ", field.as_str());
                s.append(" - ");
                s.append(message.as_str());
                s
            },
            ClaudeError::General(m) => concat_str("General error: ", m.as_str()),
            ClaudeError::NotImplemented { feature } => concat_str("Feature not implemented: ", feature.as_str()),
        }
    }
}

} // verus!
