//! The error taxonomy of the dispatcher.
//!
//! Every fallible operation of the library reports one of these variants;
//! the message carries the human-readable context chain.

use vstd::prelude::*;

verus! {

/// One error category per failure mode of the dispatcher.
#[derive(Debug)]
pub enum OzyError {
    /// A required configuration field is missing or has the wrong shape.
    SchemaError(String),
    /// An app or template name is not declared in the configuration.
    NotFoundError(String),
    /// A filesystem operation failed.
    IoError(String),
    /// The cross-process lock file could not be created or acquired.
    LockError(String),
    /// A download failed terminally, after any retries.
    DownloadError(String),
    /// An installer backend failed; wraps the backend's description.
    InstallError(String),
    /// Replacing the current process image failed.
    ExecError(String),
    /// A configuration document is not valid structured data.
    ParseError(String),
}

impl OzyError {
    /// The message carried by the error, whatever its category.
    pub fn message(&self) -> (r: &String)
        ensures
            r@ == self.message_view(),
    {
        match self {
            OzyError::SchemaError(m) => m,
            OzyError::NotFoundError(m) => m,
            OzyError::IoError(m) => m,
            OzyError::LockError(m) => m,
            OzyError::DownloadError(m) => m,
            OzyError::InstallError(m) => m,
            OzyError::ExecError(m) => m,
            OzyError::ParseError(m) => m,
        }
    }

    /// The message as a sequence of characters.
    pub open spec fn message_view(&self) -> Seq<char> {
        match self {
            OzyError::SchemaError(m) => m@,
            OzyError::NotFoundError(m) => m@,
            OzyError::IoError(m) => m@,
            OzyError::LockError(m) => m@,
            OzyError::DownloadError(m) => m@,
            OzyError::ExecError(m) => m@,
            OzyError::InstallError(m) => m@,
            OzyError::ParseError(m) => m@,
        }
    }

    /// A rendered form for display by the surrounding program.
    pub fn render(&self) -> (r: String)
        ensures
            r@ == self.render_prefix() + self.message_view(),
    {
        let mut out = String::new();
        match self {
            OzyError::SchemaError(_) => { out.append("schema error: "); }
            OzyError::NotFoundError(_) => { out.append("not found: "); }
            OzyError::IoError(_) => { out.append("io error: "); }
            OzyError::LockError(_) => { out.append("lock error: "); }
            OzyError::DownloadError(_) => { out.append("download error: "); }
            OzyError::InstallError(_) => { out.append("install error: "); }
            OzyError::ExecError(_) => { out.append("exec error: "); }
            OzyError::ParseError(_) => { out.append("parse error: "); }
        }
        out.append(self.message().as_str());
        out
    }

    /// Two errors of the same category.
    pub open spec fn same_kind(&self, other: &OzyError) -> bool {
        match (self, other) {
            (OzyError::SchemaError(_), OzyError::SchemaError(_)) => true,
            (OzyError::NotFoundError(_), OzyError::NotFoundError(_)) => true,
            (OzyError::IoError(_), OzyError::IoError(_)) => true,
            (OzyError::LockError(_), OzyError::LockError(_)) => true,
            (OzyError::DownloadError(_), OzyError::DownloadError(_)) => true,
            (OzyError::InstallError(_), OzyError::InstallError(_)) => true,
            (OzyError::ExecError(_), OzyError::ExecError(_)) => true,
            (OzyError::ParseError(_), OzyError::ParseError(_)) => true,
            _ => false,
        }
    }

    /// The same error with an operation context put in front of its
    /// message, so the final message forms a causal chain.
    pub fn with_context(self, context: &str) -> (r: OzyError)
        ensures
            r.same_kind(&self),
            r.message_view() == context@ + ": "@ + self.message_view(),
    {
        let message = crate::strutil::concat3(context, ": ", self.message().as_str());
        match self {
            OzyError::SchemaError(_) => OzyError::SchemaError(message),
            OzyError::NotFoundError(_) => OzyError::NotFoundError(message),
            OzyError::IoError(_) => OzyError::IoError(message),
            OzyError::LockError(_) => OzyError::LockError(message),
            OzyError::DownloadError(_) => OzyError::DownloadError(message),
            OzyError::InstallError(_) => OzyError::InstallError(message),
            OzyError::ExecError(_) => OzyError::ExecError(message),
            OzyError::ParseError(_) => OzyError::ParseError(message),
        }
    }

    /// The category label that `render` puts before the message.
    pub open spec fn render_prefix(&self) -> Seq<char> {
        match self {
            OzyError::SchemaError(_) => "schema error: "@,
            OzyError::NotFoundError(_) => "not found: "@,
            OzyError::IoError(_) => "io error: "@,
            OzyError::LockError(_) => "lock error: "@,
            OzyError::DownloadError(_) => "download error: "@,
            OzyError::InstallError(_) => "install error: "@,
            OzyError::ExecError(_) => "exec error: "@,
            OzyError::ParseError(_) => "parse error: "@,
        }
    }
}

} // verus!
