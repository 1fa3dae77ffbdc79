//! The ways in which a run can fail.

use vstd::prelude::*;
use vstd::string::*;

verus! {

/// Why a run ended without installing every dependency.
#[derive(Clone, Debug, PartialEq, Eq)]
pub enum RunError {
    /// No file at the path of the manifest.
    ManifestNotFound { path: String },
    /// The file at the path is not a well-formed manifest.
    ManifestParseError { path: String },
    /// Neither way of installing the package succeeded.
    InstallFailure { name: String },
}

/// What a [`RunError`] holds, as mathematical values.
pub enum RunErrorView {
    ManifestNotFound { path: Seq<char> },
    ManifestParseError { path: Seq<char> },
    InstallFailure { name: Seq<char> },
}

impl RunErrorView {
    /// A missing manifest is reported and the run ends quietly. Every other
    /// failure is fatal.
    pub open spec fn is_fatal(self) -> bool {
        !(self is ManifestNotFound)
    }

    /// The line that tells the user what went wrong.
    pub open spec fn message(self) -> Seq<char> {
        match self {
            RunErrorView::ManifestNotFound { path } => "Cargo file at "@ + path + " not found"@,
            RunErrorView::ManifestParseError { path } => "Failed to parse cargo manifest at "@
                + path,
            RunErrorView::InstallFailure { name } => "Failed to install"@,
        }
    }
}

impl View for RunError {
    type V = RunErrorView;

    open spec fn view(&self) -> RunErrorView {
        match self {
            RunError::ManifestNotFound { path } => RunErrorView::ManifestNotFound { path: path@ },
            RunError::ManifestParseError { path } => RunErrorView::ManifestParseError {
                path: path@,
            },
            RunError::InstallFailure { name } => RunErrorView::InstallFailure { name: name@ },
        }
    }
}

impl RunError {
    /// Whether the failure must end the process abruptly.
    pub fn is_fatal(&self) -> (fatal: bool)
        ensures
            fatal == self@.is_fatal(),
    {
        match self {
            RunError::ManifestNotFound { .. } => false,
            RunError::ManifestParseError { .. } => true,
            RunError::InstallFailure { .. } => true,
        }
    }

    /// The line that tells the user what went wrong.
    pub fn message(&self) -> (message: String)
        ensures
            message@ == self@.message(),
    {
        match self {
            RunError::ManifestNotFound { path } => {
                let mut message = "Cargo file at ".to_owned();
                message.append(path.as_str());
                message.append(" not found");
                message
            },
            RunError::ManifestParseError { path } => {
                let mut message = "Failed to parse cargo manifest at ".to_owned();
                message.append(path.as_str());
                message
            },
            RunError::InstallFailure { .. } => "Failed to install".to_owned(),
        }
    }
}

} // verus!
