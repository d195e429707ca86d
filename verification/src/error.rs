use vstd::prelude::*;
use crate::git::store::git_error_text;
use crate::text::{join2, join3, owned};

verus! {

/// `git2::Error`: a failure of the store, carried as an opaque value.
#[verifier::external_type_specification]
#[verifier::external_body]
pub struct ExGitError(git2::Error);

/// `std::io::Error`: a failure of input or output, carried as an opaque value.
#[verifier::external_type_specification]
#[verifier::external_body]
pub struct ExIoError(std::io::Error);

/// `serde_json::Error`: a failure of JSON handling, carried as an opaque value.
#[verifier::external_type_specification]
#[verifier::external_body]
pub struct ExJsonError(serde_json::Error);

/// Every failure the application can surface, grouped by subsystem.
///
/// The repository kinds (`RepositoryNotFound` to `ParseFailed`) belong to the
/// same group as `Git`; the two path kinds belong to the group of `FileSystem`.
#[derive(Debug)]
pub enum TwiggyError {
    Git { message: String, source: git2::Error },
    Io { operation: String, source: std::io::Error },
    Config { message: String },
    Ui { message: String },
    Application { message: String },
    Serialization { operation: String, source: serde_json::Error },
    FileSystem { path: String, source: std::io::Error },
    Network { message: String },
    Validation { field: String, message: String },
    /// No store exists at the path that was given.
    RepositoryNotFound { message: String, source: git2::Error },
    /// Something is at the path, but it cannot be read as a store.
    RepositoryInvalid { message: String, source: git2::Error },
    /// A branch name does not resolve to a local branch reference.
    BranchNotFound { message: String, source: git2::Error },
    /// A commit identity is malformed or does not resolve.
    InvalidIdentity { message: String, source: git2::Error },
    /// The history walker could not be set up or failed while iterating.
    TraversalFailed { message: String, source: git2::Error },
    /// A single commit could not be read.
    ParseFailed { message: String, source: git2::Error },
    /// The path exists but may not be written to.
    PermissionDenied { path: String },
    /// The path is missing or is not a directory.
    PathInaccessible { path: String },
}

pub type Result<T> = std::result::Result<T, TwiggyError>;

/// The subsystem an error belongs to.
#[derive(Debug, Clone, Copy, PartialEq, Eq, Structural)]
pub enum ErrorGroup {
    Git,
    Io,
    Config,
    Ui,
    Application,
    Serialization,
    FileSystem,
    Network,
    Validation,
}

impl TwiggyError {
    /// The group of this error.
    pub open spec fn group(&self) -> ErrorGroup {
        match self {
            TwiggyError::Git { .. } => ErrorGroup::Git,
            TwiggyError::RepositoryNotFound { .. } => ErrorGroup::Git,
            TwiggyError::RepositoryInvalid { .. } => ErrorGroup::Git,
            TwiggyError::BranchNotFound { .. } => ErrorGroup::Git,
            TwiggyError::InvalidIdentity { .. } => ErrorGroup::Git,
            TwiggyError::TraversalFailed { .. } => ErrorGroup::Git,
            TwiggyError::ParseFailed { .. } => ErrorGroup::Git,
            TwiggyError::Io { .. } => ErrorGroup::Io,
            TwiggyError::Config { .. } => ErrorGroup::Config,
            TwiggyError::Ui { .. } => ErrorGroup::Ui,
            TwiggyError::Application { .. } => ErrorGroup::Application,
            TwiggyError::Serialization { .. } => ErrorGroup::Serialization,
            TwiggyError::FileSystem { .. } => ErrorGroup::FileSystem,
            TwiggyError::PermissionDenied { .. } => ErrorGroup::FileSystem,
            TwiggyError::PathInaccessible { .. } => ErrorGroup::FileSystem,
            TwiggyError::Network { .. } => ErrorGroup::Network,
            TwiggyError::Validation { .. } => ErrorGroup::Validation,
        }
    }

    /// The text an error carries: its message, operation or path.
    pub open spec fn detail(&self) -> Seq<char> {
        match self {
            TwiggyError::Git { message, .. } => message@,
            TwiggyError::RepositoryNotFound { message, .. } => message@,
            TwiggyError::RepositoryInvalid { message, .. } => message@,
            TwiggyError::BranchNotFound { message, .. } => message@,
            TwiggyError::InvalidIdentity { message, .. } => message@,
            TwiggyError::TraversalFailed { message, .. } => message@,
            TwiggyError::ParseFailed { message, .. } => message@,
            TwiggyError::Io { operation, .. } => operation@,
            TwiggyError::Config { message } => message@,
            TwiggyError::Ui { message } => message@,
            TwiggyError::Application { message } => message@,
            TwiggyError::Serialization { operation, .. } => operation@,
            TwiggyError::FileSystem { path, .. } => path@,
            TwiggyError::PermissionDenied { path } => path@,
            TwiggyError::PathInaccessible { path } => path@,
            TwiggyError::Network { message } => message@,
            TwiggyError::Validation { message, .. } => message@,
        }
    }

    /// The stable number of an error's group.
    pub open spec fn spec_error_code(&self) -> u32 {
        match self.group() {
            ErrorGroup::Git => 1000,
            ErrorGroup::Io => 2000,
            ErrorGroup::Config => 3000,
            ErrorGroup::Ui => 4000,
            ErrorGroup::Application => 5000,
            ErrorGroup::Serialization => 6000,
            ErrorGroup::FileSystem => 7000,
            ErrorGroup::Network => 8000,
            ErrorGroup::Validation => 9000,
        }
    }

    /// Whether the application can carry on after an error of this group.
    pub open spec fn spec_is_recoverable(&self) -> bool {
        self.group() != ErrorGroup::Git && self.group() != ErrorGroup::Application
    }

    /// The plain-language message shown for this error.
    pub open spec fn spec_user_message(&self) -> Seq<char> {
        match self.group() {
            ErrorGroup::Git => "Git operation failed: "@ + self.detail(),
            ErrorGroup::Io => "File operation '"@ + self.detail()
                + "' failed. Please check file permissions."@,
            ErrorGroup::Config => "Configuration issue: "@ + self.detail()
                + ". Using default settings."@,
            ErrorGroup::Ui => "Interface error: "@ + self.detail(),
            ErrorGroup::Application => "Application error: "@ + self.detail(),
            ErrorGroup::Serialization => "Data processing error during "@ + self.detail()
                + ". Please try again."@,
            ErrorGroup::FileSystem => "Cannot access file: "@ + self.detail()
                + ". Check if the file exists and you have permission."@,
            ErrorGroup::Network => "Network error: "@ + self.detail()
                + ". Check your internet connection."@,
            ErrorGroup::Validation => match self {
                TwiggyError::Validation { field, message } => "Invalid "@ + field@ + ": "@
                    + message@,
                _ => Seq::empty(),
            },
        }
    }

    /// The remedy suggested for this error.
    pub open spec fn spec_suggested_action(&self) -> Seq<char> {
        match self.group() {
            ErrorGroup::Git => "Check repository status and try again"@,
            ErrorGroup::Io => "Verify file permissions and disk space"@,
            ErrorGroup::Config => "Reset to default configuration"@,
            ErrorGroup::Ui => "Restart the application"@,
            ErrorGroup::Application => "Report this issue to support"@,
            ErrorGroup::Serialization => "Check file format and try again"@,
            ErrorGroup::FileSystem => "Ensure file exists and is accessible"@,
            ErrorGroup::Network => "Check network connection and retry"@,
            ErrorGroup::Validation => "Correct the input and try again"@,
        }
    }

    /// The one-line rendering of this error.
    pub open spec fn spec_to_string(&self) -> Seq<char> {
        match self {
            TwiggyError::Git { message, .. } => "Git error: "@ + message@,
            TwiggyError::RepositoryNotFound { message, .. } => "Repository not found: "@
                + message@,
            TwiggyError::RepositoryInvalid { message, .. } => "Repository invalid: "@ + message@,
            TwiggyError::BranchNotFound { message, .. } => "Branch not found: "@ + message@,
            TwiggyError::InvalidIdentity { message, .. } => "Invalid commit identity: "@
                + message@,
            TwiggyError::TraversalFailed { message, .. } => "History traversal failed: "@
                + message@,
            TwiggyError::ParseFailed { message, .. } => "Commit unreadable: "@ + message@,
            TwiggyError::Io { operation, .. } => "IO error during "@ + operation@,
            TwiggyError::Config { message } => "Configuration error: "@ + message@,
            TwiggyError::Ui { message } => "UI error: "@ + message@,
            TwiggyError::Application { message } => "Application error: "@ + message@,
            TwiggyError::Serialization { operation, .. } => "Serialization error: "@
                + operation@,
            TwiggyError::FileSystem { path, .. } => "File system error: "@ + path@,
            TwiggyError::PermissionDenied { path } => "Permission denied: "@ + path@,
            TwiggyError::PathInaccessible { path } => "Path inaccessible: "@ + path@,
            TwiggyError::Network { message } => "Network error: "@ + message@,
            TwiggyError::Validation { field, message } => "Validation error: "@ + field@
                + " - "@ + message@,
        }
    }

    /// Names the group of this error.
    pub fn error_group(&self) -> (g: ErrorGroup)
        ensures
            g == self.group(),
    {
        match self {
            TwiggyError::Git { .. } => ErrorGroup::Git,
            TwiggyError::RepositoryNotFound { .. } => ErrorGroup::Git,
            TwiggyError::RepositoryInvalid { .. } => ErrorGroup::Git,
            TwiggyError::BranchNotFound { .. } => ErrorGroup::Git,
            TwiggyError::InvalidIdentity { .. } => ErrorGroup::Git,
            TwiggyError::TraversalFailed { .. } => ErrorGroup::Git,
            TwiggyError::ParseFailed { .. } => ErrorGroup::Git,
            TwiggyError::Io { .. } => ErrorGroup::Io,
            TwiggyError::Config { .. } => ErrorGroup::Config,
            TwiggyError::Ui { .. } => ErrorGroup::Ui,
            TwiggyError::Application { .. } => ErrorGroup::Application,
            TwiggyError::Serialization { .. } => ErrorGroup::Serialization,
            TwiggyError::FileSystem { .. } => ErrorGroup::FileSystem,
            TwiggyError::PermissionDenied { .. } => ErrorGroup::FileSystem,
            TwiggyError::PathInaccessible { .. } => ErrorGroup::FileSystem,
            TwiggyError::Network { .. } => ErrorGroup::Network,
            TwiggyError::Validation { .. } => ErrorGroup::Validation,
        }
    }

    fn detail_text(&self) -> (r: &str)
        ensures
            r@ == self.detail(),
    {
        match self {
            TwiggyError::Git { message, .. } => message.as_str(),
            TwiggyError::RepositoryNotFound { message, .. } => message.as_str(),
            TwiggyError::RepositoryInvalid { message, .. } => message.as_str(),
            TwiggyError::BranchNotFound { message, .. } => message.as_str(),
            TwiggyError::InvalidIdentity { message, .. } => message.as_str(),
            TwiggyError::TraversalFailed { message, .. } => message.as_str(),
            TwiggyError::ParseFailed { message, .. } => message.as_str(),
            TwiggyError::Io { operation, .. } => operation.as_str(),
            TwiggyError::Config { message } => message.as_str(),
            TwiggyError::Ui { message } => message.as_str(),
            TwiggyError::Application { message } => message.as_str(),
            TwiggyError::Serialization { operation, .. } => operation.as_str(),
            TwiggyError::FileSystem { path, .. } => path.as_str(),
            TwiggyError::PermissionDenied { path } => path.as_str(),
            TwiggyError::PathInaccessible { path } => path.as_str(),
            TwiggyError::Network { message } => message.as_str(),
            TwiggyError::Validation { message, .. } => message.as_str(),
        }
    }

    /// The stable number by which errors are grouped.
    pub fn error_code(&self) -> (code: u32)
        ensures
            code == self.spec_error_code(),
    {
        match self.error_group() {
            ErrorGroup::Git => 1000,
            ErrorGroup::Io => 2000,
            ErrorGroup::Config => 3000,
            ErrorGroup::Ui => 4000,
            ErrorGroup::Application => 5000,
            ErrorGroup::Serialization => 6000,
            ErrorGroup::FileSystem => 7000,
            ErrorGroup::Network => 8000,
            ErrorGroup::Validation => 9000,
        }
    }

    /// The plain-language message for the user.
    pub fn user_message(&self) -> (r: String)
        ensures
            r@ == self.spec_user_message(),
    {
        let detail = self.detail_text();
        match self.error_group() {
            ErrorGroup::Git => join2("Git operation failed: ", detail),
            ErrorGroup::Io => join3(
                "File operation '",
                detail,
                "' failed. Please check file permissions.",
            ),
            ErrorGroup::Config => join3("Configuration issue: ", detail, ". Using default settings."),
            ErrorGroup::Ui => join2("Interface error: ", detail),
            ErrorGroup::Application => join2("Application error: ", detail),
            ErrorGroup::Serialization => join3(
                "Data processing error during ",
                detail,
                ". Please try again.",
            ),
            ErrorGroup::FileSystem => join3(
                "Cannot access file: ",
                detail,
                ". Check if the file exists and you have permission.",
            ),
            ErrorGroup::Network => join3(
                "Network error: ",
                detail,
                ". Check your internet connection.",
            ),
            ErrorGroup::Validation => match self {
                TwiggyError::Validation { field, message } => {
                    let head = join3("Invalid ", field.as_str(), ": ");
                    join2(head.as_str(), message.as_str())
                },
                _ => String::new(),
            },
        }
    }

    /// Whether the application can carry on after this error.
    pub fn is_recoverable(&self) -> (r: bool)
        ensures
            r == self.spec_is_recoverable(),
    {
        match self.error_group() {
            ErrorGroup::Git => false,
            ErrorGroup::Application => false,
            _ => true,
        }
    }

    /// The remedy to suggest; every group has one.
    pub fn suggested_action(&self) -> (r: Option<String>)
        ensures
            r matches Some(text) && text@ == self.spec_suggested_action(),
    {
        let text = match self.error_group() {
            ErrorGroup::Git => "Check repository status and try again",
            ErrorGroup::Io => "Verify file permissions and disk space",
            ErrorGroup::Config => "Reset to default configuration",
            ErrorGroup::Ui => "Restart the application",
            ErrorGroup::Application => "Report this issue to support",
            ErrorGroup::Serialization => "Check file format and try again",
            ErrorGroup::FileSystem => "Ensure file exists and is accessible",
            ErrorGroup::Network => "Check network connection and retry",
            ErrorGroup::Validation => "Correct the input and try again",
        };
        Some(owned(text))
    }

    /// Renders this error on one line.
    pub fn to_string(&self) -> (r: String)
        ensures
            r@ == self.spec_to_string(),
    {
        match self {
            TwiggyError::Git { message, .. } => join2("Git error: ", message.as_str()),
            TwiggyError::RepositoryNotFound { message, .. } => join2(
                "Repository not found: ",
                message.as_str(),
            ),
            TwiggyError::RepositoryInvalid { message, .. } => join2(
                "Repository invalid: ",
                message.as_str(),
            ),
            TwiggyError::BranchNotFound { message, .. } => join2(
                "Branch not found: ",
                message.as_str(),
            ),
            TwiggyError::InvalidIdentity { message, .. } => join2(
                "Invalid commit identity: ",
                message.as_str(),
            ),
            TwiggyError::TraversalFailed { message, .. } => join2(
                "History traversal failed: ",
                message.as_str(),
            ),
            TwiggyError::ParseFailed { message, .. } => join2(
                "Commit unreadable: ",
                message.as_str(),
            ),
            TwiggyError::Io { operation, .. } => join2("IO error during ", operation.as_str()),
            TwiggyError::Config { message } => join2("Configuration error: ", message.as_str()),
            TwiggyError::Ui { message } => join2("UI error: ", message.as_str()),
            TwiggyError::Application { message } => join2(
                "Application error: ",
                message.as_str(),
            ),
            TwiggyError::Serialization { operation, .. } => join2(
                "Serialization error: ",
                operation.as_str(),
            ),
            TwiggyError::FileSystem { path, .. } => join2("File system error: ", path.as_str()),
            TwiggyError::PermissionDenied { path } => join2("Permission denied: ", path.as_str()),
            TwiggyError::PathInaccessible { path } => join2("Path inaccessible: ", path.as_str()),
            TwiggyError::Network { message } => join2("Network error: ", message.as_str()),
            TwiggyError::Validation { field, message } => {
                let head = join3("Validation error: ", field.as_str(), " - ");
                join2(head.as_str(), message.as_str())
            },
        }
    }
}

impl TwiggyError {
    /// The error for a failure of the store: a `Git` error that carries the
    /// failure and its message.
    pub fn from_git(error: git2::Error) -> (r: TwiggyError)
        ensures
            r matches TwiggyError::Git { source, .. } && source == error,
    {
        TwiggyError::Git { message: git_error_text(&error), source: error }
    }

    /// The error for a failure of input or output: an `Io` error of the
    /// operation "unknown".
    pub fn from_io(error: std::io::Error) -> (r: TwiggyError)
        ensures
            r matches TwiggyError::Io { operation, source } && operation@ == "unknown"@ && source
                == error,
    {
        TwiggyError::Io { operation: owned("unknown"), source: error }
    }

    /// The error for a failure of JSON handling: a `Serialization` error of the
    /// operation "JSON processing".
    pub fn from_json(error: serde_json::Error) -> (r: TwiggyError)
        ensures
            r matches TwiggyError::Serialization { operation, source } && operation@
                == "JSON processing"@ && source == error,
    {
        TwiggyError::Serialization { operation: owned("JSON processing"), source: error }
    }
}

/// The conversion that `?` uses for a failure of the store; `from_git` states
/// what it gives.
impl From<git2::Error> for TwiggyError {
    fn from(error: git2::Error) -> (r: TwiggyError) {
        TwiggyError::from_git(error)
    }
}

impl vstd::std_specs::convert::FromSpecImpl<git2::Error> for TwiggyError {
    open spec fn obeys_from_spec() -> bool {
        false
    }

    open spec fn from_spec(error: git2::Error) -> TwiggyError {
        TwiggyError::Git { message: arbitrary(), source: error }
    }
}

/// The conversion that `?` uses for a failure of input or output; `from_io`
/// states what it gives.
impl From<std::io::Error> for TwiggyError {
    fn from(error: std::io::Error) -> (r: TwiggyError) {
        TwiggyError::from_io(error)
    }
}

impl vstd::std_specs::convert::FromSpecImpl<std::io::Error> for TwiggyError {
    open spec fn obeys_from_spec() -> bool {
        false
    }

    open spec fn from_spec(error: std::io::Error) -> TwiggyError {
        TwiggyError::Io { operation: arbitrary(), source: error }
    }
}

/// The conversion that `?` uses for a failure of JSON handling; `from_json`
/// states what it gives.
impl From<serde_json::Error> for TwiggyError {
    fn from(error: serde_json::Error) -> (r: TwiggyError) {
        TwiggyError::from_json(error)
    }
}

impl vstd::std_specs::convert::FromSpecImpl<serde_json::Error> for TwiggyError {
    open spec fn obeys_from_spec() -> bool {
        false
    }

    open spec fn from_spec(error: serde_json::Error) -> TwiggyError {
        TwiggyError::Serialization { operation: arbitrary(), source: error }
    }
}

} // verus!
