//! Why a copy was given up.

use vstd::prelude::*;
use vstd::string::*;

verus! {

/// The operations on files that a copy consists of.
#[derive(Debug, Clone, Copy, PartialEq, Eq, Structural)]
pub enum FileOperation {
    /// Creating the directories above the destination file.
    CreateDirectories,
    /// Reading the permission bits of the source file.
    ReadPermissions,
    /// Reading the source file as text.
    ReadContent,
    /// Writing the destination file.
    WriteContent,
    /// Setting the permission bits of the destination file.
    SetPermissions,
}

/// Why a copy was given up.
#[derive(Debug, Clone, PartialEq, Eq)]
pub enum CopyError {
    /// The path was required to be an existing directory and is none.
    NotADirectory(String),
    /// The path of an entry does not lie under the source directory.
    OutsideSource(String),
    /// The operation failed on the path.
    Io(FileOperation, String),
    /// The pattern that finds the tokens was refused.
    Pattern,
}

/// A copy error as a mathematical value.
pub enum CopyErrorModel {
    NotADirectory(Seq<char>),
    OutsideSource(Seq<char>),
    Io(FileOperation, Seq<char>),
    Pattern,
}

impl View for CopyError {
    type V = CopyErrorModel;

    open spec fn view(&self) -> CopyErrorModel {
        match self {
            CopyError::NotADirectory(path) => CopyErrorModel::NotADirectory(path@),
            CopyError::OutsideSource(path) => CopyErrorModel::OutsideSource(path@),
            CopyError::Io(operation, path) => CopyErrorModel::Io(*operation, path@),
            CopyError::Pattern => CopyErrorModel::Pattern,
        }
    }
}

/// What went wrong, in words, for a failed operation.
pub open spec fn operation_text(operation: FileOperation) -> Seq<char> {
    match operation {
        FileOperation::CreateDirectories => "Failed to create target directory"@,
        FileOperation::ReadPermissions => "Failed to read permissions"@,
        FileOperation::ReadContent => "Failed to read file content"@,
        FileOperation::WriteContent => "Failed to write file content"@,
        FileOperation::SetPermissions => "Failed to set permissions"@,
    }
}

/// The report of a copy error. Every report but that of a refused pattern names the path.
pub open spec fn error_text(error: CopyErrorModel) -> Seq<char> {
    match error {
        CopyErrorModel::NotADirectory(path) => "Not a directory: '"@ + path + "'"@,
        CopyErrorModel::OutsideSource(path) => "Failed to strip prefix: '"@ + path + "'"@,
        CopyErrorModel::Io(operation, path) => operation_text(operation) + ": '"@ + path + "'"@,
        CopyErrorModel::Pattern => "Failed to prepare the token pattern"@,
    }
}

/// What went wrong, in words, for a failed operation.
fn operation_words(operation: FileOperation) -> (r: &'static str)
    ensures
        r@ == operation_text(operation),
{
    match operation {
        FileOperation::CreateDirectories => "Failed to create target directory",
        FileOperation::ReadPermissions => "Failed to read permissions",
        FileOperation::ReadContent => "Failed to read file content",
        FileOperation::WriteContent => "Failed to write file content",
        FileOperation::SetPermissions => "Failed to set permissions",
    }
}

/// `before`, then `path`, then a closing quote.
fn quoted(before: &str, path: &str) -> (r: String)
    ensures
        r@ == before@ + path@ + "'"@,
{
    let mut r = String::from_str(before);
    r.append(path);
    r.append("'");
    r
}

impl CopyError {
    /// The report of this error.
    pub fn message(&self) -> (r: String)
        ensures
            r@ == error_text(self@),
    {
        match self {
            CopyError::NotADirectory(path) => quoted("Not a directory: '", path.as_str()),
            CopyError::OutsideSource(path) => quoted("Failed to strip prefix: '", path.as_str()),
            CopyError::Io(operation, path) => {
                let mut r = String::from_str(operation_words(*operation));
                r.append(": '");
                r.append(path.as_str());
                r.append("'");
                r
            },
            CopyError::Pattern => String::from_str("Failed to prepare the token pattern"),
        }
    }
}

} // verus!
