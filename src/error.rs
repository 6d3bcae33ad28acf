//! Errors of the scaffolding engine.
use vstd::prelude::*;

verus! {

/// What can go wrong while creating or destroying a Rext application. Where the
/// failure comes from the file system, the variant carries the offending path and
/// the system's message.
#[derive(Debug, Clone, PartialEq, Eq)]
pub enum RextCoreError {
    /// The server could not start.
    ServerStart(String),
    /// A directory could not be created.
    DirectoryCreation(String),
    /// A file could not be written.
    FileWrite(String),
    /// The target directory already holds a Rext application.
    AppAlreadyExists,
    /// The current directory does not exist or cannot be read.
    CurrentDir(String),
    /// A directory could not be listed.
    DirectoryRead(String),
    /// A file could not be removed.
    FileRemoval(String),
    /// A directory could not be removed.
    DirectoryRemoval(String),
    /// A directory does not hold exactly what generation put there.
    SafetyCheck(String),
    /// The entity generator could not be run or failed.
    SeaOrmCliGenerateEntities(String),
}

/// The one-line description of an error: a fixed heading, followed by the
/// detail that the error carries, if any.
pub open spec fn error_text(e: RextCoreError) -> Seq<char> {
    match e {
        RextCoreError::ServerStart(d) => "Server failed to start: "@ + d@,
        RextCoreError::DirectoryCreation(d) => "Failed to create directory: "@ + d@,
        RextCoreError::FileWrite(d) => "Failed to write file: "@ + d@,
        RextCoreError::AppAlreadyExists => "Rext app already exists"@,
        RextCoreError::CurrentDir(d) => "Failed to get current directory, either does not exist or permission denied: "@
            + d@,
        RextCoreError::DirectoryRead(d) => "Failed to read directory: "@ + d@,
        RextCoreError::FileRemoval(d) => "Failed to remove file: "@ + d@,
        RextCoreError::DirectoryRemoval(d) => "Failed to remove directory: "@ + d@,
        RextCoreError::SafetyCheck(d) => "Safety check failed: "@ + d@,
        RextCoreError::SeaOrmCliGenerateEntities(d) => "Failed to execute sea-orm-cli generate entities command: "@
            + d@,
    }
}

impl RextCoreError {
    /// A one-line description of the error.
    pub fn message(&self) -> (r: String)
        ensures
            r@ == error_text(*self),
    {
        let (head, detail) = match self {
            RextCoreError::ServerStart(d) => ("Server failed to start: ", Some(d)),
            RextCoreError::DirectoryCreation(d) => ("Failed to create directory: ", Some(d)),
            RextCoreError::FileWrite(d) => ("Failed to write file: ", Some(d)),
            RextCoreError::AppAlreadyExists => ("Rext app already exists", None),
            RextCoreError::CurrentDir(d) => (
                "Failed to get current directory, either does not exist or permission denied: ",
                Some(d),
            ),
            RextCoreError::DirectoryRead(d) => ("Failed to read directory: ", Some(d)),
            RextCoreError::FileRemoval(d) => ("Failed to remove file: ", Some(d)),
            RextCoreError::DirectoryRemoval(d) => ("Failed to remove directory: ", Some(d)),
            RextCoreError::SafetyCheck(d) => ("Safety check failed: ", Some(d)),
            RextCoreError::SeaOrmCliGenerateEntities(d) => (
                "Failed to execute sea-orm-cli generate entities command: ",
                Some(d),
            ),
        };
        let mut r = crate::text::owned(head);
        if let Some(d) = detail {
            crate::text::push_str(&mut r, d.as_str());
        } else {
            assert(r@ + Seq::<char>::empty() =~= r@);
        }
        r
    }
}

} // verus!
