//! What can go wrong while a store is selected, inspected or created.
use vstd::prelude::*;

verus! {

/// The kind of a failure: the condition that went wrong, which a front end
/// turns into a message with the failure's path and cause.
#[derive(Clone, Copy, Debug, PartialEq, Eq, Structural)]
pub enum Problem {
    /// A store name with a byte outside letters, digits, `-` and `_`, or a reserved name.
    InvalidStoreName,
    /// `--store project` outside any Git or jj repository.
    ProjectNeedsRepository,
    /// Neither an override nor a usable `XDG_DATA_HOME` or `HOME`.
    NoDataRoot,
    /// An empty data directory was given.
    EmptyDataDir,
    /// A file could not be read.
    ReadFailed,
    /// The configuration file is not valid.
    ConfigMalformed,
    /// The format marker could not be inspected.
    MarkerUninspectable,
    /// The format marker is not a regular file.
    MarkerNotFile,
    /// The format marker does not hold exactly `1\n`.
    MarkerMalformed,
    /// The store directory could not be created.
    StoreNotCreated,
    /// The format marker could not be created.
    MarkerNotCreated,
    /// The format marker could not be written.
    MarkerNotWritten,
    /// A `.jj` marker that is not a directory.
    JjMarkerNotDir,
    /// A `.jj/repo` pointer file with no path in it.
    JjPointerEmpty,
    /// A `.jj` directory with no `repo` entry.
    JjRepoMissing,
    /// The jj repository path could not be resolved.
    JjUnresolved,
    /// The resolved jj repository is not a directory.
    JjRepoNotDir,
    /// A `.git` marker that is neither a directory nor a file.
    GitMarkerMalformed,
    /// A `.git` file that does not hold `gitdir: PATH`.
    GitFileMalformed,
    /// A Git `commondir` file with no path in it.
    GitCommondirEmpty,
    /// The Git common directory could not be resolved.
    GitUnresolved,
    /// The resolved Git common directory is not a directory.
    GitCommonNotDir,
}

/// A failure: its kind, the path or name it concerns (empty where none), and
/// the message of the underlying I/O error where there is one.
#[derive(Debug)]
pub struct StoreError {
    pub problem: Problem,
    pub path: Vec<u8>,
    pub cause: Option<String>,
}

/// The mathematical value of a `StoreError`.
pub struct Failure {
    pub problem: Problem,
    pub path: Seq<u8>,
    pub cause: Option<Seq<char>>,
}

impl View for StoreError {
    type V = Failure;

    open spec fn view(&self) -> Failure {
        Failure {
            problem: self.problem,
            path: self.path@,
            cause: match self.cause {
                Some(c) => Some(c@),
                None => None,
            },
        }
    }
}

/// A failure with no underlying I/O error.
pub open spec fn failure(problem: Problem, path: Seq<u8>) -> Failure {
    Failure { problem, path, cause: None }
}

/// A failure caused by an I/O error with the message `cause`.
pub open spec fn failure_because(problem: Problem, path: Seq<u8>, cause: Seq<char>) -> Failure {
    Failure { problem, path, cause: Some(cause) }
}

impl StoreError {
    pub fn new(problem: Problem, path: &[u8]) -> (e: StoreError)
        ensures
            e@ == failure(problem, path@),
    {
        StoreError { problem, path: crate::bytes::copy(path), cause: None }
    }

    pub fn because(problem: Problem, path: &[u8], cause: String) -> (e: StoreError)
        ensures
            e@ == failure_because(problem, path@, cause@),
    {
        StoreError { problem, path: crate::bytes::copy(path), cause: Some(cause) }
    }
}

/// The view of a result whose success value is a byte string.
pub open spec fn result_view(r: Result<Vec<u8>, StoreError>) -> Result<Seq<u8>, Failure> {
    match r {
        Ok(v) => Ok(v@),
        Err(e) => Err(e@),
    }
}

} // verus!
