//! Finding the repository that a directory belongs to, and its identity.
//!
//! From the working directory upward, the first directory that holds a `.jj`
//! or a `.git` entry decides (`.jj` first). The identity is the namespace
//! (`jj:` or `git:`) followed by the canonical path of the repository's shared
//! metadata directory as it is shown (`text::shown`: invalid UTF-8 replaced by
//! U+FFFD, as `Path::display` shows a path), so that workspaces and worktrees
//! of one repository share it.
//!
//! The search touches the file system at every step, so it is written as a
//! machine: `Discovery::probe` names the question to ask of the file system,
//! `Discovery::step` takes the answer and yields the next machine or the
//! result. `FsModel` is a file system as far as these questions see it, and
//! `discover_from` says what the search finds in it.
use vstd::prelude::*;
use vstd::utf8::encode_utf8;
use crate::bytes::lit;
use crate::error::{Failure, Problem, StoreError, failure, failure_because};
use crate::path::{join, parent, path_join, path_parent};
use crate::text::{lossy_text, shown, starts_with, trim, strip_text_prefix, trim_text};
use vstd::string::StringSliceAdditionalSpecFns;
use vstd::utf8::valid_utf8;

verus! {

/// The answers that a file system gives to the questions of the search.
pub struct FsModel {
    /// `Path::exists`: the path names something, following symbolic links.
    pub exists: spec_fn(Seq<u8>) -> bool,
    /// `Path::is_dir`.
    pub is_dir: spec_fn(Seq<u8>) -> bool,
    /// `Path::is_file`.
    pub is_file: spec_fn(Seq<u8>) -> bool,
    /// `fs::read_to_string`: the text, or the message of the error.
    pub read: spec_fn(Seq<u8>) -> Result<Seq<char>, Seq<char>>,
    /// `Path::canonicalize`: the canonical path, or the message of the error.
    pub canonicalize: spec_fn(Seq<u8>) -> Result<Seq<u8>, Seq<char>>,
}

/// The version control system whose metadata names a project.
#[derive(Clone, Copy, Debug, PartialEq, Eq, Structural)]
pub enum Vcs {
    Jj,
    Git,
}

/// The namespace that starts an identity.
pub open spec fn label(vcs: Vcs) -> Seq<u8> {
    match vcs {
        Vcs::Jj => lit("jj:"@),
        Vcs::Git => lit("git:"@),
    }
}

pub open spec fn unresolved(vcs: Vcs) -> Problem {
    match vcs {
        Vcs::Jj => Problem::JjUnresolved,
        Vcs::Git => Problem::GitUnresolved,
    }
}

pub open spec fn not_dir(vcs: Vcs) -> Problem {
    match vcs {
        Vcs::Jj => Problem::JjRepoNotDir,
        Vcs::Git => Problem::GitCommonNotDir,
    }
}

pub open spec fn jj_marker_of(dir: Seq<u8>) -> Seq<u8> {
    join(dir, lit(".jj"@))
}

pub open spec fn git_marker_of(dir: Seq<u8>) -> Seq<u8> {
    join(dir, lit(".git"@))
}

pub open spec fn jj_repo_of(marker: Seq<u8>) -> Seq<u8> {
    join(marker, lit("repo"@))
}

pub open spec fn commondir_of(admin: Seq<u8>) -> Seq<u8> {
    join(admin, lit("commondir"@))
}

/// The identity of a canonical metadata path, which must be a directory.
pub open spec fn checked(fs: FsModel, vcs: Vcs, canonical: Seq<u8>) -> Result<Seq<u8>, Failure> {
    if (fs.is_dir)(canonical) {
        Ok(label(vcs) + shown(canonical))
    } else {
        Err(failure(not_dir(vcs), canonical))
    }
}

/// The identity of a metadata path, once made canonical.
pub open spec fn resolved(fs: FsModel, vcs: Vcs, target: Seq<u8>) -> Result<Seq<u8>, Failure> {
    match (fs.canonicalize)(target) {
        Ok(canonical) => checked(fs, vcs, canonical),
        Err(cause) => Err(failure_because(unresolved(vcs), target, cause)),
    }
}

/// A jj workspace whose `.jj/repo` is a file holding the path of the
/// repository, relative to `.jj` or absolute.
pub open spec fn jj_pointer(fs: FsModel, marker: Seq<u8>) -> Result<Seq<u8>, Failure> {
    let repo = jj_repo_of(marker);
    match (fs.read)(repo) {
        Err(cause) => Err(failure_because(Problem::ReadFailed, repo, cause)),
        Ok(text) => if trim(text).len() == 0 {
            Err(failure(Problem::JjPointerEmpty, repo))
        } else {
            resolved(fs, Vcs::Jj, join(marker, encode_utf8(trim(text))))
        },
    }
}

/// A `.jj` directory whose `repo` entry is not a directory.
pub open spec fn jj_repo_not_dir(fs: FsModel, marker: Seq<u8>) -> Result<Seq<u8>, Failure> {
    if (fs.is_file)(jj_repo_of(marker)) {
        jj_pointer(fs, marker)
    } else {
        Err(failure(Problem::JjRepoMissing, jj_repo_of(marker)))
    }
}

/// A `.jj` marker that is a directory.
pub open spec fn jj_marker_dir(fs: FsModel, marker: Seq<u8>) -> Result<Seq<u8>, Failure> {
    if (fs.is_dir)(jj_repo_of(marker)) {
        resolved(fs, Vcs::Jj, jj_repo_of(marker))
    } else {
        jj_repo_not_dir(fs, marker)
    }
}

/// The identity that a `.jj` marker gives.
pub open spec fn jj_identity(fs: FsModel, marker: Seq<u8>) -> Result<Seq<u8>, Failure> {
    if (fs.is_dir)(marker) {
        jj_marker_dir(fs, marker)
    } else {
        Err(failure(Problem::JjMarkerNotDir, marker))
    }
}

/// A Git administrative directory whose `commondir` file names the shared one.
pub open spec fn git_read_common(fs: FsModel, admin: Seq<u8>) -> Result<Seq<u8>, Failure> {
    let file = commondir_of(admin);
    match (fs.read)(file) {
        Err(cause) => Err(failure_because(Problem::ReadFailed, file, cause)),
        Ok(text) => if trim(text).len() == 0 {
            Err(failure(Problem::GitCommondirEmpty, file))
        } else {
            resolved(fs, Vcs::Git, join(admin, encode_utf8(trim(text))))
        },
    }
}

/// The identity that a Git administrative directory gives.
pub open spec fn git_common(fs: FsModel, admin: Seq<u8>) -> Result<Seq<u8>, Failure> {
    if (fs.exists)(commondir_of(admin)) {
        git_read_common(fs, admin)
    } else {
        resolved(fs, Vcs::Git, admin)
    }
}

/// The path that a `.git` file names: the text after `gitdir:`, trimmed, if
/// that is not empty.
pub open spec fn gitdir_target(text: Seq<char>) -> Option<Seq<char>> {
    if starts_with(text, "gitdir:"@) && trim(text.skip("gitdir:"@.len() as int)).len() > 0 {
        Some(trim(text.skip("gitdir:"@.len() as int)))
    } else {
        None
    }
}

/// A `.git` file: a linked worktree, whose administrative directory it names,
/// relative to the directory that holds the file or absolute.
pub open spec fn git_read_file(fs: FsModel, marker: Seq<u8>) -> Result<Seq<u8>, Failure> {
    match (fs.read)(marker) {
        Err(cause) => Err(failure_because(Problem::ReadFailed, marker, cause)),
        Ok(text) => match gitdir_target(text) {
            None => Err(failure(Problem::GitFileMalformed, Seq::empty())),
            Some(target) => git_common(fs, join(parent(marker).unwrap(), encode_utf8(target))),
        },
    }
}

/// A `.git` marker that is not a directory.
pub open spec fn git_marker_not_dir(fs: FsModel, marker: Seq<u8>) -> Result<Seq<u8>, Failure> {
    if (fs.is_file)(marker) {
        git_read_file(fs, marker)
    } else {
        Err(failure(Problem::GitMarkerMalformed, marker))
    }
}

/// The identity that a `.git` marker gives.
pub open spec fn git_identity(fs: FsModel, marker: Seq<u8>) -> Result<Seq<u8>, Failure> {
    if (fs.is_dir)(marker) {
        git_common(fs, marker)
    } else {
        git_marker_not_dir(fs, marker)
    }
}

/// An identity found, or the failure on the way.
pub open spec fn found(r: Result<Seq<u8>, Failure>) -> Result<Option<Seq<u8>>, Failure> {
    match r {
        Ok(identity) => Ok(Some(identity)),
        Err(e) => Err(e),
    }
}

/// What the search finds from `dir` upward: the identity of the first
/// repository marker, nothing where no ancestor holds one, or the failure
/// that the first marker gives.
pub open spec fn discover_from(fs: FsModel, dir: Seq<u8>) -> Result<Option<Seq<u8>>, Failure>
    decreases dir.len(),
{
    if (fs.exists)(jj_marker_of(dir)) {
        found(jj_identity(fs, jj_marker_of(dir)))
    } else if (fs.exists)(git_marker_of(dir)) {
        found(git_identity(fs, git_marker_of(dir)))
    } else {
        match parent(dir) {
            Some(up) => {
                proof {
                    crate::path::lemma_parent_shorter(dir);
                }
                discover_from(fs, up)
            },
            None => Ok(None),
        }
    }
}

/// The search in `dir` once it is known that `dir` holds no `.jj`.
pub open spec fn scan_git(fs: FsModel, dir: Seq<u8>) -> Result<Option<Seq<u8>>, Failure> {
    if (fs.exists)(git_marker_of(dir)) {
        found(git_identity(fs, git_marker_of(dir)))
    } else {
        match parent(dir) {
            Some(up) => discover_from(fs, up),
            None => Ok(None),
        }
    }
}

/// A question to the file system, by its path.
pub enum Probe {
    Exists(Vec<u8>),
    IsDir(Vec<u8>),
    IsFile(Vec<u8>),
    Read(Vec<u8>),
    Canonicalize(Vec<u8>),
}

/// The mathematical value of a `Probe`.
pub enum ProbeView {
    Exists(Seq<u8>),
    IsDir(Seq<u8>),
    IsFile(Seq<u8>),
    Read(Seq<u8>),
    Canonicalize(Seq<u8>),
}

impl View for Probe {
    type V = ProbeView;

    open spec fn view(&self) -> ProbeView {
        match self {
            Probe::Exists(p) => ProbeView::Exists(p@),
            Probe::IsDir(p) => ProbeView::IsDir(p@),
            Probe::IsFile(p) => ProbeView::IsFile(p@),
            Probe::Read(p) => ProbeView::Read(p@),
            Probe::Canonicalize(p) => ProbeView::Canonicalize(p@),
        }
    }
}

/// The file system's answer to a probe: a yes or no, a text read (or the
/// message of the error), a canonical path (or the message of the error).
pub enum Answer {
    Flag(bool),
    Text(Result<String, String>),
    Resolved(Result<Vec<u8>, String>),
}

/// `answer` is what `fs` answers to `probe`.
pub open spec fn answers(fs: FsModel, probe: ProbeView, answer: Answer) -> bool {
    match (probe, answer) {
        (ProbeView::Exists(p), Answer::Flag(b)) => b == (fs.exists)(p),
        (ProbeView::IsDir(p), Answer::Flag(b)) => b == (fs.is_dir)(p),
        (ProbeView::IsFile(p), Answer::Flag(b)) => b == (fs.is_file)(p),
        (ProbeView::Read(p), Answer::Text(r)) => match r {
            Ok(t) => (fs.read)(p) == Ok::<Seq<char>, Seq<char>>(t@),
            Err(e) => (fs.read)(p) == Err::<Seq<char>, Seq<char>>(e@),
        },
        (ProbeView::Canonicalize(p), Answer::Resolved(r)) => match r {
            Ok(c) => (fs.canonicalize)(p) == Ok::<Seq<u8>, Seq<char>>(c@),
            Err(e) => (fs.canonicalize)(p) == Err::<Seq<u8>, Seq<char>>(e@),
        },
        _ => false,
    }
}

/// Where the search stands.
enum Stage {
    /// Is there a `.jj` in `dir`?
    ScanJj { dir: Vec<u8> },
    /// Is there a `.git` in `dir`?
    ScanGit { dir: Vec<u8> },
    /// Is the `.jj` marker a directory?
    JjMarker { marker: Vec<u8> },
    /// Is `.jj/repo` a directory?
    JjRepoDir { marker: Vec<u8> },
    /// Is `.jj/repo` a file?
    JjRepoFile { marker: Vec<u8> },
    /// What does the `.jj/repo` file say?
    JjPointer { marker: Vec<u8> },
    /// What is the canonical form of the metadata path?
    Resolve { vcs: Vcs, target: Vec<u8> },
    /// Is the canonical metadata path a directory?
    Check { vcs: Vcs, canonical: Vec<u8> },
    /// Is the `.git` marker a directory?
    GitMarkerDir { marker: Vec<u8> },
    /// Is the `.git` marker a file?
    GitMarkerFile { marker: Vec<u8> },
    /// What does the `.git` file say?
    GitFile { marker: Vec<u8> },
    /// Does the administrative directory hold a `commondir` file?
    GitCommonExists { admin: Vec<u8> },
    /// What does the `commondir` file say?
    GitCommon { admin: Vec<u8> },
}

/// The search for the repository of a directory, between two questions.
pub struct Discovery {
    stage: Stage,
}

/// The outcome of a step: the search goes on, or it has its result.
pub enum Progress {
    Next(Discovery),
    Finished(Result<Option<Vec<u8>>, StoreError>),
}

/// The view of a finished search's result.
pub open spec fn finished_view(r: Result<Option<Vec<u8>>, StoreError>) -> Result<Option<Seq<u8>>, Failure> {
    match r {
        Ok(Some(identity)) => Ok(Some(identity@)),
        Ok(None) => Ok(None),
        Err(e) => Err(e@),
    }
}

impl Discovery {
    /// The search's stages keep a `.git` marker path that has a parent.
    #[verifier::type_invariant]
    spec fn well_formed(self) -> bool {
        match self.stage {
            Stage::GitMarkerDir { marker } => marker@.len() >= 2,
            Stage::GitMarkerFile { marker } => marker@.len() >= 2,
            Stage::GitFile { marker } => marker@.len() >= 2,
            _ => true,
        }
    }

    /// What the search still finds, in `fs`, from where it stands.
    pub closed spec fn outcome(self, fs: FsModel) -> Result<Option<Seq<u8>>, Failure> {
        match self.stage {
            Stage::ScanJj { dir } => discover_from(fs, dir@),
            Stage::ScanGit { dir } => scan_git(fs, dir@),
            Stage::JjMarker { marker } => found(jj_identity(fs, marker@)),
            Stage::JjRepoDir { marker } => found(jj_marker_dir(fs, marker@)),
            Stage::JjRepoFile { marker } => found(jj_repo_not_dir(fs, marker@)),
            Stage::JjPointer { marker } => found(jj_pointer(fs, marker@)),
            Stage::Resolve { vcs, target } => found(resolved(fs, vcs, target@)),
            Stage::Check { vcs, canonical } => found(checked(fs, vcs, canonical@)),
            Stage::GitMarkerDir { marker } => found(git_identity(fs, marker@)),
            Stage::GitMarkerFile { marker } => found(git_marker_not_dir(fs, marker@)),
            Stage::GitFile { marker } => found(git_read_file(fs, marker@)),
            Stage::GitCommonExists { admin } => found(git_common(fs, admin@)),
            Stage::GitCommon { admin } => found(git_read_common(fs, admin@)),
        }
    }

    /// The question that the search asks next.
    pub closed spec fn pending(self) -> ProbeView {
        match self.stage {
            Stage::ScanJj { dir } => ProbeView::Exists(jj_marker_of(dir@)),
            Stage::ScanGit { dir } => ProbeView::Exists(git_marker_of(dir@)),
            Stage::JjMarker { marker } => ProbeView::IsDir(marker@),
            Stage::JjRepoDir { marker } => ProbeView::IsDir(jj_repo_of(marker@)),
            Stage::JjRepoFile { marker } => ProbeView::IsFile(jj_repo_of(marker@)),
            Stage::JjPointer { marker } => ProbeView::Read(jj_repo_of(marker@)),
            Stage::Resolve { vcs, target } => ProbeView::Canonicalize(target@),
            Stage::Check { vcs, canonical } => ProbeView::IsDir(canonical@),
            Stage::GitMarkerDir { marker } => ProbeView::IsDir(marker@),
            Stage::GitMarkerFile { marker } => ProbeView::IsFile(marker@),
            Stage::GitFile { marker } => ProbeView::Read(marker@),
            Stage::GitCommonExists { admin } => ProbeView::Exists(commondir_of(admin@)),
            Stage::GitCommon { admin } => ProbeView::Read(commondir_of(admin@)),
        }
    }

    /// A bound on the number of questions still to ask.
    pub closed spec fn remaining(self) -> nat {
        match self.stage {
            Stage::ScanJj { dir } => 20 * dir@.len() + 15,
            Stage::ScanGit { dir } => 20 * dir@.len() + 14,
            Stage::GitMarkerDir { .. } => 12,
            Stage::GitMarkerFile { .. } => 11,
            Stage::GitFile { .. } => 10,
            Stage::GitCommonExists { .. } => 9,
            Stage::GitCommon { .. } => 8,
            Stage::JjMarker { .. } => 7,
            Stage::JjRepoDir { .. } => 6,
            Stage::JjRepoFile { .. } => 5,
            Stage::JjPointer { .. } => 4,
            Stage::Resolve { .. } => 3,
            Stage::Check { .. } => 2,
        }
    }

    /// The search for the repository of `cwd`, before its first question.
    pub fn discover_repository(cwd: &[u8]) -> (d: Discovery)
        ensures
            forall|fs: FsModel| #[trigger] d.outcome(fs) == discover_from(fs, cwd@),
    {
        Discovery { stage: Stage::ScanJj { dir: crate::bytes::copy(cwd) } }
    }

    /// The question to ask of the file system.
    pub fn probe(&self) -> (p: Probe)
        ensures
            p@ == self.pending(),
    {
        match &self.stage {
            Stage::ScanJj { dir } => Probe::Exists(jj_marker(dir)),
            Stage::ScanGit { dir } => Probe::Exists(git_marker(dir)),
            Stage::JjMarker { marker } => Probe::IsDir(crate::bytes::copy(marker)),
            Stage::JjRepoDir { marker } => Probe::IsDir(jj_repo(marker)),
            Stage::JjRepoFile { marker } => Probe::IsFile(jj_repo(marker)),
            Stage::JjPointer { marker } => Probe::Read(jj_repo(marker)),
            Stage::Resolve { vcs, target } => Probe::Canonicalize(crate::bytes::copy(target)),
            Stage::Check { vcs, canonical } => Probe::IsDir(crate::bytes::copy(canonical)),
            Stage::GitMarkerDir { marker } => Probe::IsDir(crate::bytes::copy(marker)),
            Stage::GitMarkerFile { marker } => Probe::IsFile(crate::bytes::copy(marker)),
            Stage::GitFile { marker } => Probe::Read(crate::bytes::copy(marker)),
            Stage::GitCommonExists { admin } => Probe::Exists(commondir(admin)),
            Stage::GitCommon { admin } => Probe::Read(commondir(admin)),
        }
    }
    /// The search after the file system answered its question. Where `answer`
    /// is what a file system `fs` answers, the search that goes on finds in
    /// `fs` what this one would, with fewer questions left, and a finished
    /// search has found it.
    pub fn step(self, answer: Answer) -> (r: Progress)
        ensures
            forall|fs: FsModel| #[trigger] answers(fs, self.pending(), answer) ==> match r {
                Progress::Next(next) => next.outcome(fs) == self.outcome(fs) && next.remaining()
                    < self.remaining(),
                Progress::Finished(res) => finished_view(res) == self.outcome(fs),
            },
    {
        proof {
            use_type_invariant(&self);
        }
        match self.stage {
            Stage::ScanJj { dir } => match answer {
                Answer::Flag(b) => if b {
                    Progress::Next(Discovery { stage: Stage::JjMarker { marker: jj_marker(&dir) } })
                } else {
                    Progress::Next(Discovery { stage: Stage::ScanGit { dir } })
                },
                _ => Progress::Next(Discovery { stage: Stage::ScanJj { dir } }),
            },
            Stage::ScanGit { dir } => match answer {
                Answer::Flag(b) => if b {
                    Progress::Next(
                        Discovery { stage: Stage::GitMarkerDir { marker: git_marker(&dir) } },
                    )
                } else {
                    proof {
                        crate::path::lemma_parent_shorter(dir@);
                    }
                    match path_parent(&dir) {
                        Some(up) => Progress::Next(Discovery { stage: Stage::ScanJj { dir: up } }),
                        None => Progress::Finished(Ok(None)),
                    }
                },
                _ => Progress::Next(Discovery { stage: Stage::ScanGit { dir } }),
            },
            Stage::JjMarker { marker } => match answer {
                Answer::Flag(b) => if b {
                    Progress::Next(Discovery { stage: Stage::JjRepoDir { marker } })
                } else {
                    Progress::Finished(Err(StoreError::new(Problem::JjMarkerNotDir, &marker)))
                },
                _ => Progress::Next(Discovery { stage: Stage::JjMarker { marker } }),
            },
            Stage::JjRepoDir { marker } => match answer {
                Answer::Flag(b) => if b {
                    Progress::Next(
                        Discovery { stage: Stage::Resolve { vcs: Vcs::Jj, target: jj_repo(&marker) } },
                    )
                } else {
                    Progress::Next(Discovery { stage: Stage::JjRepoFile { marker } })
                },
                _ => Progress::Next(Discovery { stage: Stage::JjRepoDir { marker } }),
            },
            Stage::JjRepoFile { marker } => match answer {
                Answer::Flag(b) => if b {
                    Progress::Next(Discovery { stage: Stage::JjPointer { marker } })
                } else {
                    Progress::Finished(
                        Err(StoreError::new(Problem::JjRepoMissing, &jj_repo(&marker))),
                    )
                },
                _ => Progress::Next(Discovery { stage: Stage::JjRepoFile { marker } }),
            },
            Stage::JjPointer { marker } => match answer {
                Answer::Text(Err(cause)) => Progress::Finished(
                    Err(StoreError::because(Problem::ReadFailed, &jj_repo(&marker), cause)),
                ),
                Answer::Text(Ok(text)) => {
                    let pointer = trim_text(text.as_str());
                    if pointer.is_empty() {
                        Progress::Finished(
                            Err(StoreError::new(Problem::JjPointerEmpty, &jj_repo(&marker))),
                        )
                    } else {
                        let target = path_join(&marker, pointer.as_bytes());
                        Progress::Next(Discovery { stage: Stage::Resolve { vcs: Vcs::Jj, target } })
                    }
                },
                _ => Progress::Next(Discovery { stage: Stage::JjPointer { marker } }),
            },
            Stage::Resolve { vcs, target } => match answer {
                Answer::Resolved(Ok(canonical)) => Progress::Next(
                    Discovery { stage: Stage::Check { vcs, canonical } },
                ),
                Answer::Resolved(Err(cause)) => Progress::Finished(
                    Err(StoreError::because(unresolved_problem(vcs), &target, cause)),
                ),
                _ => Progress::Next(Discovery { stage: Stage::Resolve { vcs, target } }),
            },
            Stage::Check { vcs, canonical } => match answer {
                Answer::Flag(b) => if b {
                    Progress::Finished(Ok(Some(identity(vcs, &canonical))))
                } else {
                    Progress::Finished(Err(StoreError::new(not_dir_problem(vcs), &canonical)))
                },
                _ => Progress::Next(Discovery { stage: Stage::Check { vcs, canonical } }),
            },
            Stage::GitMarkerDir { marker } => match answer {
                Answer::Flag(b) => if b {
                    Progress::Next(Discovery { stage: Stage::GitCommonExists { admin: marker } })
                } else {
                    Progress::Next(Discovery { stage: Stage::GitMarkerFile { marker } })
                },
                _ => Progress::Next(Discovery { stage: Stage::GitMarkerDir { marker } }),
            },
            Stage::GitMarkerFile { marker } => match answer {
                Answer::Flag(b) => if b {
                    Progress::Next(Discovery { stage: Stage::GitFile { marker } })
                } else {
                    Progress::Finished(Err(StoreError::new(Problem::GitMarkerMalformed, &marker)))
                },
                _ => Progress::Next(Discovery { stage: Stage::GitMarkerFile { marker } }),
            },
            Stage::GitFile { marker } => match answer {
                Answer::Text(Err(cause)) => Progress::Finished(
                    Err(StoreError::because(Problem::ReadFailed, &marker, cause)),
                ),
                Answer::Text(Ok(text)) => {
                    let no_path: Vec<u8> = Vec::new();
                    match strip_text_prefix(text.as_str(), "gitdir:") {
                        None => Progress::Finished(
                            Err(StoreError::new(Problem::GitFileMalformed, &no_path)),
                        ),
                        Some(rest) => {
                            let target = trim_text(rest);
                            if target.is_empty() {
                                Progress::Finished(
                                    Err(StoreError::new(Problem::GitFileMalformed, &no_path)),
                                )
                            } else {
                                let base = path_parent(&marker).unwrap();
                                let admin = path_join(&base, target.as_bytes());
                                Progress::Next(Discovery { stage: Stage::GitCommonExists { admin } })
                            }
                        },
                    }
                },
                _ => Progress::Next(Discovery { stage: Stage::GitFile { marker } }),
            },
            Stage::GitCommonExists { admin } => match answer {
                Answer::Flag(b) => if b {
                    Progress::Next(Discovery { stage: Stage::GitCommon { admin } })
                } else {
                    Progress::Next(
                        Discovery { stage: Stage::Resolve { vcs: Vcs::Git, target: admin } },
                    )
                },
                _ => Progress::Next(Discovery { stage: Stage::GitCommonExists { admin } }),
            },
            Stage::GitCommon { admin } => match answer {
                Answer::Text(Err(cause)) => Progress::Finished(
                    Err(StoreError::because(Problem::ReadFailed, &commondir(&admin), cause)),
                ),
                Answer::Text(Ok(text)) => {
                    let value = trim_text(text.as_str());
                    if value.is_empty() {
                        Progress::Finished(
                            Err(StoreError::new(Problem::GitCommondirEmpty, &commondir(&admin))),
                        )
                    } else {
                        let target = path_join(&admin, value.as_bytes());
                        Progress::Next(Discovery { stage: Stage::Resolve { vcs: Vcs::Git, target } })
                    }
                },
                _ => Progress::Next(Discovery { stage: Stage::GitCommon { admin } }),
            },
        }
    }
}

fn unresolved_problem(vcs: Vcs) -> (p: Problem)
    ensures
        p == unresolved(vcs),
{
    match vcs {
        Vcs::Jj => Problem::JjUnresolved,
        Vcs::Git => Problem::GitUnresolved,
    }
}

fn not_dir_problem(vcs: Vcs) -> (p: Problem)
    ensures
        p == not_dir(vcs),
{
    match vcs {
        Vcs::Jj => Problem::JjRepoNotDir,
        Vcs::Git => Problem::GitCommonNotDir,
    }
}

/// A resolved identity is a namespace followed by a canonical path that is a
/// directory and, where canonical paths are fixed points of canonicalization,
/// its own canonical form.
pub open spec fn names_directory(fs: FsModel, identity: Seq<u8>) -> bool {
    exists|vcs: Vcs, canonical: Seq<u8>|
        {
            &&& (fs.is_dir)(canonical)
            &&& identity == #[trigger] label(vcs).add(shown(canonical))
            &&& canonical_fixed(fs) ==> (fs.canonicalize)(canonical) == Ok::<Seq<u8>, Seq<char>>(
                canonical,
            )
        }
}

/// A file system in which a canonical path is its own canonical form, as
/// `Path::canonicalize` gives on a file system that does not change between
/// two calls.
pub open spec fn canonical_fixed(fs: FsModel) -> bool {
    forall|p: Seq<u8>|
        #[trigger] (fs.canonicalize)(p) matches Ok(c) ==> (fs.canonicalize)(c) == Ok::<
            Seq<u8>,
            Seq<char>,
        >(c)
}

proof fn lemma_resolved_names_directory(fs: FsModel, vcs: Vcs, target: Seq<u8>)
    ensures
        resolved(fs, vcs, target) matches Ok(id) ==> names_directory(fs, id),
{
    if let Ok(c) = (fs.canonicalize)(target) {
        if (fs.is_dir)(c) {
            assert(canonical_fixed(fs) ==> (fs.canonicalize)(c) == Ok::<Seq<u8>, Seq<char>>(c));
            assert((fs.is_dir)(c) && label(vcs).add(shown(c)) == label(vcs).add(shown(c)));
        }
    }
}

proof fn lemma_git_common_names_directory(fs: FsModel, admin: Seq<u8>)
    ensures
        git_common(fs, admin) matches Ok(id) ==> names_directory(fs, id),
{
    lemma_resolved_names_directory(fs, Vcs::Git, admin);
    if let Ok(text) = (fs.read)(commondir_of(admin)) {
        lemma_resolved_names_directory(fs, Vcs::Git, join(admin, encode_utf8(trim(text))));
    }
}

/// Every identity that the search finds is a namespace (`jj:` or `git:`)
/// followed by the canonical path of a directory, the repository's shared
/// metadata directory; where canonical paths are fixed points of
/// canonicalization, that path is its own canonical form.
pub proof fn lemma_identity_is_canonical_directory(fs: FsModel, dir: Seq<u8>)
    ensures
        discover_from(fs, dir) matches Ok(Some(id)) ==> names_directory(fs, id),
    decreases dir.len(),
{
    let jj = jj_marker_of(dir);
    let git = git_marker_of(dir);
    if (fs.exists)(jj) {
        lemma_resolved_names_directory(fs, Vcs::Jj, jj_repo_of(jj));
        if let Ok(text) = (fs.read)(jj_repo_of(jj)) {
            lemma_resolved_names_directory(fs, Vcs::Jj, join(jj, encode_utf8(trim(text))));
        }
    } else if (fs.exists)(git) {
        lemma_git_common_names_directory(fs, git);
        if let Ok(text) = (fs.read)(git) {
            if let Some(target) = gitdir_target(text) {
                lemma_git_common_names_directory(fs, join(parent(git).unwrap(), encode_utf8(target)));
            }
        }
    } else {
        crate::path::lemma_parent_shorter(dir);
        if let Some(up) = parent(dir) {
            lemma_identity_is_canonical_directory(fs, up);
        }
    }
}

/// Two identities are equal only where they name the same version control
/// system and show the same canonical directory (`shown`): workspaces and
/// worktrees share an identity exactly when they share metadata.
pub proof fn lemma_identity_determines_repository(
    vcs1: Vcs,
    path1: Seq<u8>,
    vcs2: Vcs,
    path2: Seq<u8>,
)
    requires
        label(vcs1) + path1 == label(vcs2) + path2,
    ensures
        vcs1 == vcs2,
        path1 == path2,
{
    reveal_strlit("jj:");
    reveal_strlit("git:");
    let a = label(vcs1) + path1;
    let b = label(vcs2) + path2;
    assert(a[0] == label(vcs1)[0]);
    assert(b[0] == label(vcs2)[0]);
    assert(vcs1 == vcs2);
    let n = label(vcs1).len() as int;
    assert(label(vcs2).len() == n);
    assert(a.len() == n + path1.len());
    assert(b.len() == n + path2.len());
    assert forall|i: int| 0 <= i < path1.len() implies path1[i] == path2[i] by {
        assert(a[n + i] == path1[i]);
        assert(b[n + i] == path2[i]);
    }
    assert(path1 =~= path2);
}

/// The order of the search: in each directory a `.jj` marker is looked at
/// before a `.git` marker, and a directory without either passes the search
/// on to its parent; above the last ancestor nothing is found.
pub proof fn lemma_search_order(fs: FsModel, dir: Seq<u8>)
    ensures
        (fs.exists)(jj_marker_of(dir)) ==> discover_from(fs, dir) == found(
            jj_identity(fs, jj_marker_of(dir)),
        ),
        !(fs.exists)(jj_marker_of(dir)) && (fs.exists)(git_marker_of(dir)) ==> discover_from(
            fs,
            dir,
        ) == found(git_identity(fs, git_marker_of(dir))),
        !(fs.exists)(jj_marker_of(dir)) && !(fs.exists)(git_marker_of(dir)) ==> discover_from(
            fs,
            dir,
        ) == match parent(dir) {
            Some(up) => discover_from(fs, up),
            None => Ok(None),
        },
{
}

/// The metadata path that a `.jj` marker leads to, before it is made
/// canonical: `.jj/repo` where it is a directory, else the path that the
/// `.jj/repo` file holds; none where the marker is malformed.
pub open spec fn jj_target(fs: FsModel, marker: Seq<u8>) -> Option<Seq<u8>> {
    let repo = jj_repo_of(marker);
    if !(fs.is_dir)(marker) {
        None
    } else if (fs.is_dir)(repo) {
        Some(repo)
    } else if (fs.is_file)(repo) {
        match (fs.read)(repo) {
            Ok(text) => if trim(text).len() > 0 {
                Some(join(marker, encode_utf8(trim(text))))
            } else {
                None
            },
            Err(_) => None,
        }
    } else {
        None
    }
}

/// The administrative directory that a `.git` marker leads to: the marker
/// itself where it is a directory, else the path that the `.git` file names.
pub open spec fn git_admin(fs: FsModel, marker: Seq<u8>) -> Option<Seq<u8>> {
    if (fs.is_dir)(marker) {
        Some(marker)
    } else if (fs.is_file)(marker) {
        match (fs.read)(marker) {
            Ok(text) => match gitdir_target(text) {
                Some(target) => Some(join(parent(marker).unwrap(), encode_utf8(target))),
                None => None,
            },
            Err(_) => None,
        }
    } else {
        None
    }
}

/// The shared metadata path of a Git administrative directory, before it is
/// made canonical: the one its `commondir` file names, or itself.
pub open spec fn git_common_dir(fs: FsModel, admin: Seq<u8>) -> Option<Seq<u8>> {
    if (fs.exists)(commondir_of(admin)) {
        match (fs.read)(commondir_of(admin)) {
            Ok(text) => if trim(text).len() > 0 {
                Some(join(admin, encode_utf8(trim(text))))
            } else {
                None
            },
            Err(_) => None,
        }
    } else {
        Some(admin)
    }
}

/// The shared metadata path that a `.git` marker leads to.
pub open spec fn git_target(fs: FsModel, marker: Seq<u8>) -> Option<Seq<u8>> {
    match git_admin(fs, marker) {
        Some(admin) => git_common_dir(fs, admin),
        None => None,
    }
}

/// A well-formed marker's identity is that of the metadata path it leads to.
pub proof fn lemma_identity_by_target(fs: FsModel, marker: Seq<u8>)
    ensures
        jj_target(fs, marker) matches Some(t) ==> jj_identity(fs, marker) == resolved(
            fs,
            Vcs::Jj,
            t,
        ),
        git_target(fs, marker) matches Some(t) ==> git_identity(fs, marker) == resolved(
            fs,
            Vcs::Git,
            t,
        ),
{
}

/// A jj workspace and its main repository share an identity: two
/// directories holding `.jj` markers whose metadata paths resolve to the
/// same canonical directory find the same identity.
pub proof fn lemma_jj_workspaces_share_identity(fs: FsModel, dir1: Seq<u8>, dir2: Seq<u8>)
    requires
        (fs.exists)(jj_marker_of(dir1)),
        (fs.exists)(jj_marker_of(dir2)),
        jj_target(fs, jj_marker_of(dir1)) is Some,
        jj_target(fs, jj_marker_of(dir2)) is Some,
        (fs.canonicalize)(jj_target(fs, jj_marker_of(dir1)).unwrap()) is Ok,
        (fs.canonicalize)(jj_target(fs, jj_marker_of(dir1)).unwrap()) == (fs.canonicalize)(
            jj_target(fs, jj_marker_of(dir2)).unwrap(),
        ),
    ensures
        discover_from(fs, dir1) == discover_from(fs, dir2),
{
    lemma_identity_by_target(fs, jj_marker_of(dir1));
    lemma_identity_by_target(fs, jj_marker_of(dir2));
}

/// A Git worktree and its main checkout share an identity: two directories
/// holding `.git` markers (and no `.jj`) whose shared metadata paths resolve
/// to the same canonical directory find the same identity.
pub proof fn lemma_git_worktrees_share_identity(fs: FsModel, dir1: Seq<u8>, dir2: Seq<u8>)
    requires
        !(fs.exists)(jj_marker_of(dir1)),
        !(fs.exists)(jj_marker_of(dir2)),
        (fs.exists)(git_marker_of(dir1)),
        (fs.exists)(git_marker_of(dir2)),
        git_target(fs, git_marker_of(dir1)) is Some,
        git_target(fs, git_marker_of(dir2)) is Some,
        (fs.canonicalize)(git_target(fs, git_marker_of(dir1)).unwrap()) is Ok,
        (fs.canonicalize)(git_target(fs, git_marker_of(dir1)).unwrap()) == (fs.canonicalize)(
            git_target(fs, git_marker_of(dir2)).unwrap(),
        ),
    ensures
        discover_from(fs, dir1) == discover_from(fs, dir2),
{
    lemma_identity_by_target(fs, git_marker_of(dir1));
    lemma_identity_by_target(fs, git_marker_of(dir2));
}

fn jj_marker(dir: &[u8]) -> (r: Vec<u8>)
    ensures
        r@ == jj_marker_of(dir@),
{
    proof {
        reveal_strlit(".jj");
    }
    path_join(dir, crate::bytes::ascii(".jj").as_slice())
}

fn git_marker(dir: &[u8]) -> (r: Vec<u8>)
    ensures
        r@ == git_marker_of(dir@),
        r@.len() >= 2,
{
    proof {
        reveal_strlit(".git");
    }
    path_join(dir, crate::bytes::ascii(".git").as_slice())
}

fn jj_repo(marker: &[u8]) -> (r: Vec<u8>)
    ensures
        r@ == jj_repo_of(marker@),
{
    proof {
        reveal_strlit("repo");
    }
    path_join(marker, crate::bytes::ascii("repo").as_slice())
}

fn commondir(admin: &[u8]) -> (r: Vec<u8>)
    ensures
        r@ == commondir_of(admin@),
{
    proof {
        reveal_strlit("commondir");
    }
    path_join(admin, crate::bytes::ascii("commondir").as_slice())
}

fn identity(vcs: Vcs, canonical: &[u8]) -> (r: Vec<u8>)
    ensures
        r@ == label(vcs) + shown(canonical@),
        valid_utf8(canonical@) ==> r@ == label(vcs) + canonical@,
{
    let mut out = match vcs {
        Vcs::Jj => {
            proof {
                reveal_strlit("jj:");
            }
            crate::bytes::ascii("jj:")
        },
        Vcs::Git => {
            proof {
                reveal_strlit("git:");
            }
            crate::bytes::ascii("git:")
        },
    };
    let text = lossy_text(canonical);
    proof {
        if valid_utf8(canonical@) {
            vstd::utf8::decode_utf8_encode_utf8(canonical@);
        }
    }
    crate::bytes::append(&mut out, text.as_str().as_bytes());
    out
}

} // verus!
