use std::collections::{BTreeMap, BTreeSet};

use memo::discovery::{Answer, Discovery, Probe, Progress};
use memo::error::{Problem, StoreError};
use memo::store::{select, Kind};

/// A file system in memory, without symbolic links: directories and files
/// by absolute path.
#[derive(Default)]
struct FakeFs {
    dirs: BTreeSet<Vec<u8>>,
    files: BTreeMap<Vec<u8>, Vec<u8>>,
}

/// `path` with `.` and `..` components resolved, as an absolute path.
fn normalize(path: &[u8]) -> Vec<u8> {
    let mut parts: Vec<&[u8]> = Vec::new();
    for part in path.split(|b| *b == b'/') {
        match part {
            b"" | b"." => {}
            b".." => {
                parts.pop();
            }
            other => parts.push(other),
        }
    }
    let mut out = Vec::new();
    for part in parts {
        out.push(b'/');
        out.extend_from_slice(part);
    }
    if out.is_empty() {
        out.push(b'/');
    }
    out
}

impl FakeFs {
    fn dir(&mut self, path: &str) {
        let mut current = Vec::new();
        self.dirs.insert(b"/".to_vec());
        for part in path.split('/').filter(|p| !p.is_empty()) {
            current.push(b'/');
            current.extend_from_slice(part.as_bytes());
            self.dirs.insert(current.clone());
        }
    }

    fn file(&mut self, path: &str, contents: &str) {
        let cut = path.rfind('/').unwrap();
        self.dir(&path[..cut]);
        self.files.insert(path.as_bytes().to_vec(), contents.as_bytes().to_vec());
    }

    fn has(&self, path: &[u8]) -> bool {
        let n = normalize(path);
        self.dirs.contains(&n) || self.files.contains_key(&n)
    }

    fn answer(&self, probe: &Probe) -> Answer {
        match probe {
            Probe::Exists(p) => Answer::Flag(self.has(p)),
            Probe::IsDir(p) => Answer::Flag(self.dirs.contains(&normalize(p))),
            Probe::IsFile(p) => Answer::Flag(self.files.contains_key(&normalize(p))),
            Probe::Read(p) => Answer::Text(match self.files.get(&normalize(p)) {
                Some(contents) => String::from_utf8(contents.clone())
                    .map_err(|_| "stream did not contain valid UTF-8".to_string()),
                None if self.dirs.contains(&normalize(p)) => Err("Is a directory".to_string()),
                None => Err("No such file or directory".to_string()),
            }),
            Probe::Canonicalize(p) => Answer::Resolved(if self.has(p) {
                Ok(normalize(p))
            } else {
                Err("No such file or directory".to_string())
            }),
        }
    }

    fn discover_repository(&self, cwd: &str) -> Result<Option<Vec<u8>>, StoreError> {
        self.discover_from_bytes(cwd.as_bytes())
    }

    fn discover_from_bytes(&self, cwd: &[u8]) -> Result<Option<Vec<u8>>, StoreError> {
        let mut search = Discovery::discover_repository(cwd);
        loop {
            let probe = search.probe();
            match search.step(self.answer(&probe)) {
                Progress::Next(next) => search = next,
                Progress::Finished(result) => return result,
            }
        }
    }
}

fn identity(result: Result<Option<Vec<u8>>, StoreError>) -> Vec<u8> {
    result.unwrap().unwrap()
}

fn tagged(tag: &str, path: &str) -> Vec<u8> {
    format!("{tag}{path}").into_bytes()
}

#[test]
fn outside_defaults_and_where_does_not_create() {
    let mut fs = FakeFs::default();
    fs.dir("/tmp/t");
    let root = b"/tmp/t/stores".to_vec();
    let repository = fs.discover_repository("/tmp/t");
    let selected = select(&root, None, true, &repository).unwrap();
    assert_eq!(selected.kind, Kind::Default);
    assert!(!fs.has(&selected.path));
}

#[test]
fn nested_jj_and_workspace_share_identity() {
    let mut fs = FakeFs::default();
    fs.dir("/t/main/.jj/repo");
    fs.dir("/t/workspace/.jj");
    fs.file("/t/workspace/.jj/repo", "../../main/.jj/repo\n");
    fs.dir("/t/main/deep");
    assert_eq!(
        fs.discover_repository("/t/main/deep").unwrap(),
        fs.discover_repository("/t/workspace").unwrap()
    );
    assert_eq!(
        identity(fs.discover_repository("/t/workspace")),
        tagged("jj:", "/t/main/.jj/repo")
    );
}

#[test]
fn git_worktree_uses_common_dir() {
    let mut fs = FakeFs::default();
    fs.dir("/t/main/.git/worktrees/w");
    fs.dir("/t/worktree");
    fs.file("/t/worktree/.git", "gitdir: /t/main/.git/worktrees/w\n");
    fs.file("/t/main/.git/worktrees/w/commondir", "../..\n");
    assert_eq!(
        fs.discover_repository("/t/main").unwrap(),
        fs.discover_repository("/t/worktree").unwrap()
    );
    assert_eq!(identity(fs.discover_repository("/t/worktree")), tagged("git:", "/t/main/.git"));
}

#[test]
fn malformed_marker_is_an_error() {
    let mut fs = FakeFs::default();
    fs.dir("/t/.jj");
    assert!(fs.discover_repository("/t").is_err());
}

#[test]
fn outside_any_repository_nothing_is_found() {
    let mut fs = FakeFs::default();
    fs.dir("/a/b/c");
    assert_eq!(fs.discover_repository("/a/b/c").unwrap(), None);
    assert_eq!(fs.discover_repository("/").unwrap(), None);
}

#[test]
fn jj_marker_wins_over_git_in_one_directory() {
    let mut fs = FakeFs::default();
    fs.dir("/r/.jj/repo");
    fs.dir("/r/.git");
    assert_eq!(identity(fs.discover_repository("/r")), tagged("jj:", "/r/.jj/repo"));
}

#[test]
fn nearest_marker_decides() {
    let mut fs = FakeFs::default();
    fs.dir("/outer/.jj/repo");
    fs.dir("/outer/inner/.git");
    fs.dir("/outer/inner/deeper");
    assert_eq!(
        identity(fs.discover_repository("/outer/inner/deeper")),
        tagged("git:", "/outer/inner/.git")
    );
    assert_eq!(identity(fs.discover_repository("/outer")), tagged("jj:", "/outer/.jj/repo"));
}

#[test]
fn clones_have_distinct_identities() {
    let mut fs = FakeFs::default();
    fs.dir("/one/.git");
    fs.dir("/two/.git");
    assert_ne!(
        identity(fs.discover_repository("/one")),
        identity(fs.discover_repository("/two"))
    );
}

#[test]
fn jj_pointer_is_trimmed_and_may_be_absolute() {
    let mut fs = FakeFs::default();
    fs.dir("/t/main/.jj/repo");
    fs.dir("/t/bay/.jj");
    fs.file("/t/bay/.jj/repo", "  \t/t/main/.jj/repo\u{3000}\n");
    assert_eq!(
        fs.discover_repository("/t/main").unwrap(),
        fs.discover_repository("/t/bay").unwrap()
    );
}

#[test]
fn malformed_jj_markers_are_errors() {
    let mut fs = FakeFs::default();
    fs.file("/file/.jj", "");
    let error = fs.discover_repository("/file").unwrap_err();
    assert_eq!(error.problem, Problem::JjMarkerNotDir);
    assert_eq!(error.path, b"/file/.jj".to_vec());

    fs.dir("/missing/.jj");
    let error = fs.discover_repository("/missing").unwrap_err();
    assert_eq!(error.problem, Problem::JjRepoMissing);
    assert_eq!(error.path, b"/missing/.jj/repo".to_vec());

    fs.file("/empty/.jj/repo", " \n");
    let error = fs.discover_repository("/empty").unwrap_err();
    assert_eq!(error.problem, Problem::JjPointerEmpty);
    assert_eq!(error.path, b"/empty/.jj/repo".to_vec());

    fs.file("/dangling/.jj/repo", "nowhere\n");
    let error = fs.discover_repository("/dangling").unwrap_err();
    assert_eq!(error.problem, Problem::JjUnresolved);
    assert_eq!(error.path, b"/dangling/.jj/nowhere".to_vec());
    assert_eq!(error.cause, Some("No such file or directory".to_string()));

    fs.file("/notdir/target", "x");
    fs.file("/notdir/.jj/repo", "../target");
    let error = fs.discover_repository("/notdir").unwrap_err();
    assert_eq!(error.problem, Problem::JjRepoNotDir);
    assert_eq!(error.path, b"/notdir/target".to_vec());

    fs.dir("/binary/.jj");
    fs.files.insert(b"/binary/.jj/repo".to_vec(), vec![0xff, 0xfe]);
    let error = fs.discover_repository("/binary").unwrap_err();
    assert_eq!(error.problem, Problem::ReadFailed);
    assert_eq!(error.path, b"/binary/.jj/repo".to_vec());
}

#[test]
fn malformed_git_markers_are_errors() {
    let mut fs = FakeFs::default();
    fs.file("/noprefix/.git", "somewhere\n");
    let error = fs.discover_repository("/noprefix").unwrap_err();
    assert_eq!(error.problem, Problem::GitFileMalformed);
    assert!(error.path.is_empty());

    fs.file("/blank/.git", "gitdir:   \n");
    let error = fs.discover_repository("/blank").unwrap_err();
    assert_eq!(error.problem, Problem::GitFileMalformed);

    fs.file("/common/.git/commondir", "\n");
    let error = fs.discover_repository("/common").unwrap_err();
    assert_eq!(error.problem, Problem::GitCommondirEmpty);
    assert_eq!(error.path, b"/common/.git/commondir".to_vec());

    fs.file("/dangling/.git", "gitdir: gone\n");
    let error = fs.discover_repository("/dangling").unwrap_err();
    assert_eq!(error.problem, Problem::GitUnresolved);
    assert_eq!(error.path, b"/dangling/gone".to_vec());

    fs.file("/relative/admin/x", "");
    fs.file("/relative/.git", "gitdir: admin\n");
    assert_eq!(identity(fs.discover_repository("/relative")), tagged("git:", "/relative/admin"));
}

#[test]
fn project_store_of_a_repository() {
    let mut fs = FakeFs::default();
    fs.dir("/repo/.git");
    let root = b"/data/stores".to_vec();
    let repository = fs.discover_repository("/repo");
    let selected = select(&root, None, true, &repository).unwrap();
    assert_eq!(selected.kind, Kind::Project);
    let id = memo::project::project_id(&tagged("git:", "/repo/.git"));
    let mut expected = root.clone();
    expected.extend_from_slice(b"/projects/");
    expected.extend_from_slice(&id);
    assert_eq!(selected.path, expected);

    let explicit = select(&root, Some("project"), false, &repository).unwrap();
    assert_eq!(explicit.kind, Kind::Project);
    assert_eq!(explicit.path, expected);

    let off = select(&root, None, false, &repository).unwrap();
    assert_eq!(off.kind, Kind::Default);
}

#[test]
fn identity_shows_a_path_that_is_not_utf8() {
    let mut fs = FakeFs::default();
    fs.dir("/");
    fs.dirs.insert(b"/x\xff".to_vec());
    fs.dirs.insert(b"/x\xff/.git".to_vec());
    let found = identity(fs.discover_from_bytes(b"/x\xff"));
    assert_eq!(found, "git:/x\u{FFFD}/.git".as_bytes().to_vec());
}
